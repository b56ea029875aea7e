//! The status of the session and the conditions that gate systems on it.

use vstd::prelude::*;

verus! {

/// Where the XR session stands in its life.
///
/// A session is asked for while `Disabled`, is `Enabling` until its data is
/// set up, `Enabled` while it runs, `Disabling` once it was asked to end, and
/// `Disabled` again when its data is cleaned up.
#[derive(Clone, Copy, PartialEq, Eq, Structural, Debug)]
pub enum XrStatus {
    /// There is no OpenXR instance: no session can be started.
    NoInstance,
    /// A session runs and its data is set up.
    Enabled,
    /// A session was created and its data is about to be set up.
    Enabling,
    /// There is no session; one can be started.
    Disabled,
    /// The session was asked to end and its data is about to be cleaned up.
    Disabling,
}

/// Whether the XR views are rendered in the current frame.
#[derive(Clone, Copy, PartialEq, Eq, Structural, Debug)]
pub struct XrShouldRender(pub bool);

impl Default for XrShouldRender {
    /// Nothing is rendered until the runtime asks for it.
    fn default() -> (flag: Self)
        ensures
            flag == XrShouldRender(false),
    {
        XrShouldRender(false)
    }
}

/// The condition under which systems that need a running session are run:
/// it holds of a status exactly when the status is `Enabled`.
pub fn xr_only() -> (condition: impl Fn(XrStatus) -> bool)
    ensures
        forall|status: XrStatus| condition.requires((status,)),
        forall|status: XrStatus, run: bool|
            condition.ensures((status,), run) ==> run == (status == XrStatus::Enabled),
{
    |status: XrStatus| -> (run: bool)
        ensures
            run == (status == XrStatus::Enabled),
        { status == XrStatus::Enabled }
}

/// The condition under which systems that render the XR views are run: it
/// holds of a flag exactly when the flag is set.
pub fn xr_render_only() -> (condition: impl Fn(XrShouldRender) -> bool)
    ensures
        forall|flag: XrShouldRender| condition.requires((flag,)),
        forall|flag: XrShouldRender, run: bool|
            condition.ensures((flag,), run) ==> run == flag.0,
{
    |flag: XrShouldRender| -> (run: bool)
        ensures
            run == flag.0,
        { flag.0 }
}

} // verus!
