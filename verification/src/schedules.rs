//! The schedules that set up and clean up the data of a session.

use crate::status::XrStatus;
use vstd::prelude::*;

verus! {

/// A schedule that the host runs on behalf of the session.
#[derive(Clone, Copy, PartialEq, Eq, Structural, Debug)]
pub enum XrSchedule {
    XrPreSetup,
    XrSetup,
    XrPrePostSetup,
    XrPostSetup,
    XrPreCleanup,
    XrCleanup,
    XrPostCleanup,
}

/// The schedules of a setup, in the order in which they run.
pub open spec fn setup_schedules() -> Seq<XrSchedule> {
    seq![
        XrSchedule::XrPreSetup,
        XrSchedule::XrSetup,
        XrSchedule::XrPrePostSetup,
        XrSchedule::XrPostSetup,
    ]
}

/// The schedules of a cleanup, in the order in which they run.
pub open spec fn cleanup_schedules() -> Seq<XrSchedule> {
    seq![XrSchedule::XrPreCleanup, XrSchedule::XrCleanup, XrSchedule::XrPostCleanup]
}

/// Sets up the data of a session that was created.
///
/// Returns the schedules that the host runs, first to last. Whatever the
/// status was, and whatever the schedules do, the session is `Enabled` once
/// the last of them has run: `status` holds the value to publish then.
pub fn setup_xr(status: &mut XrStatus) -> (schedules: Vec<XrSchedule>)
    ensures
        schedules@ == setup_schedules(),
        *final(status) == XrStatus::Enabled,
{
    let mut schedules: Vec<XrSchedule> = Vec::new();
    schedules.push(XrSchedule::XrPreSetup);
    schedules.push(XrSchedule::XrSetup);
    schedules.push(XrSchedule::XrPrePostSetup);
    schedules.push(XrSchedule::XrPostSetup);
    assert(schedules@ =~= setup_schedules());
    *status = XrStatus::Enabled;
    schedules
}

/// Cleans up the data of a session that has stopped.
///
/// Returns the schedules that the host runs, first to last. Whatever the
/// status was, and whatever the schedules do, the session is `Disabled` once
/// the last of them has run: `status` holds the value to publish then.
pub fn cleanup_xr(status: &mut XrStatus) -> (schedules: Vec<XrSchedule>)
    ensures
        schedules@ == cleanup_schedules(),
        *final(status) == XrStatus::Disabled,
{
    let mut schedules: Vec<XrSchedule> = Vec::new();
    schedules.push(XrSchedule::XrPreCleanup);
    schedules.push(XrSchedule::XrCleanup);
    schedules.push(XrSchedule::XrPostCleanup);
    assert(schedules@ =~= cleanup_schedules());
    *status = XrStatus::Disabled;
    schedules
}

} // verus!
