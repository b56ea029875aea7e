//! Starting and stopping a session.

use crate::status::XrStatus;
use vstd::prelude::*;

verus! {

/// Why a request to start a session is ignored.
#[derive(Clone, Copy, PartialEq, Eq, Structural, Debug)]
pub enum StartRefused {
    /// There is no OpenXR instance to create a session with.
    NoInstance,
    /// A session exists already, or is being set up.
    SessionExists,
    /// The session that exists is stopping.
    SessionStopping,
}

impl StartRefused {
    /// The warning that goes with this refusal.
    pub open spec fn message_text(self) -> Seq<char> {
        match self {
            StartRefused::NoInstance => "Trying to start OpenXR Session without instance, ignoring"@,
            StartRefused::SessionExists => "Trying to start OpenXR Session while one already exists, ignoring"@,
            StartRefused::SessionStopping => "Trying to start OpenXR Session while one is stopping, ignoring"@,
        }
    }

    /// The warning that goes with this refusal.
    pub fn message(self) -> (text: &'static str)
        ensures
            text@ == self.message_text(),
    {
        match self {
            StartRefused::NoInstance => "Trying to start OpenXR Session without instance, ignoring",
            StartRefused::SessionExists => "Trying to start OpenXR Session while one already exists, ignoring",
            StartRefused::SessionStopping => "Trying to start OpenXR Session while one is stopping, ignoring",
        }
    }
}

/// What became of a request to start a session.
#[derive(PartialEq, Eq, Debug)]
pub enum StartOutcome<T, E> {
    /// The session was created. Its data is handed over, the status is
    /// `Enabling`, and the setup of the data is due.
    Started(T),
    /// The request was ignored because of the status; nothing was created.
    Ignored(StartRefused),
    /// The session could not be created.
    Failed(E),
}

/// Why a start is refused in a given status, if it is: a session is started
/// from `Disabled` and from no other status.
pub open spec fn start_refusal(status: XrStatus) -> Option<StartRefused> {
    match status {
        XrStatus::Disabled => None,
        XrStatus::NoInstance => Some(StartRefused::NoInstance),
        XrStatus::Enabled | XrStatus::Enabling => Some(StartRefused::SessionExists),
        XrStatus::Disabling => Some(StartRefused::SessionStopping),
    }
}

/// What a request to start a session comes to, given the status at the
/// request and what creating the session gives: the outcome, and the status
/// after it. Only a session that was created changes the status.
pub open spec fn start_result<T, E>(status: XrStatus, created: Result<T, E>) -> (
    StartOutcome<T, E>,
    XrStatus,
) {
    match start_refusal(status) {
        Some(refused) => (StartOutcome::Ignored(refused), status),
        None => match created {
            Ok(data) => (StartOutcome::Started(data), XrStatus::Enabling),
            Err(error) => (StartOutcome::Failed(error), status),
        },
    }
}

/// Says whether a request to start a session is refused in this status, and
/// why.
pub fn check_start(status: XrStatus) -> (refused: Option<StartRefused>)
    ensures
        refused == start_refusal(status),
{
    match status {
        XrStatus::Disabled => None,
        XrStatus::NoInstance => Some(StartRefused::NoInstance),
        XrStatus::Enabled | XrStatus::Enabling => Some(StartRefused::SessionExists),
        XrStatus::Disabling => Some(StartRefused::SessionStopping),
    }
}

/// Concludes a request to start a session, given what creating the session
/// gave.
pub fn conclude_start<T, E>(status: &mut XrStatus, created: Result<T, E>) -> (outcome:
    StartOutcome<T, E>)
    ensures
        (outcome, *final(status)) == start_result(*old(status), created),
{
    match check_start(*status) {
        Some(refused) => StartOutcome::Ignored(refused),
        None => match created {
            Ok(data) => {
                *status = XrStatus::Enabling;
                StartOutcome::Started(data)
            },
            Err(error) => StartOutcome::Failed(error),
        },
    }
}

/// Handles a request to start a session.
///
/// Where the status refuses the start, `create` is not called and nothing
/// changes. Otherwise `create` is called once, and the request is concluded
/// with what it gave.
pub fn start_xr_session<T, E, F: FnOnce() -> Result<T, E>>(
    status: &mut XrStatus,
    create: F,
) -> (outcome: StartOutcome<T, E>)
    requires
        start_refusal(*old(status)) is None ==> create.requires(()),
    ensures
        match start_refusal(*old(status)) {
            Some(refused) => (outcome, *final(status)) == (
                StartOutcome::<T, E>::Ignored(refused),
                *old(status),
            ),
            None => exists|created: Result<T, E>|
                create.ensures((), created) && (outcome, *final(status)) == start_result(
                    *old(status),
                    created,
                ),
        },
{
    match check_start(*status) {
        Some(refused) => StartOutcome::Ignored(refused),
        None => {
            let created = create();
            conclude_start(status, created)
        },
    }
}

/// Handles a request to end the session.
///
/// The runtime is asked to end it, by one call of `request_exit`, and the
/// session is `Disabling` from then on, whether the runtime took the request
/// or not. What the runtime answered is handed back.
pub fn stop_xr_session<T, E, F: FnOnce() -> Result<T, E>>(
    status: &mut XrStatus,
    request_exit: F,
) -> (asked: Result<T, E>)
    requires
        request_exit.requires(()),
    ensures
        request_exit.ensures((), asked),
        *final(status) == XrStatus::Disabling,
{
    let asked = request_exit();
    *status = XrStatus::Disabling;
    asked
}

} // verus!
