//! The lifecycle of an OpenXR session inside a host engine.
//!
//! The host owns the scheduler, the renderer and the OpenXR runtime. This
//! crate owns the decisions: which status follows which request, when a
//! request is ignored and why, and which schedules run, in which order, when
//! the data of a session is set up or cleaned up.
//!
//! Every function here is total on its inputs and proved against its
//! contract. Work that only the host can do (creating the session, asking the
//! runtime to end it) is handed in as a function value; the contracts say what
//! is returned for each thing that such a function may hand back.

pub mod schedules;
pub mod session;
pub mod status;
pub mod views;

pub use schedules::{cleanup_xr, setup_xr, XrSchedule};
pub use session::{
    check_start, conclude_start, start_xr_session, stop_xr_session, StartOutcome, StartRefused,
};
pub use status::{xr_only, xr_render_only, XrShouldRender, XrStatus};
pub use views::{setup_manual_texture_views, XrEye, XrTextureView};
