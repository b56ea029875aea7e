use xr_init::{cleanup_xr, setup_xr, XrSchedule, XrStatus};

#[test]
fn setup_runs_its_four_schedules_in_order() {
    let mut status = XrStatus::Enabling;
    let schedules = setup_xr(&mut status);
    assert_eq!(
        schedules,
        vec![
            XrSchedule::XrPreSetup,
            XrSchedule::XrSetup,
            XrSchedule::XrPrePostSetup,
            XrSchedule::XrPostSetup,
        ]
    );
    assert_eq!(status, XrStatus::Enabled);
}

#[test]
fn cleanup_runs_its_three_schedules_in_order() {
    let mut status = XrStatus::Disabling;
    let schedules = cleanup_xr(&mut status);
    assert_eq!(
        schedules,
        vec![XrSchedule::XrPreCleanup, XrSchedule::XrCleanup, XrSchedule::XrPostCleanup]
    );
    assert_eq!(status, XrStatus::Disabled);
}

#[test]
fn setup_enables_from_every_status() {
    let all = [
        XrStatus::NoInstance,
        XrStatus::Enabled,
        XrStatus::Enabling,
        XrStatus::Disabled,
        XrStatus::Disabling,
    ];
    for before in all {
        let mut status = before;
        assert_eq!(setup_xr(&mut status).len(), 4);
        assert_eq!(status, XrStatus::Enabled);
    }
}

#[test]
fn cleanup_disables_from_every_status() {
    let all = [
        XrStatus::NoInstance,
        XrStatus::Enabled,
        XrStatus::Enabling,
        XrStatus::Disabled,
        XrStatus::Disabling,
    ];
    for before in all {
        let mut status = before;
        assert_eq!(cleanup_xr(&mut status).len(), 3);
        assert_eq!(status, XrStatus::Disabled);
    }
}

#[test]
fn setup_and_cleanup_share_no_schedule() {
    let mut status = XrStatus::Enabling;
    let setup = setup_xr(&mut status);
    let cleanup = cleanup_xr(&mut status);
    for schedule in &setup {
        assert!(!cleanup.contains(schedule));
    }
}
