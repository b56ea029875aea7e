use xr_init::{xr_only, xr_render_only, XrShouldRender, XrStatus};

#[test]
fn xr_only_holds_while_enabled() {
    let condition = xr_only();
    assert!(condition(XrStatus::Enabled));
}

#[test]
fn xr_only_fails_in_every_other_status() {
    let condition = xr_only();
    assert!(!condition(XrStatus::NoInstance));
    assert!(!condition(XrStatus::Enabling));
    assert!(!condition(XrStatus::Disabled));
    assert!(!condition(XrStatus::Disabling));
}

#[test]
fn xr_only_can_be_asked_again() {
    let condition = xr_only();
    assert!(!condition(XrStatus::Disabled));
    assert!(condition(XrStatus::Enabled));
    assert!(!condition(XrStatus::Disabled));
}

#[test]
fn xr_render_only_follows_the_flag() {
    let condition = xr_render_only();
    assert!(condition(XrShouldRender(true)));
    assert!(!condition(XrShouldRender(false)));
}

#[test]
fn nothing_is_rendered_by_default() {
    assert_eq!(XrShouldRender::default(), XrShouldRender(false));
    assert!(!xr_render_only()(XrShouldRender::default()));
}

#[test]
fn the_flag_is_open_to_the_host() {
    let mut flag = XrShouldRender::default();
    flag.0 = true;
    assert!(xr_render_only()(flag));
}

#[test]
fn statuses_are_told_apart() {
    let all = [
        XrStatus::NoInstance,
        XrStatus::Enabled,
        XrStatus::Enabling,
        XrStatus::Disabled,
        XrStatus::Disabling,
    ];
    for (i, a) in all.iter().enumerate() {
        for (j, b) in all.iter().enumerate() {
            assert_eq!(a == b, i == j);
        }
    }
}
