use knob_ui::{button_state, ButtonState, Publish, UiState};

#[test]
fn default_state() {
    let s = UiState::default();
    assert_eq!(s.levels, [9, 9, 9]);
    assert_eq!(s.frame_rate, 100);
}

#[test]
fn button_precedence() {
    assert_eq!(button_state(true, true), ButtonState::ABPressed);
    assert_eq!(button_state(true, false), ButtonState::APressed);
    assert_eq!(button_state(false, true), ButtonState::BPressed);
    assert_eq!(button_state(false, false), ButtonState::Neither);
}

#[test]
fn a_only_sets_blue_and_publishes_levels() {
    let mut s = UiState::default();
    let r = s.react(3, true, false);
    assert!(matches!(r, Some(Publish::RgbLevels([9, 9, 3]))));
    assert_eq!(s.levels, [9, 9, 3]);
    assert_eq!(s.frame_rate, 100);
}

#[test]
fn a_only_set_level_reports_a() {
    let mut s = UiState::default();
    assert_eq!(s.set_level(ButtonState::APressed, 3), Some(ButtonState::APressed));
    assert_eq!(s.levels, [9, 9, 3]);
    assert_eq!(s.frame_rate, 100);
}

#[test]
fn b_only_sets_green() {
    let mut s = UiState::default();
    assert_eq!(s.set_level(ButtonState::BPressed, 4), Some(ButtonState::BPressed));
    assert_eq!(s.levels, [9, 4, 9]);
    assert_eq!(s.frame_rate, 100);
}

#[test]
fn both_set_red_only() {
    let mut s = UiState::default();
    assert_eq!(s.set_level(ButtonState::ABPressed, 0), Some(ButtonState::ABPressed));
    assert_eq!(s.levels, [0, 9, 9]);
    assert_eq!(s.frame_rate, 100);
    let r = s.react(5, true, true);
    assert!(matches!(r, Some(Publish::RgbLevels([5, 9, 9]))));
}

#[test]
fn neither_sets_frame_rate() {
    let mut s = UiState::default();
    assert_eq!(s.set_level(ButtonState::Neither, 2), Some(ButtonState::Neither));
    assert_eq!(s.frame_rate, 30);
    assert_eq!(s.levels, [9, 9, 9]);
    let r = s.react(0, false, false);
    assert!(matches!(r, Some(Publish::FrameRate(10))));
    assert_eq!(s.frame_rate, 10);
}

#[test]
fn same_frame_rate_twice_is_no_change() {
    let mut s = UiState::default();
    assert!(s.react(9, false, false).is_none());
    assert!(s.react(9, false, false).is_none());
    assert_eq!(s.frame_rate, 100);
    assert_eq!(s.levels, [9, 9, 9]);
}

#[test]
fn second_identical_set_level_is_no_change() {
    let mut s = UiState::default();
    assert_eq!(s.set_level(ButtonState::BPressed, 6), Some(ButtonState::BPressed));
    assert_eq!(s.set_level(ButtonState::BPressed, 6), None);
    assert_eq!(s.levels, [9, 6, 9]);
    assert_eq!(s.set_level(ButtonState::Neither, 4), Some(ButtonState::Neither));
    assert_eq!(s.set_level(ButtonState::Neither, 4), None);
    assert_eq!(s.frame_rate, 50);
}

#[test]
fn show_lists_state() {
    let s = UiState::default();
    assert_eq!(s.show(), "\nred: 9\ngreen: 9\nblue: 9\nframe rate: 100\n");
    let mut t = UiState::default();
    t.set_level(ButtonState::APressed, 0);
    t.set_level(ButtonState::Neither, 1);
    assert_eq!(t.show(), "\nred: 9\ngreen: 9\nblue: 0\nframe rate: 20\n");
}
