use mad_rust::mmo7::buttons::{ButtonConfigs, BUTTON_COUNT};
use mad_rust::mmo7::mapper::{
    profile_is_tokenizable, Action, EmulatedKey, Mapper, Mode, MouseButton,
};

fn profile_with_button_1(text: &str) -> ButtonConfigs {
    let mut configs = ButtonConfigs::default();
    configs.button_1 = [vec![text.to_string()], vec![]];
    configs
}

#[test]
fn default_profile_has_every_button() {
    let configs = ButtonConfigs::default();
    assert_eq!(configs.to_config().len(), BUTTON_COUNT);
    assert!(profile_is_tokenizable(&configs));
}

#[test]
fn plain_report_moves_and_clicks() {
    let mut mapper = Mapper::new(ButtonConfigs::default(), 0);
    // left button down, moved by (3, -2), wheel up
    let actions = mapper.emulate(&[1, 0, 0, 3, 0, 254, 0, 255]);
    assert_eq!(
        actions,
        vec![
            Action::MouseDown(MouseButton::Left),
            Action::MouseMoveRelative(3, -2),
            Action::MouseScrollY(1),
        ]
    );
    let actions = mapper.emulate(&[0, 0, 0, 0, 0, 0, 0, 1]);
    assert_eq!(
        actions,
        vec![
            Action::MouseUp(MouseButton::Left),
            Action::MouseMoveRelative(0, 0),
            Action::MouseScrollY(-1),
        ]
    );
}

#[test]
fn macro_button_press_hold_release() {
    let configs = profile_with_button_1("a{+SHIFT}{REPEAT}b{WAIT_UP}{-SHIFT}");
    assert!(profile_is_tokenizable(&configs));
    let mut mapper = Mapper::new(configs, 7);
    let pressed = mapper.emulate(&[32, 0, 0, 0, 0, 0, 0, 0]);
    assert_eq!(
        pressed,
        vec![
            Action::MouseMoveRelative(0, 0),
            Action::KeyClicks("a".to_string()),
            Action::KeyDown(EmulatedKey::Shift),
            Action::KeyClicks("b".to_string()),
        ]
    );
    let held = mapper.emulate(&[32, 0, 0, 0, 0, 0, 0, 0]);
    assert_eq!(held, vec![Action::MouseMoveRelative(0, 0), Action::KeyClicks("b".to_string())]);
    let released = mapper.emulate(&[0, 0, 0, 0, 0, 0, 0, 0]);
    assert_eq!(released, vec![Action::MouseMoveRelative(0, 0), Action::KeyUp(EmulatedKey::Shift)]);
    assert_eq!(mapper.last_mouses_config_state_id, 7);
}

#[test]
fn mode_byte_selects_the_mode() {
    let mut mapper = Mapper::new(ButtonConfigs::default(), 0);
    mapper.emulate(&[0, 0, 5, 0, 0, 0, 0, 0]);
    assert_eq!(mapper.mode, Mode::Shift(1));
    mapper.emulate(&[0, 0, 2, 0, 0, 0, 0, 0]);
    assert_eq!(mapper.mode, Mode::Normal(2));
    mapper.emulate(&[0, 0, 3, 0, 0, 0, 0, 0]);
    assert_eq!(mapper.mode, Mode::Normal(0));
}

#[test]
fn macro_only_in_its_mode() {
    let configs = profile_with_button_1("x{+ALT}");
    let mut mapper = Mapper::new(configs, 0);
    // shift mode 0: button 1 has no macro there
    let actions = mapper.emulate(&[32, 0, 4, 0, 0, 0, 0, 0]);
    assert_eq!(actions, vec![Action::MouseMoveRelative(0, 0)]);
}

#[test]
fn scroll_button_with_macro_no_longer_clicks_middle() {
    let mut configs = ButtonConfigs::default();
    configs.scroll_button = [vec!["{SCROLL_UP}".to_string()], vec![]];
    let mut mapper = Mapper::new(configs, 0);
    // middle bit (4) of byte 0 and scroll button bit (8) of byte 2
    let actions = mapper.emulate(&[4, 0, 8, 0, 0, 0, 0, 0]);
    assert_eq!(actions, vec![Action::MouseMoveRelative(0, 0), Action::MouseScrollY(1)]);
    let mut plain = Mapper::new(ButtonConfigs::default(), 0);
    let actions = plain.emulate(&[4, 0, 0, 0, 0, 0, 0, 0]);
    assert_eq!(
        actions,
        vec![Action::MouseDown(MouseButton::Middle), Action::MouseMoveRelative(0, 0)]
    );
}

#[test]
fn config_change_is_seen_once() {
    let mut mapper = Mapper::new(ButtonConfigs::default(), 3);
    assert!(!mapper.config_has_change(3));
    assert!(mapper.config_has_change(4));
    assert!(!mapper.config_has_change(4));
}

#[test]
fn unclosed_macro_is_not_tokenizable() {
    let configs = profile_with_button_1("{+SHIFT");
    assert!(!profile_is_tokenizable(&configs));
}

#[test]
fn replayed_report_keeps_buttons_without_motion() {
    let configs = profile_with_button_1("{REPEAT}r{WAIT_UP}");
    let mut mapper = Mapper::new(configs, 0);
    let report = [33u8, 0, 0, 5, 0, 9, 0, 0];
    let first = mapper.emulate(&report);
    assert_eq!(
        first,
        vec![
            Action::MouseDown(MouseButton::Left),
            Action::MouseMoveRelative(5, 9),
            Action::KeyClicks("r".to_string()),
        ]
    );
    let replay = mad_rust::mmo7::driver::reset_motion(report);
    let again = mapper.emulate(&replay);
    assert_eq!(again, vec![Action::MouseMoveRelative(0, 0), Action::KeyClicks("r".to_string())]);
}

#[test]
fn profile_list_round_trip() {
    let mut configs = ButtonConfigs::default();
    configs.hat_bottom = [vec!["down".to_string()], vec!["sdown".to_string()]];
    configs.button_3 = [vec![], vec!["b3".to_string()]];
    let mut list = configs.to_config();
    let back = ButtonConfigs::from_config(&list);
    assert_eq!(back.hat_bottom, configs.hat_bottom);
    assert_eq!(back.button_3, configs.button_3);
    assert_eq!(back.to_config(), list);
    list.push([vec!["ignored".to_string()], vec![]]);
    assert_eq!(ButtonConfigs::from_config(&list).to_config().len(), BUTTON_COUNT);
}

