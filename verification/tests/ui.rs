use mad_rust::connection::command::{DeviceConfig, DeviceList, DriverConfigurationDescriptor};
use mad_rust::ui::device_list::{device_icon, reconcile_devices};
use mad_rust::mmo7::buttons::ButtonConfigs;
use mad_rust::ui::app::AppEvent as FirstAppEvent;
use mad_rust::ui::app::window_resize::{resize_cursor, resize_edges, ResizeCursor, ResizeEdges};
use mad_rust::ui::device_configurator::{
    accepts_char, mode_list, next_mode, parameter_text, previous_mode, set_parameter_text,
    Configurator, ConfiguratorEvent, EditKey, ModeEntry,
};
use mad_rust::ui::text_input::{without_line_breaks, TextInput};
use mad_rust::ui::{selection_lost, window_action, AppEvent, AppEventKind, WindowAction};
use mad_rust::window::clamp_window_size;

fn s(text: &str) -> String {
    text.to_string()
}

#[test]
fn app_event_numbers_round_trip() {
    for n in 0..19u64 {
        let e = AppEvent::from(n).unwrap();
        assert_eq!(e.into(), n);
    }
    assert_eq!(AppEvent::from(19), None);
    assert_eq!(AppEvent::from(0), Some(AppEvent::Scroll));
    assert_eq!(AppEvent::Parameter.into(), 18);
}

#[test]
fn first_window_events_round_trip() {
    for n in 0..12u64 {
        assert_eq!(FirstAppEvent::from(n).into(), n);
    }
    assert_eq!(FirstAppEvent::from(11), FirstAppEvent::TitleBar);
}

#[test]
fn window_actions() {
    assert_eq!(window_action(AppEvent::TitleBar, AppEventKind::MousePressed), WindowAction::DragWindow);
    assert_eq!(
        window_action(AppEvent::WindowResizeLeft, AppEventKind::MousePressed),
        WindowAction::StartResize(AppEvent::WindowResizeLeft)
    );
    assert_eq!(window_action(AppEvent::CloseButton, AppEventKind::MouseReleased), WindowAction::Exit);
    assert_eq!(window_action(AppEvent::CloseButton, AppEventKind::MousePressed), WindowAction::Nothing);
    assert_eq!(
        window_action(AppEvent::MaximizeButton, AppEventKind::MouseReleased),
        WindowAction::ToggleMaximized
    );
    assert_eq!(window_action(AppEvent::MinimizeButton, AppEventKind::MouseReleased), WindowAction::Minimize);
    assert_eq!(
        window_action(AppEvent::ReturnButton, AppEventKind::MouseReleased),
        WindowAction::ReturnToDeviceList
    );
    assert_eq!(window_action(AppEvent::TitleBar, AppEventKind::Other), WindowAction::Nothing);
}

#[test]
fn selection_is_lost_with_driver_or_mouse() {
    let list = DeviceList::new(vec![s("a"), s("b")]);
    assert!(!selection_lost(Some(&list), &s("b")));
    assert!(selection_lost(Some(&list), &s("c")));
    assert!(selection_lost(None, &s("a")));
}

#[test]
fn resize_geometry() {
    assert_eq!(
        resize_edges(AppEvent::WindowResizeTopLeft),
        Some(ResizeEdges { left: true, top: true, right: false, bottom: false })
    );
    assert_eq!(
        resize_edges(AppEvent::WindowResizeBottom),
        Some(ResizeEdges { left: false, top: false, right: false, bottom: true })
    );
    assert_eq!(resize_edges(AppEvent::CloseButton), None);
    assert_eq!(resize_cursor(AppEvent::WindowResizeTopRight), Some(ResizeCursor::NeResize));
    assert_eq!(resize_cursor(AppEvent::TitleBar), None);
}

#[test]
fn window_size_is_clamped() {
    assert_eq!(clamp_window_size((100, 100), Some((533, 300)), None), (533, 300));
    assert_eq!(clamp_window_size((1080, 720), Some((533, 300)), None), (1080, 720));
    assert_eq!(clamp_window_size((2000, 50), Some((533, 300)), Some((1000, 1000))), (1000, 300));
    assert_eq!(clamp_window_size((7, 9), None, None), (7, 9));
}

#[test]
fn text_input_editing() {
    let mut t = TextInput::new(s("ab\ncd\r"));
    assert_eq!(t.text(), "abcd");
    t.set_focus(true);
    t.cursor_right();
    t.cursor_right();
    t.add_char('X');
    assert_eq!(t.text(), "abXcd");
    assert_eq!(t.split_at_cursor(), (s("abX"), s("cd")));
    t.back_char();
    assert_eq!(t.text(), "abcd");
    t.delete_char();
    assert_eq!(t.text(), "abd");
    t.add_str(&s("éé"));
    assert_eq!(t.split_at_cursor(), (s("abéé"), s("d")));
    t.cursor_left();
    assert_eq!(t.split_at_cursor(), (s("abé"), s("éd")));
    t.change_cursor_position(100);
    assert_eq!(t.split_at_cursor(), (s("abééd"), s("")));
    t.delete_char();
    assert_eq!(t.text(), "abééd");
}

#[test]
fn text_input_edges() {
    let mut t = TextInput::new(s(""));
    t.back_char();
    t.cursor_left();
    t.cursor_right();
    t.delete_char();
    assert_eq!(t.text(), "");
    assert_eq!(without_line_breaks(&s("a\r\nb")), "ab");
}

#[test]
fn modes_and_characters() {
    let modes = mode_list(3, 2);
    assert_eq!(modes.len(), 5);
    assert_eq!(modes[0], ModeEntry { is_shift_mode: false, mode: 0 });
    assert_eq!(modes[3], ModeEntry { is_shift_mode: true, mode: 0 });
    assert_eq!(modes[4], ModeEntry { is_shift_mode: true, mode: 1 });
    assert_eq!(previous_mode(0, 5), 4);
    assert_eq!(previous_mode(3, 5), 2);
    assert_eq!(next_mode(4, 5), 0);
    assert_eq!(next_mode(1, 5), 2);
    assert!(accepts_char('a'));
    for c in ['\n', '\r', '\u{3}', '\u{8}', '\u{16}', '\u{18}', '\u{1b}', '\u{7f}'] {
        assert!(!accepts_char(c));
    }
}

fn three_mode_profile() -> DeviceConfig {
    let mut configs = ButtonConfigs::default();
    configs.scroll_button = [vec![s("n0"), s("n1"), s("n2")], vec![s("s0"), s("s1"), s("s2")]];
    configs.left_actionlock = [vec![s("a"), s("b"), s("c")], vec![s("d"), s("e"), s("f")]];
    let mut config = DeviceConfig::new(s("M"), configs.to_config());
    config.config.truncate(2);
    config
}

#[test]
fn parameters_read_and_written() {
    let mut config = three_mode_profile();
    let shift1 = ModeEntry { is_shift_mode: true, mode: 1 };
    assert_eq!(parameter_text(&config, 0, shift1), "s1");
    set_parameter_text(&mut config, 0, shift1, s("new"));
    assert_eq!(config.config[0][1], vec![s("s0"), s("new"), s("s2")]);
    assert_eq!(config.config[0][0], vec![s("n0"), s("n1"), s("n2")]);
}

#[test]
fn configurator_edits_the_selected_profile() {
    let mut conf = Configurator::new();
    let mut selected = Some(three_mode_profile());
    assert!(conf.load(3, 3, 2, selected.as_ref().unwrap()));
    assert!(!conf.load(3, 3, 2, selected.as_ref().unwrap()));
    assert_eq!(conf.parameters[1].text(), "a");
    // focus the second field
    let e = conf.calculate_event(
        ConfiguratorEvent::MouseReleased(Some((AppEvent::Parameter, 1))),
        &mut selected,
    );
    assert!(e.redraw);
    assert_eq!(conf.focused, Some(1));
    // type at the start of the field
    let e = conf.calculate_event(ConfiguratorEvent::Char('Z'), &mut selected);
    assert!(e.redraw);
    assert_eq!(conf.parameters[1].text(), "Za");
    assert_eq!(selected.as_ref().unwrap().config[1][0][0], "Za");
    // a refused character changes nothing
    let e = conf.calculate_event(ConfiguratorEvent::Char('\r'), &mut selected);
    assert!(!e.redraw);
    // paste without line breaks
    conf.calculate_event(ConfiguratorEvent::KeyPressed(EditKey::Paste(s("x\ny"))), &mut selected);
    assert_eq!(selected.as_ref().unwrap().config[1][0][0], "Zxya");
    // copy
    let e = conf.calculate_event(ConfiguratorEvent::KeyPressed(EditKey::Copy), &mut selected);
    assert_eq!(e.clipboard, Some(s("Zxya")));
    // the next mode reloads the fields
    let e = conf.calculate_event(
        ConfiguratorEvent::MouseReleased(Some((AppEvent::ModeSelectorNext, 0))),
        &mut selected,
    );
    assert!(e.redraw);
    assert_eq!(conf.current_mode, 1);
    assert_eq!(conf.parameters[1].text(), "b");
    // going back before the first mode reaches the last one, a shift mode
    conf.calculate_event(
        ConfiguratorEvent::MouseReleased(Some((AppEvent::ModeSelectorPrevious, 0))),
        &mut selected,
    );
    conf.calculate_event(
        ConfiguratorEvent::MouseReleased(Some((AppEvent::ModeSelectorPrevious, 0))),
        &mut selected,
    );
    assert_eq!(conf.current_mode, 5);
    assert_eq!(conf.parameters[0].text(), "s2");
    // a press elsewhere takes the focus
    let e = conf.calculate_event(ConfiguratorEvent::MousePressed, &mut selected);
    assert!(e.redraw);
    assert_eq!(conf.focused, None);
    let e = conf.calculate_event(
        ConfiguratorEvent::MouseReleased(Some((AppEvent::ApplyConfig, 0))),
        &mut selected,
    );
    assert!(e.apply_config);
    let mut none: Option<DeviceConfig> = None;
    let e = conf.calculate_event(
        ConfiguratorEvent::MouseReleased(Some((AppEvent::ApplyConfig, 0))),
        &mut none,
    );
    assert!(!e.apply_config);
}

#[test]
fn cursor_moves_to_the_boundary_at_or_after_a_byte() {
    let mut t = TextInput::new(s("éé"));
    t.change_cursor_position(2);
    assert_eq!(t.split_at_cursor(), (s("é"), s("é")));
    t.change_cursor_position(1);
    assert_eq!(t.split_at_cursor(), (s("é"), s("é")));
    t.change_cursor_position(0);
    assert_eq!(t.split_at_cursor(), (s(""), s("éé")));
    t.change_cursor_position(3);
    assert_eq!(t.split_at_cursor(), (s("éé"), s("")));
    let mut u = TextInput::new(s("a€b"));
    u.change_cursor_position(2);
    assert_eq!(u.split_at_cursor(), (s("a€"), s("b")));
}

#[test]
fn labels_are_cut_on_bytes() {
    let cut = mad_rust::ui::device_list::label(&s("MMO7 Mouse Something Long"), 16);
    assert_eq!(cut, "MMO7 Mouse Somet");
    assert_eq!(mad_rust::ui::device_list::label(&s("short"), 21), "short");
    assert_eq!(mad_rust::ui::device_list::label(&s("aé"), 2), "");
    assert_eq!(mad_rust::ui::device_list::label(&s("aé"), 3), "aé");
}

fn entry(driver: u64, serial: &str) -> (u64, String) {
    (driver, serial.to_string())
}

#[test]
fn device_list_matches_drivers() {
    let shown = vec![entry(0, "a"), entry(1, "b"), entry(0, "a"), entry(0, "c")];
    let listed = vec![entry(0, "a"), entry(2, "d"), entry(0, "c"), entry(2, "d"), entry(1, "x")];
    let (keep, added) = reconcile_devices(&shown, &listed);
    assert_eq!(keep, vec![true, false, false, true]);
    assert_eq!(added, vec![entry(2, "d"), entry(1, "x")]);
    let (keep, added) = reconcile_devices(&vec![], &vec![]);
    assert!(keep.is_empty() && added.is_empty());
}

#[test]
fn driver_icon_is_decoded() {
    let mut png = Vec::new();
    image::DynamicImage::ImageRgba8(image::RgbaImage::from_pixel(3, 2, image::Rgba([1, 2, 3, 4])))
        .write_to(&mut std::io::Cursor::new(&mut png), image::ImageOutputFormat::Png)
        .unwrap();
    let descriptor = DriverConfigurationDescriptor::new(0, 0, s("M"), png, 3, 3, vec![]);
    let (width, height, pixels) = device_icon(&descriptor).expect("an image");
    assert_eq!((width, height), (3, 2));
    assert_eq!(pixels.len(), 24);
    assert_eq!(&pixels[0..4], &[1, 2, 3, 4]);
    let garbage = DriverConfigurationDescriptor::new(0, 0, s("M"), vec![1, 2, 3], 3, 3, vec![]);
    assert!(device_icon(&garbage).is_none());
}
