use voiceinput::tray::{device_menu_id, device_menu_label, menu_action, tray_color, MenuAction, TrayState};

#[test]
fn tray_colours() {
    assert_eq!(tray_color(TrayState::Idle), (128, 128, 128));
    assert_eq!(tray_color(TrayState::Recording), (239, 68, 68));
}

#[test]
fn device_entries() {
    assert_eq!(device_menu_id("USB Mic"), "device:USB Mic");
    assert_eq!(device_menu_label("USB Mic", true), "✓ USB Mic (默认)");
    assert_eq!(device_menu_label("USB Mic", false), "USB Mic");
}

#[test]
fn menu_clicks() {
    assert!(matches!(menu_action("quit"), MenuAction::Quit));
    match menu_action(&device_menu_id("麦克风 (2)")) {
        MenuAction::SelectDevice(name) => assert_eq!(name, "麦克风 (2)"),
        _ => panic!("expected a device"),
    }
    assert!(matches!(menu_action("auto_start"), MenuAction::Other));
    assert!(matches!(menu_action("device"), MenuAction::Other));
}
