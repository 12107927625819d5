use overlayed::tray::TrayItem;
use overlayed::tray::TrayMenu;
use overlayed::window::WindowLabel;

#[test]
fn menu_for_each_state() {
    let m = TrayMenu::for_state(false);
    let labels: Vec<&str> = m.entries.iter().map(|e| e.label).collect();
    assert_eq!(labels, vec!["Pin", "Show Settings", "Quit"]);
    let items: Vec<TrayItem> = m.entries.iter().map(|e| e.item).collect();
    assert_eq!(items, vec![TrayItem::TogglePin, TrayItem::ShowSettings, TrayItem::Quit]);
    let m = TrayMenu::for_state(true);
    let labels: Vec<&str> = m.entries.iter().map(|e| e.label).collect();
    assert_eq!(labels, vec!["Unpin", "Show Settings", "Quit"]);
}

#[test]
fn item_ids_round_trip() {
    for item in [TrayItem::TogglePin, TrayItem::ShowSettings, TrayItem::Quit] {
        assert_eq!(TrayItem::from_id(item.id()), Some(item));
    }
    assert_eq!(TrayItem::TogglePin.id(), "toggle_pin");
    assert_eq!(TrayItem::from_id("pin"), None);
    assert_eq!(TrayItem::from_id("quit "), None);
}

#[test]
fn item_labels() {
    assert_eq!(TrayItem::TogglePin.label(false), "Pin");
    assert_eq!(TrayItem::TogglePin.label(true), "Unpin");
    assert_eq!(TrayItem::Quit.label(true), "Quit");
    assert_eq!(TrayItem::ShowSettings.label(false), "Show Settings");
}

#[test]
fn window_labels_round_trip() {
    assert_eq!(WindowLabel::Main.name(), "main");
    assert_eq!(WindowLabel::Settings.name(), "settings");
    assert_eq!(WindowLabel::from_name("main"), Some(WindowLabel::Main));
    assert_eq!(WindowLabel::from_name("settings"), Some(WindowLabel::Settings));
    assert_eq!(WindowLabel::from_name("Main"), None);
    assert_eq!(WindowLabel::from_name(""), None);
}
