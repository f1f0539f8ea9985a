use pip_clip::controls::{
    autostart_action, hud_toggle, menu_command, paste_keystrokes, pause_item_title,
    safe_paste_accelerator, safe_paste_shortcut, same_str, tray, tray_command, tray_menu_entries,
    PASTE_DELAY_MS,
    AutostartAction, HudAction, KeyDirection, KeyStroke, MenuCommand, MenuEntry, PasteKey,
};

#[test]
fn menu_ids_dispatch() {
    assert_eq!(menu_command("toggle_hud"), MenuCommand::ToggleHud);
    assert_eq!(menu_command("pause"), MenuCommand::TogglePause);
    assert_eq!(menu_command("autostart"), MenuCommand::ToggleAutostart);
    assert_eq!(menu_command("quit"), MenuCommand::Quit);
    assert_eq!(menu_command("Quit"), MenuCommand::Ignore);
    assert_eq!(menu_command(""), MenuCommand::Ignore);
}

#[test]
fn string_equality() {
    assert!(same_str("abc", "abc"));
    assert!(!same_str("abc", "abd"));
    assert!(!same_str("ab", "abc"));
    assert!(same_str("", ""));
}

#[test]
fn tray_menus() {
    let entries = tray_menu_entries();
    assert_eq!(entries.len(), 5);
    let ids: Vec<&str> = entries
        .iter()
        .filter_map(|e| match e {
            MenuEntry::Item { id, .. } => Some(*id),
            MenuEntry::Separator => None,
        })
        .collect();
    assert_eq!(ids, vec!["toggle_hud", "pause", "autostart", "quit"]);
    for id in ids {
        assert_ne!(menu_command(id), MenuCommand::Ignore);
    }
    assert!(matches!(entries[3], MenuEntry::Separator));
    assert!(matches!(entries[4], MenuEntry::Item { title: "Quit pip-clip", .. }));
    let small = tray();
    assert_eq!(small.len(), 3);
    assert!(matches!(small[2], MenuEntry::Item { id: "quit", title: "Quit" }));
}

#[test]
fn pause_title_offers_the_other_state() {
    assert_eq!(pause_item_title(true), "Resume Monitoring");
    assert_eq!(pause_item_title(false), "Pause Monitoring");
}

#[test]
fn hud_toggling() {
    assert_eq!(hud_toggle(Some(true)), HudAction::Hide);
    assert_eq!(hud_toggle(None), HudAction::Hide);
    assert_eq!(hud_toggle(Some(false)), HudAction::ShowAndFocus);
}

#[test]
fn autostart_toggling() {
    assert_eq!(autostart_action(Ok(true)), AutostartAction::Disable);
    assert_eq!(autostart_action(Ok(false)), AutostartAction::Enable);
    assert_eq!(
        autostart_action(Err("no launcher".to_string())),
        AutostartAction::Report("no launcher".to_string())
    );
}

#[test]
fn paste_chord_per_platform() {
    let mac = paste_keystrokes(true);
    assert_eq!(
        mac,
        vec![
            KeyStroke { key: PasteKey::Meta, direction: KeyDirection::Press },
            KeyStroke { key: PasteKey::V, direction: KeyDirection::Click },
            KeyStroke { key: PasteKey::Meta, direction: KeyDirection::Release },
        ]
    );
    let other = paste_keystrokes(false);
    assert_eq!(other[0].key, PasteKey::Control);
    assert_eq!(other[2].key, PasteKey::Control);
}

#[test]
fn safe_paste_shortcuts() {
    assert_eq!(safe_paste_accelerator(true), "Command+Shift+V");
    assert_eq!(safe_paste_accelerator(false), "Ctrl+Shift+V");
    let s = safe_paste_shortcut(false);
    assert_eq!(s.modifier, PasteKey::Control);
    assert!(s.shift);
    assert_eq!(s.key, PasteKey::V);
    assert_eq!(safe_paste_shortcut(true).modifier, PasteKey::Meta);
}

#[test]
fn paste_waits_for_focus() {
    assert_eq!(PASTE_DELAY_MS, 150);
}

#[test]
fn smaller_tray_ignores_autostart() {
    assert_eq!(tray_command("toggle_hud"), MenuCommand::ToggleHud);
    assert_eq!(tray_command("pause"), MenuCommand::TogglePause);
    assert_eq!(tray_command("quit"), MenuCommand::Quit);
    assert_eq!(tray_command("autostart"), MenuCommand::Ignore);
    assert_eq!(tray_command("other"), MenuCommand::Ignore);
}
