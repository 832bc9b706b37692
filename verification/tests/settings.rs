use headset_battery_indicator::settings::{handle_menu_action, MenuAction, Settings};

#[test]
fn defaults_are_off() {
    let s = Settings::default();
    assert!(!s.notifications_enabled);
    assert!(!s.use_number_icon);
}

#[test]
fn toggling_notifications() {
    let mut s = Settings::default();
    let effect = handle_menu_action(&mut s, MenuAction::ToggleNotifications);
    assert!(s.notifications_enabled);
    assert!(effect.save_settings);
    assert!(effect.announce_notifications);
    assert!(!effect.refresh_icon);
    let effect = handle_menu_action(&mut s, MenuAction::ToggleNotifications);
    assert!(!s.notifications_enabled);
    assert!(effect.save_settings);
    assert!(!effect.announce_notifications);
    assert_eq!(s, Settings::default());
}

#[test]
fn toggling_number_icon() {
    let mut s = Settings { notifications_enabled: true, use_number_icon: false };
    let effect = handle_menu_action(&mut s, MenuAction::ToggleNumberIcon);
    assert_eq!(s, Settings { notifications_enabled: true, use_number_icon: true });
    assert!(effect.save_settings && effect.refresh_icon);
    assert!(!effect.announce_notifications && !effect.pass_to_menu);
}

#[test]
fn other_entries() {
    let mut s = Settings { notifications_enabled: true, use_number_icon: true };
    let effect = handle_menu_action(&mut s, MenuAction::Other);
    assert!(effect.pass_to_menu && !effect.save_settings);
    let effect = handle_menu_action(&mut s, MenuAction::TriggerTestNotification);
    assert!(effect.test_notification && !effect.pass_to_menu);
    assert_eq!(s, Settings { notifications_enabled: true, use_number_icon: true });
}
