//! The user's settings and what the tray menu does with them.
use vstd::prelude::*;

verus! {

/// What the user chose in the tray menu. Both are off until chosen.
#[derive(Clone, Copy, Debug, PartialEq, Eq, Structural)]
pub struct Settings {
    /// Show desktop notifications about the battery.
    pub notifications_enabled: bool,
    /// Show the percentage as a number icon instead of a battery picture.
    pub use_number_icon: bool,
}

impl Default for Settings {
    fn default() -> (settings: Self)
        ensures
            !settings.notifications_enabled,
            !settings.use_number_icon,
    {
        Settings { notifications_enabled: false, use_number_icon: false }
    }
}

/// A menu entry the user picked.
#[derive(Clone, Copy, Debug, PartialEq, Eq, Structural)]
pub enum MenuAction {
    /// "Show notifications".
    ToggleNotifications,
    /// "Show battery percentage as number icon".
    ToggleNumberIcon,
    /// The test entry of debug builds.
    TriggerTestNotification,
    /// Any other entry (logs, update page, close): handled by the menu.
    Other,
}

/// What has to happen after a menu pick, besides the settings change.
#[derive(Clone, Copy, Debug, PartialEq, Eq, Structural)]
pub struct MenuEffect {
    /// Write the settings back to where they are kept.
    pub save_settings: bool,
    /// Confirm with a notification that notifications are now on.
    pub announce_notifications: bool,
    /// Redraw the tray icon at once.
    pub refresh_icon: bool,
    /// Show the test notification.
    pub test_notification: bool,
    /// Let the menu handle the entry itself.
    pub pass_to_menu: bool,
}

/// The effect of a menu pick on settings `before`.
pub open spec fn menu_effect(before: Settings, action: MenuAction) -> (Settings, MenuEffect) {
    let none = MenuEffect {
        save_settings: false,
        announce_notifications: false,
        refresh_icon: false,
        test_notification: false,
        pass_to_menu: false,
    };
    match action {
        MenuAction::ToggleNotifications => {
            let after = Settings { notifications_enabled: !before.notifications_enabled, ..before };
            (
                after,
                MenuEffect {
                    save_settings: true,
                    announce_notifications: after.notifications_enabled,
                    ..none
                },
            )
        },
        MenuAction::ToggleNumberIcon => (
            Settings { use_number_icon: !before.use_number_icon, ..before },
            MenuEffect { save_settings: true, refresh_icon: true, ..none },
        ),
        MenuAction::TriggerTestNotification => (before, MenuEffect { test_notification: true, ..none }),
        MenuAction::Other => (before, MenuEffect { pass_to_menu: true, ..none }),
    }
}

/// Applies a menu pick: the two checkbox entries flip their setting, which is
/// then saved; turning notifications on is confirmed with a notification, and
/// switching the icon style redraws the icon at once.
pub fn handle_menu_action(settings: &mut Settings, action: MenuAction) -> (effect: MenuEffect)
    ensures
        (*final(settings), effect) == menu_effect(*old(settings), action),
{
    let mut effect = MenuEffect {
        save_settings: false,
        announce_notifications: false,
        refresh_icon: false,
        test_notification: false,
        pass_to_menu: false,
    };
    match action {
        MenuAction::ToggleNotifications => {
            settings.notifications_enabled = !settings.notifications_enabled;
            effect.save_settings = true;
            effect.announce_notifications = settings.notifications_enabled;
        },
        MenuAction::ToggleNumberIcon => {
            settings.use_number_icon = !settings.use_number_icon;
            effect.save_settings = true;
            effect.refresh_icon = true;
        },
        MenuAction::TriggerTestNotification => {
            effect.test_notification = true;
        },
        MenuAction::Other => {
            effect.pass_to_menu = true;
        },
    }
    effect
}

/// Picking a checkbox entry twice gives the settings back.
pub proof fn lemma_toggle_twice(before: Settings, action: MenuAction)
    requires
        action == MenuAction::ToggleNotifications || action == MenuAction::ToggleNumberIcon,
    ensures
        menu_effect(menu_effect(before, action).0, action).0 == before,
{
}

/// Only the two checkbox entries change the settings, and each changes only
/// its own setting.
pub proof fn lemma_toggle_touches_one_setting(before: Settings, action: MenuAction)
    ensures
        action == MenuAction::ToggleNotifications ==> menu_effect(before, action).0.use_number_icon
            == before.use_number_icon,
        action == MenuAction::ToggleNumberIcon ==> menu_effect(
            before,
            action,
        ).0.notifications_enabled == before.notifications_enabled,
        action == MenuAction::TriggerTestNotification || action == MenuAction::Other
            ==> menu_effect(before, action).0 == before,
{
}

} // verus!
