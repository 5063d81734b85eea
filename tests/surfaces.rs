use capturist::autostart::{autostart_change, preferred_autostart, AutostartChange};
use capturist::cli::{Argument, MINIMIZE_ARG};
use capturist::deeplink::{route_deep_link, should_register_deep_links, CallbackUrl, DeepLinkHost, DeepLinkRoute};
use capturist::events::AuthEvent;
use capturist::metadata::{APP_ID, APP_TITLE};
use capturist::surface::{should_show_on_relaunch, windows_to_retire, SurfaceState, WindowLabel};
use capturist::text::{has_prefix, same_text};
use capturist::tray::{auth_dependent_items, tray_menu_layout, MenuEntry, MenuId};

fn texts(items: &[&str]) -> Vec<String> {
    items.iter().map(|s| s.to_string()).collect()
}

#[test]
fn surfaces_follow_login_and_repeat_is_a_no_op() {
    let start = SurfaceState::initial(false);
    assert_eq!(start, SurfaceState::Unauthenticated);
    assert_eq!(start.window(), WindowLabel::Authentication);
    let (next, show) = start.on_auth_event(AuthEvent { authenticated: true });
    assert_eq!(next, SurfaceState::Authenticated);
    assert_eq!(show, WindowLabel::QuickAdd);
    let (again, show_again) = next.on_auth_event(AuthEvent { authenticated: true });
    assert_eq!(again, SurfaceState::Authenticated);
    assert_eq!(show_again, WindowLabel::QuickAdd);
    let (out, login) = again.on_auth_event(AuthEvent { authenticated: false });
    assert_eq!(out, SurfaceState::Unauthenticated);
    assert_eq!(login, WindowLabel::Authentication);
}

#[test]
fn initial_state_from_stored_token() {
    assert_eq!(SurfaceState::initial(true), SurfaceState::Authenticated);
    assert_eq!(SurfaceState::initial(true).window(), WindowLabel::QuickAdd);
}

#[test]
fn other_windows_are_retired() {
    let open = texts(&["authentication", "quick-add", "settings"]);
    assert_eq!(windows_to_retire(&open, WindowLabel::QuickAdd), texts(&["authentication", "settings"]));
    assert_eq!(windows_to_retire(&open, WindowLabel::Authentication), texts(&["quick-add", "settings"]));
    assert!(windows_to_retire(&Vec::new(), WindowLabel::QuickAdd).is_empty());
}

#[test]
fn window_labels() {
    assert_eq!(WindowLabel::QuickAdd.name(), "quick-add");
    assert_eq!(WindowLabel::Authentication.name(), "authentication");
    assert_eq!(WindowLabel::from_name("quick-add"), Some(WindowLabel::QuickAdd));
    assert_eq!(WindowLabel::from_name("authentication"), Some(WindowLabel::Authentication));
    assert_eq!(WindowLabel::from_name("other"), None);
}

#[test]
fn relaunch_shows_window_unless_oauth_or_minimized() {
    assert!(should_show_on_relaunch(&texts(&["capturist"])));
    assert!(should_show_on_relaunch(&Vec::new()));
    assert!(!should_show_on_relaunch(&texts(&["capturist", "capturist://oauth?code=a&state=b"])));
    assert!(!should_show_on_relaunch(&texts(&["capturist", "--minimize"])));
    assert!(should_show_on_relaunch(&texts(&["capturist", "capturist://other", "--minimized"])));
}

#[test]
fn cli_arguments() {
    assert_eq!(MINIMIZE_ARG, "--minimize");
    assert_eq!(Argument::Minimize.name(), "minimize");
    assert_eq!(Argument::QuickAdd.name(), "quick-add");
    assert_eq!(Argument::from_name("minimize"), Some(Argument::Minimize));
    assert_eq!(Argument::from_name("quick-add"), Some(Argument::QuickAdd));
    assert_eq!(Argument::from_name("verbose"), None);
    assert_eq!(APP_ID, "capturist");
    assert_eq!(APP_TITLE, "Capturist");
}

#[test]
fn deep_link_routing() {
    let oauth = CallbackUrl { host: Some("oauth".to_string()), query: Some("code=a".to_string()) };
    let other = CallbackUrl { host: Some("settings".to_string()), query: None };
    let hostless = CallbackUrl { host: None, query: None };
    assert_eq!(route_deep_link(&vec![oauth.clone(), other.clone()]), DeepLinkRoute::Authenticate);
    assert_eq!(route_deep_link(&vec![other, oauth]), DeepLinkRoute::UnknownHost);
    assert_eq!(route_deep_link(&vec![hostless]), DeepLinkRoute::UnknownHost);
    assert_eq!(route_deep_link(&Vec::new()), DeepLinkRoute::MissingUrl);
    assert_eq!(DeepLinkHost::Oauth.name(), "oauth");
    assert_eq!(DeepLinkHost::from_name("oauth"), Some(DeepLinkHost::Oauth));
    assert_eq!(DeepLinkHost::from_name("OAUTH"), None);
    assert!(should_register_deep_links(false, false));
    assert!(!should_register_deep_links(true, false));
    assert!(!should_register_deep_links(false, true));
}

#[test]
fn tray_menu_items() {
    assert_eq!(MenuId::from_name("log-out"), Some(MenuId::LogOut));
    assert_eq!(MenuId::from_name("quit"), Some(MenuId::Quit));
    assert_eq!(MenuId::from_name("settings"), Some(MenuId::Settings));
    assert_eq!(MenuId::from_name("autostart"), Some(MenuId::AutoStart));
    assert_eq!(MenuId::from_name("quick-add"), Some(MenuId::QuickAdd));
    assert_eq!(MenuId::from_name("nope"), None);
    assert_eq!(MenuId::Quit.label(), "Quit Capturist");
    assert_eq!(MenuId::QuickAdd.label(), "Add a new task");
    assert_eq!(MenuId::LogOut.name(), "log-out");
}

#[test]
fn tray_menu_layout_follows_state() {
    assert_eq!(
        tray_menu_layout(true, true, false),
        vec![
            MenuEntry::Item { id: MenuId::QuickAdd, enabled: true },
            MenuEntry::Separator,
            MenuEntry::Check { id: MenuId::AutoStart, enabled: true, checked: false },
            MenuEntry::Separator,
            MenuEntry::Item { id: MenuId::LogOut, enabled: true },
            MenuEntry::Item { id: MenuId::Quit, enabled: true },
        ]
    );
    assert_eq!(
        tray_menu_layout(false, false, true),
        vec![
            MenuEntry::Item { id: MenuId::QuickAdd, enabled: false },
            MenuEntry::Separator,
            MenuEntry::Item { id: MenuId::LogOut, enabled: false },
            MenuEntry::Item { id: MenuId::Quit, enabled: true },
        ]
    );
    assert_eq!(auth_dependent_items(false), vec![(MenuId::QuickAdd, false), (MenuId::LogOut, false)]);
}

#[test]
fn autostart_decisions() {
    assert!(preferred_autostart(None));
    assert!(!preferred_autostart(Some(false)));
    assert!(preferred_autostart(Some(true)));
    assert_eq!(autostart_change(true, false), AutostartChange::Enable);
    assert_eq!(autostart_change(false, true), AutostartChange::Disable);
    assert_eq!(autostart_change(true, true), AutostartChange::Keep);
    assert_eq!(autostart_change(false, false), AutostartChange::Keep);
}

#[test]
fn text_helpers() {
    assert!(same_text("abc", "abc"));
    assert!(!same_text("abc", "abd"));
    assert!(has_prefix("capturist://oauth?x", "capturist://oauth"));
    assert!(!has_prefix("cap", "capturist"));
    assert!(has_prefix("anything", ""));
}

#[test]
fn notification_arguments() {
    assert_eq!(capturist::notify::NOTIFY_PROGRAM, "notify-send");
    assert_eq!(
        capturist::notify::notification_args("Task added", "Buy milk"),
        texts(&["Task added", "Buy milk", "--app-name", "capturist", "--hint=int:transient:1"])
    );
}
