use end_rs::config::{Config, NotificationWindow};
use end_rs::ewwface::{
    eww_active_windows_command, eww_close_command, eww_close_notifications, eww_open_command,
    eww_toggle_command, eww_update_command, eww_update_notifications, window_listed, RendererCmd,
};
use end_rs::notifdaemon::{
    choose_icon, classify_icon_name, effective_timeout_ms, pair_actions, urgency_label,
    IconNameKind,
};
use end_rs::text::contains_str;

#[test]
fn command_lines_have_the_renderer_shape() {
    let cfg = Config::default();
    assert_eq!(
        eww_active_windows_command(&cfg),
        "~/.local/bin/eww active-windows"
    );
    assert_eq!(
        eww_open_command(&cfg, "notification-frame"),
        "~/.local/bin/eww open notification-frame"
    );
    assert_eq!(
        eww_close_command(&cfg, "notification-frame"),
        "~/.local/bin/eww close notification-frame"
    );
    assert_eq!(
        eww_toggle_command(&cfg, "history-frame"),
        "~/.local/bin/eww open --toggle history-frame"
    );
}

#[test]
fn update_command_quotes_the_value() {
    let cfg = Config::default();
    assert_eq!(
        eww_update_command(&cfg, "v", "plain").unwrap(),
        "~/.local/bin/eww update v=plain"
    );
    assert_eq!(
        eww_update_command(&cfg, "v", "a b").unwrap(),
        "~/.local/bin/eww update v='a b'"
    );
    assert_eq!(
        eww_update_command(&cfg, "v", "").unwrap(),
        "~/.local/bin/eww update v=''"
    );
    assert_eq!(
        eww_update_command(&cfg, "v", "a\nb").unwrap(),
        "~/.local/bin/eww update v='a<br>b'"
    );
    assert_eq!(eww_update_command(&cfg, "v", "nul\0here"), None);
}

#[test]
fn window_listing_is_matched_exactly() {
    let out = "bar: bar\nnotification-frame: notification-frame\n";
    assert!(window_listed(out, "notification-frame"));
    assert!(window_listed(out, "bar"));
    assert!(!window_listed(out, "baz"));
    assert!(!window_listed("notification-frame: other\n", "notification-frame"));
}

#[test]
fn contains_str_edges() {
    assert!(contains_str("hello", ""));
    assert!(contains_str("hello", "ell"));
    assert!(!contains_str("hello", "elle"));
    assert!(!contains_str("he", "hello"));
}

#[test]
fn surface_commands_fan_out_over_windows() {
    let mut cfg = Config::default();
    cfg.eww_notification_window = NotificationWindow::Multiple(vec![
        "left".to_string(),
        "right".to_string(),
    ]);
    let cmds = eww_update_notifications(&cfg, &Vec::new());
    assert_eq!(cmds.len(), 3);
    assert!(matches!(&cmds[0], RendererCmd::UpdateVar(v, _) if v.as_str() == "end-notifications"));
    assert_eq!(cmds[1], RendererCmd::OpenWindow("left".to_string()));
    assert_eq!(cmds[2], RendererCmd::OpenWindow("right".to_string()));
    let closes = eww_close_notifications(&cfg);
    assert_eq!(
        closes,
        vec![
            RendererCmd::CloseWindow("left".to_string()),
            RendererCmd::CloseWindow("right".to_string()),
        ]
    );
}

#[test]
fn effective_timeout_follows_urgency() {
    let cfg = Config::default();
    assert_eq!(effective_timeout_ms(250, Some(2), &cfg.timeout), 250);
    assert_eq!(effective_timeout_ms(0, None, &cfg.timeout), 0);
    assert_eq!(effective_timeout_ms(-1, Some(0), &cfg.timeout), 5000);
    assert_eq!(effective_timeout_ms(-1, Some(1), &cfg.timeout), 10000);
    assert_eq!(effective_timeout_ms(-1, Some(2), &cfg.timeout), 0);
    assert_eq!(effective_timeout_ms(-1, Some(9), &cfg.timeout), 10000);
    assert_eq!(effective_timeout_ms(-1, None, &cfg.timeout), 10000);
}

#[test]
fn urgency_labels() {
    assert_eq!(urgency_label(Some(0)), "low");
    assert_eq!(urgency_label(Some(1)), "normal");
    assert_eq!(urgency_label(Some(2)), "critical");
    assert_eq!(urgency_label(Some(77)), "normal");
    assert_eq!(urgency_label(None), "normal");
}

#[test]
fn icon_choice_priority() {
    assert_eq!(
        choose_icon("fallback", Some("saved.png".to_string()), Some("found.png".to_string())),
        "saved.png"
    );
    assert_eq!(
        choose_icon("fallback", None, Some("found.png".to_string())),
        "found.png"
    );
    assert_eq!(choose_icon("fallback", None, None), "fallback");
}

#[test]
fn icon_names_classify_by_first_character() {
    assert_eq!(classify_icon_name(""), IconNameKind::Empty);
    assert_eq!(classify_icon_name("/usr/share/icon.png"), IconNameKind::AbsolutePath);
    assert_eq!(classify_icon_name("~/icon.png"), IconNameKind::HomePath);
    assert_eq!(classify_icon_name("firefox"), IconNameKind::ThemeLookup);
}

#[test]
fn actions_pair_up() {
    let flat = vec![
        "default".to_string(),
        "Open".to_string(),
        "inline-reply".to_string(),
    ];
    let pairs = pair_actions(flat);
    assert_eq!(
        pairs,
        vec![
            ("default".to_string(), "Open".to_string()),
            ("inline-reply".to_string(), "".to_string()),
        ]
    );
    assert!(pair_actions(Vec::new()).is_empty());
}
