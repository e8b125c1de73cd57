use end_rs::config::Config;
use end_rs::ewwface::RendererCmd;
use end_rs::ipc::DaemonActions;
use end_rs::notifdaemon::{NotificationDaemon, NotifyRequest, Signal, TimerRequest};

fn request(app: &str, replaces: u32, summary: &str, body: &str) -> NotifyRequest {
    NotifyRequest {
        app_name: app.to_string(),
        replaces_id: replaces,
        app_icon: "".to_string(),
        summary: summary.to_string(),
        body: body.to_string(),
        actions: Vec::new(),
        urgency: None,
        transient: false,
        expire_timeout: -1,
        saved_icon: None,
        resolved_icon: None,
        resolved_app_icon: None,
    }
}

fn count_closes(cmds: &[RendererCmd]) -> usize {
    cmds.iter().filter(|c| matches!(c, RendererCmd::CloseWindow(_))).count()
}

fn count_opens(cmds: &[RendererCmd]) -> usize {
    cmds.iter().filter(|c| matches!(c, RendererCmd::OpenWindow(_))).count()
}

#[test]
fn fresh_ids_are_distinct() {
    let mut d = NotificationDaemon::new(Config::default());
    let (id1, _) = d.notify(request("a", 0, "s", "b"));
    let (id2, _) = d.notify(request("a", 0, "s", "b"));
    let (id3, _) = d.notify(request("a", 0, "s", "b"));
    assert_ne!(id1, id2);
    assert_ne!(id1, id3);
    assert_ne!(id2, id3);
}

#[test]
fn notify_then_expire() {
    let mut cfg = Config::default();
    cfg.timeout.normal = 1;
    let mut d = NotificationDaemon::new(cfg);
    let (id, eff) = d.notify(request("app", 0, "s", "b"));
    assert_eq!(eff.timer, Some(TimerRequest { id, generation: 1, delay_ms: 1000 }));
    assert_eq!(count_opens(&eff.renderer), 1);
    assert_eq!(count_closes(&eff.renderer), 0);
    assert_eq!(d.registry.active.len(), 1);

    let eff2 = d.timer_fired(id, 1);
    assert!(d.registry.active.is_empty());
    assert_eq!(eff2.signals, vec![Signal::NotificationClosed(id, 3)]);
    assert_eq!(count_closes(&eff2.renderer), 1);
}

#[test]
fn replaces_keeps_id_and_appends_history() {
    let mut d = NotificationDaemon::new(Config::default());
    let (id, _) = d.notify(request("app", 0, "old", "b"));
    let (id2, _) = d.notify(request("app", id, "new", "b"));
    assert_eq!(id, id2);
    assert_eq!(d.registry.active.len(), 1);
    assert_eq!(d.registry.active[0].id, id);
    assert_eq!(d.registry.active[0].notification.summary, "new");
    assert_eq!(d.registry.history.len(), 2);
}

#[test]
fn replaces_honors_unallocated_id() {
    let mut d = NotificationDaemon::new(Config::default());
    let (id, _) = d.notify(request("app", 42, "s", "b"));
    assert_eq!(id, 42);
    assert_eq!(d.registry.next_id, 0);
}

#[test]
fn transient_skips_history() {
    let mut d = NotificationDaemon::new(Config::default());
    let mut r = request("app", 0, "s", "b");
    r.transient = true;
    let (id, _) = d.notify(r);
    assert_eq!(d.registry.active.len(), 1);
    assert_eq!(d.registry.active[0].id, id);
    assert!(d.registry.history.is_empty());
}

#[test]
fn history_bound_over_notifies() {
    let mut cfg = Config::default();
    cfg.max_notifications = 2;
    let mut d = NotificationDaemon::new(cfg);
    d.notify(request("app", 0, "A", "b"));
    d.notify(request("app", 0, "B", "b"));
    d.notify(request("app", 0, "C", "b"));
    assert_eq!(d.registry.history.len(), 2);
    assert_eq!(d.registry.history[0].summary, "B");
    assert_eq!(d.registry.history[1].summary, "C");
}

#[test]
fn inline_reply_then_send() {
    let cfg = Config::default();
    let reply_text_var = cfg.eww_reply_text.clone();
    let reply_var = cfg.eww_reply_var.clone();
    let reply_window = cfg.eww_reply_window.clone();
    let mut d = NotificationDaemon::new(cfg);
    let (id, _) = d.notify(request("app", 0, "s", "b"));

    let eff = d.dispatch(DaemonActions::ActionInvoked(id, "inline-reply".to_string()));
    assert!(eff.signals.is_empty());
    assert_eq!(eff.renderer.len(), 3);
    assert_eq!(
        eff.renderer[0],
        RendererCmd::UpdateVar(reply_text_var, "".to_string())
    );
    assert!(matches!(&eff.renderer[1], RendererCmd::UpdateVar(v, _) if *v == reply_var));
    assert_eq!(eff.renderer[2], RendererCmd::OpenWindow(reply_window.clone()));
    assert!(d.registry.active[0].notification.timeout_cancelled);

    let eff2 = d.dispatch(DaemonActions::ReplySend(id, "hi".to_string()));
    assert_eq!(
        eff2.signals,
        vec![
            Signal::NotificationReplied(id, "hi".to_string()),
            Signal::NotificationClosed(id, 3),
        ]
    );
    assert!(d.registry.active.is_empty());
    assert!(eff2.renderer.contains(&RendererCmd::CloseWindow(reply_window)));
}

#[test]
fn action_invoked_closes_and_removes() {
    let mut d = NotificationDaemon::new(Config::default());
    let (id, _) = d.notify(request("app", 0, "s", "b"));
    let eff = d.dispatch(DaemonActions::ActionInvoked(id, "default".to_string()));
    assert_eq!(
        eff.signals,
        vec![
            Signal::ActionInvoked(id, "default".to_string()),
            Signal::NotificationClosed(id, 3),
        ]
    );
    assert!(d.registry.active.is_empty());
}

#[test]
fn close_signal_emitted_at_most_once() {
    let mut d = NotificationDaemon::new(Config::default());
    let (id, _) = d.notify(request("app", 0, "s", "b"));
    let eff1 = d.close_notification(id);
    assert_eq!(eff1.signals, vec![Signal::NotificationClosed(id, 3)]);
    let eff2 = d.close_notification(id);
    assert!(eff2.signals.is_empty());
    assert!(eff2.renderer.is_empty());
}

#[test]
fn close_race_with_timer() {
    let mut d = NotificationDaemon::new(Config::default());
    let mut r = request("app", 0, "s", "b");
    r.expire_timeout = 500;
    let (id, eff) = d.notify(r);
    assert_eq!(eff.timer, Some(TimerRequest { id, generation: 1, delay_ms: 500 }));

    let eff_close = d.close_notification(id);
    assert_eq!(eff_close.signals.len(), 1);
    assert_eq!(count_closes(&eff_close.renderer), 1);

    let eff_timer = d.timer_fired(id, 1);
    assert!(eff_timer.signals.is_empty());
    assert!(eff_timer.renderer.is_empty());
    assert!(d.registry.active.is_empty());
}

#[test]
fn tombstone_blocks_timer() {
    let mut d = NotificationDaemon::new(Config::default());
    let mut r = request("app", 0, "s", "b");
    r.expire_timeout = 500;
    let (id, eff) = d.notify(r);
    let generation = eff.timer.unwrap().generation;
    d.disable_timeout(id);
    let eff = d.timer_fired(id, generation);
    assert!(eff.signals.is_empty());
    assert_eq!(d.registry.active.len(), 1);
    assert_eq!(d.registry.active[0].id, id);
}

#[test]
fn replacement_blocks_stale_timer() {
    let mut d = NotificationDaemon::new(Config::default());
    let mut r = request("app", 0, "old", "b");
    r.expire_timeout = 500;
    let (id, eff1) = d.notify(r);
    let stale = eff1.timer.unwrap().generation;

    let mut r2 = request("app", id, "new", "b");
    r2.expire_timeout = 500;
    let (id2, eff2) = d.notify(r2);
    assert_eq!(id, id2);
    let fresh = eff2.timer.unwrap().generation;
    assert_ne!(stale, fresh);

    let eff_stale = d.timer_fired(id, stale);
    assert!(eff_stale.signals.is_empty());
    assert!(eff_stale.renderer.is_empty());
    assert_eq!(d.registry.active.len(), 1);
    assert_eq!(d.registry.active[0].notification.summary, "new");

    let eff_fresh = d.timer_fired(id, fresh);
    assert_eq!(eff_fresh.signals, vec![Signal::NotificationClosed(id, 3)]);
    assert!(d.registry.active.is_empty());
}

#[test]
fn action_on_absent_id_is_silent() {
    let mut d = NotificationDaemon::new(Config::default());
    let eff = d.dispatch(DaemonActions::ActionInvoked(9, "default".to_string()));
    assert!(eff.signals.is_empty());
    assert!(eff.renderer.is_empty());
}

#[test]
fn zero_timeout_schedules_nothing() {
    let mut cfg = Config::default();
    cfg.timeout.critical = 0;
    let mut d = NotificationDaemon::new(cfg);
    let mut r = request("app", 0, "s", "b");
    r.urgency = Some(2);
    let (_, eff) = d.notify(r);
    assert_eq!(eff.timer, None);
}

#[test]
fn reply_close_keeps_notification() {
    let cfg = Config::default();
    let reply_window = cfg.eww_reply_window.clone();
    let mut d = NotificationDaemon::new(cfg);
    let (id, _) = d.notify(request("app", 0, "s", "b"));
    let eff = d.dispatch(DaemonActions::ReplyClose(id));
    assert!(eff.signals.is_empty());
    assert_eq!(d.registry.active.len(), 1);
    assert!(d.registry.active[0].notification.actions.is_empty());
    assert!(eff.renderer.contains(&RendererCmd::CloseWindow(reply_window)));
}

#[test]
fn history_commands_touch_only_renderer() {
    let cfg = Config::default();
    let history_window = cfg.eww_history_window.clone();
    let mut d = NotificationDaemon::new(cfg);
    let eff = d.dispatch(DaemonActions::OpenHistory);
    assert_eq!(eff.renderer.len(), 2);
    assert_eq!(eff.renderer[1], RendererCmd::OpenWindow(history_window.clone()));
    let eff = d.dispatch(DaemonActions::CloseHistory);
    assert_eq!(eff.renderer, vec![RendererCmd::CloseWindow(history_window.clone())]);
    let eff = d.dispatch(DaemonActions::ToggleHistory);
    assert_eq!(eff.renderer.len(), 2);
    assert_eq!(eff.renderer[1], RendererCmd::ToggleWindow(history_window));
}

#[test]
fn capabilities_and_server_information() {
    let d = NotificationDaemon::new(Config::default());
    assert_eq!(d.get_capabilities(), vec!["body".to_string(), "actions".to_string()]);
    let (name, vendor, version, spec_version) = d.get_server_information();
    assert_eq!(name, "NotificationDaemon");
    assert_eq!(vendor, "1.0");
    assert_eq!(version, "end-rs");
    assert_eq!(spec_version, "1.0");
}
