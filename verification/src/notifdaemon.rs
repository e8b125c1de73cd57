//! The bus-service state machine: every operation of the Notifications
//! interface, and the control-channel dispatcher, as pure transitions on the
//! registry that return the renderer commands, bus signals and timer
//! requests to perform.

use vstd::prelude::*;

use crate::config::{Config, TimeoutConfig};
use crate::ewwface::{
    cmd_is_close, cmd_is_open, cmd_is_toggle, cmd_is_update, eww_close_history,
    eww_close_notifications, eww_create_reply_widget, eww_toggle_history,
    eww_update_and_open_history, eww_update_history, eww_update_notifications,
    spec_active_payload, spec_history_payload, spec_reply_widget, RendererCmd,
};
use crate::ipc::DaemonActions;
use crate::registry::{
    actions_cleared, idx_of, seq_has_id, ActiveNotification, HistoryNotification, Notification,
    Registry,
};

verus! {

/// A request to schedule an expiry after `delay_ms` milliseconds for the
/// notification with the given id.  `generation` names the entry the timer
/// was scheduled for: a firing timer whose generation no longer matches the
/// entry's is stale (the entry was replaced meanwhile) and must not act.
#[derive(Debug, PartialEq, Eq, Clone, Copy)]
pub struct TimerRequest {
    pub id: u32,
    pub generation: u64,
    pub delay_ms: u64,
}

/// A signal to be emitted on the session bus.
#[derive(Debug, PartialEq, Eq)]
pub enum Signal {
    ActionInvoked(u32, String),
    NotificationClosed(u32, u32),
    NotificationReplied(u32, String),
}

/// Everything a transition asks the outside world to do, in order: renderer
/// commands, bus signals, and at most one expiry timer to schedule.
#[derive(Debug)]
pub struct Effects {
    pub renderer: Vec<RendererCmd>,
    pub signals: Vec<Signal>,
    pub timer: Option<TimerRequest>,
}

impl Effects {
    /// No effect at all.
    pub fn none() -> (r: Effects)
        ensures
            r.renderer@ == Seq::<RendererCmd>::empty(),
            r.signals@ == Seq::<Signal>::empty(),
            r.timer is None,
    {
        Effects { renderer: Vec::new(), signals: Vec::new(), timer: None }
    }
}

/// A `Notify` call, with the hint values and icon-resolution results it
/// depends on already extracted into plain values.
#[derive(Debug)]
pub struct NotifyRequest {
    pub app_name: String,
    pub replaces_id: u32,
    pub app_icon: String,
    pub summary: String,
    pub body: String,
    pub actions: Vec<String>,
    pub urgency: Option<u8>,
    pub transient: bool,
    pub expire_timeout: i32,
    pub saved_icon: Option<String>,
    pub resolved_icon: Option<String>,
    pub resolved_app_icon: Option<String>,
}

/// The effective timeout in milliseconds: a non-negative client value is
/// taken as it stands; a negative one falls back to the configured
/// per-urgency default, given in seconds.
pub open spec fn spec_effective_timeout_ms(
    expire_timeout: i32,
    urgency: Option<u8>,
    t: TimeoutConfig,
) -> int {
    if expire_timeout >= 0 {
        expire_timeout as int
    } else {
        match urgency {
            Some(u) => if u == 0 {
                t.low as int * 1000
            } else if u == 1 {
                t.normal as int * 1000
            } else if u == 2 {
                t.critical as int * 1000
            } else {
                t.normal as int * 1000
            },
            None => t.normal as int * 1000,
        }
    }
}

pub fn effective_timeout_ms(expire_timeout: i32, urgency: Option<u8>, t: &TimeoutConfig) -> (r:
    u64)
    ensures
        r as int == spec_effective_timeout_ms(expire_timeout, urgency, *t),
{
    if expire_timeout >= 0 {
        expire_timeout as u64
    } else {
        let secs: u32 = match urgency {
            Some(u) => {
                if u == 0 {
                    t.low
                } else if u == 1 {
                    t.normal
                } else if u == 2 {
                    t.critical
                } else {
                    t.normal
                }
            },
            None => t.normal,
        };
        (secs as u64) * 1000
    }
}

/// The urgency tag derived from the urgency hint.
pub open spec fn spec_urgency_label(urgency: Option<u8>) -> Seq<char> {
    match urgency {
        Some(u) => if u == 0 {
            "low"@
        } else if u == 1 {
            "normal"@
        } else if u == 2 {
            "critical"@
        } else {
            "normal"@
        },
        None => "normal"@,
    }
}

pub fn urgency_label(urgency: Option<u8>) -> (r: String)
    ensures
        r@ == spec_urgency_label(urgency),
{
    match urgency {
        Some(u) => {
            if u == 0 {
                String::from_str("low")
            } else if u == 1 {
                String::from_str("normal")
            } else if u == 2 {
                String::from_str("critical")
            } else {
                String::from_str("normal")
            }
        },
        None => String::from_str("normal"),
    }
}

pub open spec fn opt_str_view(o: Option<String>) -> Option<Seq<char>> {
    match o {
        Some(s) => Some(s@),
        None => None,
    }
}

/// The display icon, in priority order: a pixmap persisted from the hints
/// wins; then a successful icon resolution; then the literal `app_icon`
/// string.
pub open spec fn spec_choose_icon(
    app_icon: Seq<char>,
    saved: Option<Seq<char>>,
    resolved: Option<Seq<char>>,
) -> Seq<char> {
    match saved {
        Some(s) => s,
        None => match resolved {
            Some(r) => r,
            None => app_icon,
        },
    }
}

pub fn choose_icon(app_icon: &str, saved: Option<String>, resolved: Option<String>) -> (r: String)
    ensures
        r@ == spec_choose_icon(app_icon@, opt_str_view(saved), opt_str_view(resolved)),
{
    match saved {
        Some(s) => s,
        None => match resolved {
            Some(r) => r,
            None => app_icon.to_owned(),
        },
    }
}

/// How an icon name is to be resolved.
#[derive(Debug, PartialEq, Eq, Clone, Copy)]
pub enum IconNameKind {
    /// An empty name resolves to nothing.
    Empty,
    /// An absolute path is used as it stands.
    AbsolutePath,
    /// A `~`-prefixed path is used after expanding the home directory.
    HomePath,
    /// Anything else is looked up in the icon theme.
    ThemeLookup,
}

/// Classifies an icon name the way the resolver treats it.
pub fn classify_icon_name(name: &str) -> (r: IconNameKind)
    ensures
        name@.len() == 0 ==> r == IconNameKind::Empty,
        name@.len() > 0 && name@[0] == '/' ==> r == IconNameKind::AbsolutePath,
        name@.len() > 0 && name@[0] == '~' ==> r == IconNameKind::HomePath,
        name@.len() > 0 && name@[0] != '/' && name@[0] != '~' ==> r == IconNameKind::ThemeLookup,
{
    if name.is_empty() {
        IconNameKind::Empty
    } else {
        let c = name.get_char(0);
        if c == '/' {
            IconNameKind::AbsolutePath
        } else if c == '~' {
            IconNameKind::HomePath
        } else {
            IconNameKind::ThemeLookup
        }
    }
}

/// `p` is the action list `a` reshaped into (identifier, label) pairs: the
/// flat list alternates identifiers and labels, and a trailing identifier
/// without a label gets an empty one.
pub open spec fn spec_paired(a: Seq<String>, p: Seq<(String, String)>) -> bool {
    &&& p.len() == (a.len() + 1) / 2
    &&& forall|j: int| 0 <= j < p.len() ==> (#[trigger] p[j]).0 == a[2 * j]
    &&& forall|j: int|
        0 <= j < p.len() ==> if 2 * j + 1 < a.len() {
            (#[trigger] p[j]).1 == a[2 * j + 1]
        } else {
            p[j].1@ == Seq::<char>::empty()
        }
}

pub fn pair_actions(actions: Vec<String>) -> (r: Vec<(String, String)>)
    ensures
        spec_paired(actions@, r@),
{
    let mut out: Vec<(String, String)> = Vec::new();
    let mut i: usize = 0;
    while i < actions.len()
        invariant
            i % 2 == 0 || i == actions@.len(),
            i <= actions@.len(),
            out@.len() == (i + 1) / 2,
            forall|j: int| 0 <= j < out@.len() ==> (#[trigger] out@[j]).0 == actions@[2 * j],
            forall|j: int|
                0 <= j < out@.len() ==> if 2 * j + 1 < actions@.len() {
                    (#[trigger] out@[j]).1 == actions@[2 * j + 1]
                } else {
                    out@[j].1@ == Seq::<char>::empty()
                },
        decreases actions@.len() - i,
    {
        let key = actions[i].clone();
        if i + 1 < actions.len() {
            let value = actions[i + 1].clone();
            out.push((key, value));
            i = i + 2;
        } else {
            out.push((key, String::new()));
            i = i + 1;
        }
    }
    out
}

/// The renderer commands after a change of the active table: refresh the
/// surface's variable, make sure its windows are open, and, when the table
/// became empty, close them again.
pub open spec fn spec_refresh_cmds(
    cfg: Config,
    active: Seq<ActiveNotification>,
    cmds: Seq<RendererCmd>,
) -> bool {
    let w = cfg.eww_notification_window.spec_windows();
    &&& cmds.len() == 1 + w.len() + (if active.len() == 0 {
        w.len() as int
    } else {
        0int
    })
    &&& cmd_is_update(cmds[0], cfg.eww_notification_var@, spec_active_payload(cfg, active))
    &&& forall|k: int| 1 <= k < 1 + w.len() ==> cmd_is_open(#[trigger] cmds[k], w[k - 1])
    &&& active.len() == 0 ==> forall|k: int|
        1 + w.len() <= k < cmds.len() ==> cmd_is_close(#[trigger] cmds[k], w[k - 1 - w.len()])
}

/// Refreshes the notification surface for the given table, closing the
/// surface's windows when the table is empty.
fn refresh_notifications(cfg: &Config, active: &Vec<ActiveNotification>) -> (cmds: Vec<
    RendererCmd,
>)
    ensures
        spec_refresh_cmds(*cfg, active@, cmds@),
{
    let mut cmds = eww_update_notifications(cfg, active);
    if active.len() == 0 {
        let mut closes = eww_close_notifications(cfg);
        cmds.append(&mut closes);
    }
    cmds
}

/// The index at which an insertion under `id` lands: the index of the
/// entry already carrying `id`, or the end of the table.
pub open spec fn spec_insert_index(s: Seq<ActiveNotification>, id: u32) -> int {
    if seq_has_id(s, id) {
        idx_of(s, id)
    } else {
        s.len() as int
    }
}

/// The history snapshot of a notification: the same display fields, no
/// actions and no expiry state.
pub open spec fn hist_of(n: Notification) -> HistoryNotification {
    HistoryNotification {
        app_name: n.app_name,
        icon: n.icon,
        app_icon: n.app_icon,
        summary: n.summary,
        body: n.body,
        urgency: n.urgency,
    }
}

/// A history sequence trimmed at the front to respect the bound `max`.
pub open spec fn spec_trimmed(h: Seq<HistoryNotification>, max: int) -> Seq<HistoryNotification> {
    if h.len() > max {
        h.subrange(1, h.len() as int)
    } else {
        h
    }
}

/// The notification that a `Notify` request gives rise to.
pub open spec fn spec_notif_from(req: NotifyRequest, n: Notification) -> bool {
    &&& n.app_name == req.app_name
    &&& n.icon@ == spec_choose_icon(
        req.app_icon@,
        opt_str_view(req.saved_icon),
        opt_str_view(req.resolved_icon),
    )
    &&& n.app_icon@ == (match req.resolved_app_icon {
        Some(s) => s@,
        None => Seq::<char>::empty(),
    })
    &&& n.summary == req.summary
    &&& n.body == req.body
    &&& n.urgency@ == spec_urgency_label(req.urgency)
    &&& spec_paired(req.actions@, n.actions@)
    &&& n.timeout_cancelled == false
}

/// The active table after the entry carrying `id`, if any, is removed.
pub open spec fn spec_removed_post(
    pre: Seq<ActiveNotification>,
    post: Seq<ActiveNotification>,
    id: u32,
) -> bool {
    if seq_has_id(pre, id) {
        post == pre.remove(idx_of(pre, id))
    } else {
        post == pre
    }
}

/// The active table after the entry carrying `id`, if any, is tombstoned.
pub open spec fn spec_tombstone_post(
    pre: Seq<ActiveNotification>,
    post: Seq<ActiveNotification>,
    id: u32,
) -> bool {
    if seq_has_id(pre, id) {
        let i = idx_of(pre, id);
        &&& post.len() == pre.len()
        &&& forall|j: int| 0 <= j < pre.len() && j != i ==> post[j] == pre[j]
        &&& crate::registry::tombstoned(pre[i], post[i])
    } else {
        post == pre
    }
}

/// `t` is `s` with the actions of the entry at `i` emptied.
pub open spec fn cleared_at(
    s: Seq<ActiveNotification>,
    i: int,
    t: Seq<ActiveNotification>,
) -> bool {
    &&& t.len() == s.len()
    &&& forall|j: int| 0 <= j < s.len() && j != i ==> t[j] == s[j]
    &&& actions_cleared(s[i], t[i])
}

/// A pending expiry acts only on an entry that is still present, not
/// tombstoned, and still the one the timer was scheduled for.
pub open spec fn spec_timer_acts(s: Seq<ActiveNotification>, id: u32, generation: u64) -> bool {
    &&& seq_has_id(s, id)
    &&& !s[idx_of(s, id)].notification.timeout_cancelled
    &&& s[idx_of(s, id)].notification.timer_generation == generation
}

/// The daemon's state: its configuration, the registry, and the counter
/// that stamps each scheduled expiry with the generation of the entry it
/// belongs to.
pub struct NotificationDaemon {
    pub config: Config,
    pub registry: Registry,
    pub timer_seq: u64,
}

impl NotificationDaemon {
    /// The registry is well formed under this configuration's history
    /// bound, and no entry carries a timer generation from the future.
    pub open spec fn wf(self) -> bool {
        &&& self.registry.wf(self.config.max_notifications as nat)
        &&& forall|j: int|
            0 <= j < self.registry.active@.len()
                ==> (#[trigger] self.registry.active@[j]).notification.timer_generation
                <= self.timer_seq
    }

    pub fn new(config: Config) -> (r: NotificationDaemon)
        ensures
            r.config == config,
            r.registry.active@ == Seq::<ActiveNotification>::empty(),
            r.registry.history@ == Seq::<HistoryNotification>::empty(),
            r.registry.next_id == 0,
            r.timer_seq == 0,
            r.wf(),
    {
        NotificationDaemon { config, registry: Registry::new(), timer_seq: 0 }
    }

    /// The capabilities announced to clients: plain bodies and actions.
    pub fn get_capabilities(&self) -> (r: Vec<String>)
        ensures
            r@.len() == 2,
            r@[0]@ == "body"@,
            r@[1]@ == "actions"@,
    {
        let mut out: Vec<String> = Vec::new();
        out.push(String::from_str("body"));
        out.push(String::from_str("actions"));
        out
    }

    /// The fixed server-information tuple.
    pub fn get_server_information(&self) -> (r: (String, String, String, String))
        ensures
            r.0@ == "NotificationDaemon"@,
            r.1@ == "1.0"@,
            r.2@ == "end-rs"@,
            r.3@ == "1.0"@,
    {
        (
            String::from_str("NotificationDaemon"),
            String::from_str("1.0"),
            String::from_str("end-rs"),
            String::from_str("1.0"),
        )
    }

    /// Refreshes the history surface's variable.
    pub fn update_history(&self) -> (eff: Effects)
        ensures
            eff.renderer@.len() == 1,
            cmd_is_update(
                eff.renderer@[0],
                self.config.eww_history_var@,
                spec_history_payload(self.config, self.registry.history@),
            ),
            eff.signals@ == Seq::<Signal>::empty(),
            eff.timer is None,
    {
        let renderer = eww_update_history(&self.config, &self.registry.history);
        Effects { renderer, signals: Vec::new(), timer: None }
    }

    /// Refreshes the history surface and opens its window.
    pub fn open_history(&self) -> (eff: Effects)
        ensures
            eff.renderer@.len() == 2,
            cmd_is_update(
                eff.renderer@[0],
                self.config.eww_history_var@,
                spec_history_payload(self.config, self.registry.history@),
            ),
            cmd_is_open(eff.renderer@[1], self.config.eww_history_window@),
            eff.signals@ == Seq::<Signal>::empty(),
            eff.timer is None,
    {
        let renderer = eww_update_and_open_history(&self.config, &self.registry.history);
        Effects { renderer, signals: Vec::new(), timer: None }
    }

    /// Closes the history window.
    pub fn close_history(&self) -> (eff: Effects)
        ensures
            eff.renderer@.len() == 1,
            cmd_is_close(eff.renderer@[0], self.config.eww_history_window@),
            eff.signals@ == Seq::<Signal>::empty(),
            eff.timer is None,
    {
        let renderer = eww_close_history(&self.config);
        Effects { renderer, signals: Vec::new(), timer: None }
    }

    /// Refreshes the history surface and toggles its window.
    pub fn toggle_history(&self) -> (eff: Effects)
        ensures
            eff.renderer@.len() == 2,
            cmd_is_update(
                eff.renderer@[0],
                self.config.eww_history_var@,
                spec_history_payload(self.config, self.registry.history@),
            ),
            cmd_is_toggle(eff.renderer@[1], self.config.eww_history_window@),
            eff.signals@ == Seq::<Signal>::empty(),
            eff.timer is None,
    {
        let renderer = eww_toggle_history(&self.config, &self.registry.history);
        Effects { renderer, signals: Vec::new(), timer: None }
    }

    /// Serves a `Notify` call: picks the id, resolves the display values,
    /// records history unless the notification is transient, inserts the
    /// entry, and returns the id together with the effects: a history
    /// refresh when configured, the notification-surface refresh, and the
    /// expiry timer to schedule when the effective timeout is not zero.
    pub fn notify(&mut self, req: NotifyRequest) -> (r: (u32, Effects))
        requires
            old(self).wf(),
            req.replaces_id == 0 ==> old(self).registry.next_id < u32::MAX,
            old(self).timer_seq < u64::MAX,
        ensures
            final(self).wf(),
            final(self).config == old(self).config,
            final(self).timer_seq == old(self).timer_seq + 1,
            req.replaces_id != 0 ==> r.0 == req.replaces_id
                && final(self).registry.next_id == old(self).registry.next_id,
            req.replaces_id == 0 ==> r.0 == old(self).registry.next_id + 1
                && final(self).registry.next_id == old(self).registry.next_id + 1,
            ({
                let oa = old(self).registry.active@;
                let na = final(self).registry.active@;
                let i = spec_insert_index(oa, r.0);
                &&& na.len() == oa.len() + (if seq_has_id(oa, r.0) {
                    0int
                } else {
                    1
                })
                &&& forall|j: int| 0 <= j < oa.len() && j != i ==> na[j] == oa[j]
                &&& na[i].id == r.0
                &&& spec_notif_from(req, na[i].notification)
                &&& na[i].notification.timer_generation == final(self).timer_seq
            }),
            req.transient ==> final(self).registry.history == old(self).registry.history,
            !req.transient ==> ({
                let i = spec_insert_index(old(self).registry.active@, r.0);
                let n = final(self).registry.active@[i].notification;
                final(self).registry.history@ == spec_trimmed(
                    old(self).registry.history@.push(hist_of(n)),
                    old(self).config.max_notifications as int,
                )
            }),
            ({
                let pre: int = if !req.transient && old(self).config.update_history {
                    1
                } else {
                    0
                };
                let w = old(self).config.eww_notification_window.spec_windows();
                &&& r.1.renderer@.len() == pre + 1 + w.len()
                &&& (pre == 1 ==> cmd_is_update(
                    r.1.renderer@[0],
                    old(self).config.eww_history_var@,
                    spec_history_payload(old(self).config, final(self).registry.history@),
                ))
                &&& cmd_is_update(
                    r.1.renderer@[pre],
                    old(self).config.eww_notification_var@,
                    spec_active_payload(old(self).config, final(self).registry.active@),
                )
                &&& forall|k: int|
                    pre + 1 <= k < r.1.renderer@.len() ==> cmd_is_open(
                        #[trigger] r.1.renderer@[k],
                        w[k - pre - 1],
                    )
            }),
            r.1.signals@ == Seq::<Signal>::empty(),
            ({
                let t = spec_effective_timeout_ms(
                    req.expire_timeout,
                    req.urgency,
                    old(self).config.timeout,
                );
                match r.1.timer {
                    Some(tr) => t != 0 && tr.id == r.0 && tr.generation == final(self).timer_seq
                        && tr.delay_ms as int == t,
                    None => t == 0,
                }
            }),
    {
        let NotifyRequest {
            app_name,
            replaces_id,
            app_icon,
            summary,
            body,
            actions,
            urgency,
            transient,
            expire_timeout,
            saved_icon,
            resolved_icon,
            resolved_app_icon,
        } = req;
        let id: u32 = if replaces_id != 0 {
            replaces_id
        } else {
            self.registry.next_id = self.registry.next_id + 1;
            self.registry.next_id
        };
        self.timer_seq = self.timer_seq + 1;
        let generation = self.timer_seq;
        let icon = choose_icon(app_icon.as_str(), saved_icon, resolved_icon);
        let resolved_app = match resolved_app_icon {
            Some(s) => s,
            None => String::new(),
        };
        let urg = urgency_label(urgency);
        let t_ms = effective_timeout_ms(expire_timeout, urgency, &self.config.timeout);
        let paired = pair_actions(actions);
        let mut renderer: Vec<RendererCmd> = Vec::new();
        if !transient {
            let h = HistoryNotification {
                app_name: app_name.clone(),
                icon: icon.clone(),
                app_icon: resolved_app.clone(),
                summary: summary.clone(),
                body: body.clone(),
                urgency: urg.clone(),
            };
            self.registry.history_append(h, self.config.max_notifications);
            if self.config.update_history {
                let mut cmds = eww_update_history(&self.config, &self.registry.history);
                renderer.append(&mut cmds);
            }
        }
        let notification = Notification {
            app_name,
            icon,
            app_icon: resolved_app,
            summary,
            body,
            urgency: urg,
            actions: paired,
            timeout_cancelled: false,
            timer_generation: generation,
        };
        self.registry.insert_or_replace(id, notification);
        let mut cmds = eww_update_notifications(&self.config, &self.registry.active);
        renderer.append(&mut cmds);
        let timer = if t_ms != 0 {
            Some(TimerRequest { id, generation, delay_ms: t_ms })
        } else {
            None
        };
        (id, Effects { renderer, signals: Vec::new(), timer })
    }

    /// Marks the entry carrying `id` so that its pending expiry, if any,
    /// will leave it alone.
    pub fn disable_timeout(&mut self, id: u32)
        requires
            old(self).wf(),
        ensures
            final(self).wf(),
            final(self).config == old(self).config,
            final(self).registry.next_id == old(self).registry.next_id,
            final(self).registry.history == old(self).registry.history,
            final(self).timer_seq == old(self).timer_seq,
            spec_tombstone_post(old(self).registry.active@, final(self).registry.active@, id),
    {
        self.registry.disable_timeout(id);
    }

    /// Serves a `CloseNotification` call: when the id is present, removes
    /// it, refreshes the surface (closing its windows if the table became
    /// empty) and emits one `NotificationClosed` signal with reason 3;
    /// an absent id has no effect at all.
    pub fn close_notification(&mut self, id: u32) -> (eff: Effects)
        requires
            old(self).wf(),
        ensures
            final(self).wf(),
            final(self).config == old(self).config,
            final(self).registry.next_id == old(self).registry.next_id,
            final(self).registry.history == old(self).registry.history,
            final(self).timer_seq == old(self).timer_seq,
            spec_removed_post(old(self).registry.active@, final(self).registry.active@, id),
            old(self).registry.has_id(id) ==> {
                &&& spec_refresh_cmds(
                    old(self).config,
                    final(self).registry.active@,
                    eff.renderer@,
                )
                &&& eff.signals@.len() == 1
                &&& eff.signals@[0] == Signal::NotificationClosed(id, 3)
            },
            !old(self).registry.has_id(id) ==> eff.renderer@.len() == 0 && eff.signals@.len()
                == 0,
            eff.timer is None,
    {
        match self.registry.remove(id) {
            Some(_) => {
                let renderer = refresh_notifications(&self.config, &self.registry.active);
                let mut signals: Vec<Signal> = Vec::new();
                signals.push(Signal::NotificationClosed(id, 3));
                Effects { renderer, signals, timer: None }
            },
            None => Effects::none(),
        }
    }

    /// The decision a fired expiry timer takes: if the entry is still
    /// present, not tombstoned and still of the generation the timer was
    /// scheduled for, it is removed, the surface refreshed (closed if now
    /// empty) and one `NotificationClosed` signal emitted; otherwise —
    /// gone, tombstoned, or replaced meanwhile — nothing happens.
    pub fn timer_fired(&mut self, id: u32, generation: u64) -> (eff: Effects)
        requires
            old(self).wf(),
        ensures
            final(self).wf(),
            final(self).config == old(self).config,
            final(self).registry.next_id == old(self).registry.next_id,
            final(self).registry.history == old(self).registry.history,
            final(self).timer_seq == old(self).timer_seq,
            spec_timer_acts(old(self).registry.active@, id, generation) ==> {
                &&& final(self).registry.active@ == old(self).registry.active@.remove(
                    idx_of(old(self).registry.active@, id),
                )
                &&& spec_refresh_cmds(
                    old(self).config,
                    final(self).registry.active@,
                    eff.renderer@,
                )
                &&& eff.signals@.len() == 1
                &&& eff.signals@[0] == Signal::NotificationClosed(id, 3)
            },
            !spec_timer_acts(old(self).registry.active@, id, generation) ==> {
                &&& final(self).registry.active@ == old(self).registry.active@
                &&& eff.renderer@.len() == 0
                &&& eff.signals@.len() == 0
            },
            eff.timer is None,
    {
        let acts = match self.registry.find_index(id) {
            Some(i) => !self.registry.active[i].notification.timeout_cancelled
                && self.registry.active[i].notification.timer_generation == generation,
            None => false,
        };
        proof {
            let oa = old(self).registry.active@;
            if seq_has_id(oa, id) {
                assert(oa[idx_of(oa, id)].id == id);
            }
        }
        if acts {
            let _removed = self.registry.remove(id);
            let renderer = refresh_notifications(&self.config, &self.registry.active);
            let mut signals: Vec<Signal> = Vec::new();
            signals.push(Signal::NotificationClosed(id, 3));
            Effects { renderer, signals, timer: None }
        } else {
            Effects::none()
        }
    }

    /// Closes the inline-reply surface: the entry's actions are emptied
    /// when the id is present (and the surface refreshed), and the reply
    /// window is closed in every case; the notification itself stays.
    pub fn reply_close(&mut self, id: u32) -> (eff: Effects)
        requires
            old(self).wf(),
        ensures
            final(self).wf(),
            final(self).config == old(self).config,
            final(self).registry.next_id == old(self).registry.next_id,
            final(self).registry.history == old(self).registry.history,
            final(self).timer_seq == old(self).timer_seq,
            old(self).registry.has_id(id) ==> {
                let w = old(self).config.eww_notification_window.spec_windows();
                &&& cleared_at(
                    old(self).registry.active@,
                    idx_of(old(self).registry.active@, id),
                    final(self).registry.active@,
                )
                &&& eff.renderer@.len() == 1 + w.len() + 1
                &&& cmd_is_update(
                    eff.renderer@[0],
                    old(self).config.eww_notification_var@,
                    spec_active_payload(old(self).config, final(self).registry.active@),
                )
                &&& forall|k: int|
                    1 <= k < 1 + w.len() ==> cmd_is_open(#[trigger] eff.renderer@[k], w[k - 1])
                &&& cmd_is_close(
                    eff.renderer@[1 + w.len() as int],
                    old(self).config.eww_reply_window@,
                )
            },
            !old(self).registry.has_id(id) ==> {
                &&& final(self).registry.active@ == old(self).registry.active@
                &&& eff.renderer@.len() == 1
                &&& cmd_is_close(eff.renderer@[0], old(self).config.eww_reply_window@)
            },
            eff.signals@.len() == 0,
            eff.timer is None,
    {
        let found = self.registry.clear_actions(id);
        let mut renderer: Vec<RendererCmd> = if found {
            eww_update_notifications(&self.config, &self.registry.active)
        } else {
            Vec::new()
        };
        renderer.push(RendererCmd::CloseWindow(self.config.eww_reply_window.clone()));
        Effects { renderer, signals: Vec::new(), timer: None }
    }

    /// Serializes one control-channel command against the registry, as the
    /// single dispatcher task does: close and history commands go to the
    /// corresponding service operation; an `inline-reply` action opens the
    /// reply surface and tombstones the entry's expiry; any other action on
    /// a live entry removes it and emits `ActionInvoked` then
    /// `NotificationClosed` (an absent id has no effect, so the close
    /// signal stays at-most-once per id); a reply send emits
    /// `NotificationReplied`, closes the reply surface and then the
    /// notification itself.
    pub fn dispatch(&mut self, action: DaemonActions) -> (eff: Effects)
        requires
            old(self).wf(),
        ensures
            final(self).wf(),
            final(self).config == old(self).config,
            final(self).registry.next_id == old(self).registry.next_id,
            final(self).registry.history == old(self).registry.history,
            final(self).timer_seq == old(self).timer_seq,
            eff.timer is None,
            match action {
                DaemonActions::CloseNotification(id) => {
                    &&& spec_removed_post(
                        old(self).registry.active@,
                        final(self).registry.active@,
                        id,
                    )
                    &&& old(self).registry.has_id(id) ==> {
                        &&& spec_refresh_cmds(
                            old(self).config,
                            final(self).registry.active@,
                            eff.renderer@,
                        )
                        &&& eff.signals@.len() == 1
                        &&& eff.signals@[0] == Signal::NotificationClosed(id, 3)
                    }
                    &&& !old(self).registry.has_id(id) ==> eff.renderer@.len() == 0
                        && eff.signals@.len() == 0
                },
                DaemonActions::OpenHistory => {
                    &&& final(self).registry.active@ == old(self).registry.active@
                    &&& eff.renderer@.len() == 2
                    &&& cmd_is_update(
                        eff.renderer@[0],
                        old(self).config.eww_history_var@,
                        spec_history_payload(old(self).config, old(self).registry.history@),
                    )
                    &&& cmd_is_open(eff.renderer@[1], old(self).config.eww_history_window@)
                    &&& eff.signals@.len() == 0
                },
                DaemonActions::CloseHistory => {
                    &&& final(self).registry.active@ == old(self).registry.active@
                    &&& eff.renderer@.len() == 1
                    &&& cmd_is_close(eff.renderer@[0], old(self).config.eww_history_window@)
                    &&& eff.signals@.len() == 0
                },
                DaemonActions::ToggleHistory => {
                    &&& final(self).registry.active@ == old(self).registry.active@
                    &&& eff.renderer@.len() == 2
                    &&& cmd_is_update(
                        eff.renderer@[0],
                        old(self).config.eww_history_var@,
                        spec_history_payload(old(self).config, old(self).registry.history@),
                    )
                    &&& cmd_is_toggle(eff.renderer@[1], old(self).config.eww_history_window@)
                    &&& eff.signals@.len() == 0
                },
                DaemonActions::ActionInvoked(id, a) => {
                    if a@ == "inline-reply"@ {
                        &&& spec_tombstone_post(
                            old(self).registry.active@,
                            final(self).registry.active@,
                            id,
                        )
                        &&& eff.renderer@.len() == 3
                        &&& cmd_is_update(
                            eff.renderer@[0],
                            old(self).config.eww_reply_text@,
                            Seq::<char>::empty(),
                        )
                        &&& cmd_is_update(
                            eff.renderer@[1],
                            old(self).config.eww_reply_var@,
                            spec_reply_widget(old(self).config, id),
                        )
                        &&& cmd_is_open(eff.renderer@[2], old(self).config.eww_reply_window@)
                        &&& eff.signals@.len() == 0
                    } else {
                        &&& spec_removed_post(
                            old(self).registry.active@,
                            final(self).registry.active@,
                            id,
                        )
                        &&& old(self).registry.has_id(id) ==> {
                            &&& eff.signals@.len() == 2
                            &&& eff.signals@[0] == Signal::ActionInvoked(id, a)
                            &&& eff.signals@[1] == Signal::NotificationClosed(id, 3)
                            &&& spec_refresh_cmds(
                                old(self).config,
                                final(self).registry.active@,
                                eff.renderer@,
                            )
                        }
                        &&& !old(self).registry.has_id(id) ==> eff.signals@.len() == 0
                            && eff.renderer@.len() == 0
                    }
                },
                DaemonActions::ReplySend(id, text) => {
                    &&& spec_removed_post(
                        old(self).registry.active@,
                        final(self).registry.active@,
                        id,
                    )
                    &&& eff.signals@[0] == Signal::NotificationReplied(id, text)
                    &&& old(self).registry.has_id(id) ==> {
                        let w = old(self).config.eww_notification_window.spec_windows();
                        let i = idx_of(old(self).registry.active@, id);
                        &&& eff.signals@.len() == 2
                        &&& eff.signals@[1] == Signal::NotificationClosed(id, 3)
                        &&& eff.renderer@.len() == 2 + w.len() + (1 + w.len() + (
                        if final(self).registry.active@.len() == 0 {
                            w.len() as int
                        } else {
                            0int
                        }))
                        &&& exists|mid: Seq<ActiveNotification>|
                            {
                                &&& #[trigger] cleared_at(old(self).registry.active@, i, mid)
                                &&& cmd_is_update(
                                    eff.renderer@[0],
                                    old(self).config.eww_notification_var@,
                                    spec_active_payload(old(self).config, mid),
                                )
                            }
                        &&& forall|k: int|
                            1 <= k < 1 + w.len() ==> cmd_is_open(
                                #[trigger] eff.renderer@[k],
                                w[k - 1],
                            )
                        &&& cmd_is_close(
                            eff.renderer@[1 + w.len() as int],
                            old(self).config.eww_reply_window@,
                        )
                        &&& cmd_is_update(
                            eff.renderer@[2 + w.len() as int],
                            old(self).config.eww_notification_var@,
                            spec_active_payload(old(self).config, final(self).registry.active@),
                        )
                        &&& forall|k: int|
                            3 + w.len() <= k < 3 + 2 * w.len() ==> cmd_is_open(
                                #[trigger] eff.renderer@[k],
                                w[k - 3 - w.len()],
                            )
                        &&& final(self).registry.active@.len() == 0 ==> forall|k: int|
                            3 + 2 * w.len() <= k < eff.renderer@.len() ==> cmd_is_close(
                                #[trigger] eff.renderer@[k],
                                w[k - 3 - 2 * w.len()],
                            )
                    }
                    &&& !old(self).registry.has_id(id) ==> {
                        &&& eff.signals@.len() == 1
                        &&& eff.renderer@.len() == 1
                        &&& cmd_is_close(eff.renderer@[0], old(self).config.eww_reply_window@)
                    }
                },
                DaemonActions::ReplyClose(id) => {
                    &&& old(self).registry.has_id(id) ==> {
                        let w = old(self).config.eww_notification_window.spec_windows();
                        &&& cleared_at(
                            old(self).registry.active@,
                            idx_of(old(self).registry.active@, id),
                            final(self).registry.active@,
                        )
                        &&& eff.renderer@.len() == 1 + w.len() + 1
                        &&& cmd_is_update(
                            eff.renderer@[0],
                            old(self).config.eww_notification_var@,
                            spec_active_payload(old(self).config, final(self).registry.active@),
                        )
                        &&& forall|k: int|
                            1 <= k < 1 + w.len() ==> cmd_is_open(
                                #[trigger] eff.renderer@[k],
                                w[k - 1],
                            )
                        &&& cmd_is_close(
                            eff.renderer@[1 + w.len() as int],
                            old(self).config.eww_reply_window@,
                        )
                    }
                    &&& !old(self).registry.has_id(id) ==> {
                        &&& final(self).registry.active@ == old(self).registry.active@
                        &&& eff.renderer@.len() == 1
                        &&& cmd_is_close(eff.renderer@[0], old(self).config.eww_reply_window@)
                    }
                    &&& eff.signals@.len() == 0
                },
            },
    {
        match action {
            DaemonActions::CloseNotification(id) => self.close_notification(id),
            DaemonActions::OpenHistory => self.open_history(),
            DaemonActions::CloseHistory => self.close_history(),
            DaemonActions::ToggleHistory => self.toggle_history(),
            DaemonActions::ActionInvoked(id, a) => {
                let key = String::from_str("inline-reply");
                if a.eq(&key) {
                    let mut renderer: Vec<RendererCmd> = Vec::new();
                    renderer.push(
                        RendererCmd::UpdateVar(self.config.eww_reply_text.clone(), String::new()),
                    );
                    let widget = eww_create_reply_widget(&self.config, id);
                    renderer.push(
                        RendererCmd::UpdateVar(self.config.eww_reply_var.clone(), widget),
                    );
                    renderer.push(RendererCmd::OpenWindow(self.config.eww_reply_window.clone()));
                    self.registry.disable_timeout(id);
                    Effects { renderer, signals: Vec::new(), timer: None }
                } else {
                    let removed = self.registry.remove(id);
                    if removed.is_some() {
                        let mut signals: Vec<Signal> = Vec::new();
                        signals.push(Signal::ActionInvoked(id, a));
                        signals.push(Signal::NotificationClosed(id, 3));
                        let renderer = refresh_notifications(&self.config, &self.registry.active);
                        Effects { renderer, signals, timer: None }
                    } else {
                        Effects::none()
                    }
                }
            },
            DaemonActions::ReplySend(id, text) => {
                let mut signals: Vec<Signal> = Vec::new();
                signals.push(Signal::NotificationReplied(id, text));
                let eff1 = self.reply_close(id);
                let ghost mid = self.registry.active@;
                let ghost r1 = eff1.renderer@;
                let mut eff2 = self.close_notification(id);
                let ghost r2 = eff2.renderer@;
                let ghost s2 = eff2.signals@;
                let mut renderer = eff1.renderer;
                renderer.append(&mut eff2.renderer);
                let mut more_signals = eff2.signals;
                signals.append(&mut more_signals);
                proof {
                    let oa = old(self).registry.active@;
                    assert(renderer@ =~= r1 + r2);
                    if seq_has_id(oa, id) {
                        let i = idx_of(oa, id);
                        assert(oa[i].id == id);
                        assert(cleared_at(oa, i, mid));
                        assert(mid[i].id == id);
                        assert(seq_has_id(mid, id));
                        let i2 = idx_of(mid, id);
                        assert(mid[i2].id == id);
                        assert(i2 == i);
                        assert(self.registry.active@ =~= mid.remove(i));
                        assert(mid.remove(i) =~= oa.remove(i));
                        assert(forall|k: int| 0 <= k < r1.len() ==> renderer@[k] == r1[k]);
                        assert(forall|k: int|
                            r1.len() <= k < renderer@.len() ==> renderer@[k] == r2[k - r1.len()]);
                    } else {
                        assert(!seq_has_id(mid, id));
                    }
                }
                Effects { renderer, signals, timer: None }
            },
            DaemonActions::ReplyClose(id) => self.reply_close(id),
        }
    }
}

} // verus!
