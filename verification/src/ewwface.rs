//! The renderer driver's pure half: widget payload strings for the active
//! and history surfaces, the renderer command lines, and the commands that
//! the daemon asks the renderer executor to perform.

use vstd::prelude::*;

use crate::config::{nul_free, Config, NotificationWindow};
use crate::registry::{ActiveNotification, HistoryNotification, Notification};
use crate::text::{
    contains_seq, contains_str, push_hexator, push_json_escaped, push_nl_br, push_u32_dec,
    spec_dec, spec_hexator, spec_json_escape, spec_nl_br,
};

verus! {

/// One operation asked of the renderer executor.  Each is performed by one
/// invocation of the renderer's command-line interface.
#[derive(Debug, PartialEq, Eq)]
pub enum RendererCmd {
    OpenWindow(String),
    CloseWindow(String),
    ToggleWindow(String),
    UpdateVar(String, String),
}

pub open spec fn cmd_is_open(c: RendererCmd, w: Seq<char>) -> bool {
    match c {
        RendererCmd::OpenWindow(x) => x@ == w,
        _ => false,
    }
}

pub open spec fn cmd_is_close(c: RendererCmd, w: Seq<char>) -> bool {
    match c {
        RendererCmd::CloseWindow(x) => x@ == w,
        _ => false,
    }
}

pub open spec fn cmd_is_toggle(c: RendererCmd, w: Seq<char>) -> bool {
    match c {
        RendererCmd::ToggleWindow(x) => x@ == w,
        _ => false,
    }
}

pub open spec fn cmd_is_update(c: RendererCmd, var: Seq<char>, val: Seq<char>) -> bool {
    match c {
        RendererCmd::UpdateVar(v, x) => v@ == var && x@ == val,
        _ => false,
    }
}

/// A field value as it stands inside the active-surface JSON: HTML-entity
/// escaping of the quotes first, then JSON string escaping.
pub open spec fn esc_field(s: Seq<char>) -> Seq<char> {
    spec_json_escape(spec_hexator(s))
}

/// The JSON object for one action of a notification.
pub open spec fn spec_action_json(a: (String, String)) -> Seq<char> {
    "{\"id\":\""@ + esc_field(a.0@) + "\",\"text\":\""@ + esc_field(a.1@) + "\"}"@
}

/// The first `i` actions as a comma-separated JSON array body.
pub open spec fn spec_actions_array(acts: Seq<(String, String)>, i: int) -> Seq<char>
    decreases i,
{
    if i <= 0 {
        Seq::empty()
    } else if i == 1 {
        spec_action_json(acts[0])
    } else {
        spec_actions_array(acts, i - 1) + ","@ + spec_action_json(acts[i - 1])
    }
}

/// The JSON object carried by one active-surface widget.  Keys are ordered
/// as the JSON serializer emits them: sorted.
pub open spec fn spec_notification_json(id: u32, n: Notification) -> Seq<char> {
    "{\"actions\":["@ + spec_actions_array(n.actions@, n.actions@.len() as int)
        + "],\"app_icon\":\""@ + esc_field(n.app_icon@) + "\",\"application\":\""@ + esc_field(
        n.app_name@,
    ) + "\",\"body\":\""@ + esc_field(n.body@) + "\",\"icon\":\""@ + esc_field(n.icon@)
        + "\",\"id\":"@ + spec_dec(id as int) + ",\"summary\":\""@ + esc_field(n.summary@)
        + "\",\"urgency\":\""@ + esc_field(n.urgency@) + "\"}"@
}

/// The widget expression for one active notification.
pub open spec fn spec_notif_widget(widget: Seq<char>, e: ActiveNotification) -> Seq<char> {
    "(box ("@ + widget + " :notification '"@ + spec_notification_json(e.id, e.notification)
        + "'))"@
}

/// The widget expressions of the first `i` active notifications, in order.
pub open spec fn spec_widgets(widget: Seq<char>, entries: Seq<ActiveNotification>, i: int) -> Seq<
    char,
>
    decreases i,
{
    if i <= 0 {
        Seq::empty()
    } else {
        spec_widgets(widget, entries, i - 1) + spec_notif_widget(widget, entries[i - 1])
    }
}

/// The opening of every payload: a box with the configured orientation.
pub open spec fn spec_payload_header(orientation: Seq<char>) -> Seq<char> {
    "(box :space-evenly false :orientation \""@ + orientation + "\" "@
}

/// The whole active-surface payload.
pub open spec fn spec_active_payload(cfg: Config, entries: Seq<ActiveNotification>) -> Seq<char> {
    spec_payload_header(cfg.notification_orientation@) + spec_widgets(
        cfg.eww_notification_widget@,
        entries,
        entries.len() as int,
    ) + ")"@
}

/// The JSON object carried by one history widget; history fields are not
/// entity-escaped, only JSON-escaped.
pub open spec fn spec_history_json(h: HistoryNotification) -> Seq<char> {
    "{\"app_icon\":\""@ + spec_json_escape(h.app_icon@) + "\",\"app_name\":\""@ + spec_json_escape(
        h.app_name@,
    ) + "\",\"body\":\""@ + spec_json_escape(h.body@) + "\",\"icon\":\""@ + spec_json_escape(
        h.icon@,
    ) + "\",\"summary\":\""@ + spec_json_escape(h.summary@) + "\",\"urgency\":\""@
        + spec_json_escape(h.urgency@) + "\"}"@
}

/// The widget expression for one history entry.
pub open spec fn spec_history_widget(widget: Seq<char>, h: HistoryNotification) -> Seq<char> {
    "(box ("@ + widget + " :history `"@ + spec_history_json(h) + "`))"@
}

/// The history widgets for the entries from index `hs.len() - 1` down to
/// `i`: the history surface shows the newest entry first.
pub open spec fn spec_history_widgets_from(
    widget: Seq<char>,
    hs: Seq<HistoryNotification>,
    i: int,
) -> Seq<char>
    decreases hs.len() - i,
{
    if i >= hs.len() {
        Seq::empty()
    } else {
        spec_history_widgets_from(widget, hs, i + 1) + spec_history_widget(widget, hs[i])
    }
}

/// The whole history-surface payload.
pub open spec fn spec_history_payload(cfg: Config, hs: Seq<HistoryNotification>) -> Seq<char> {
    spec_payload_header(cfg.notification_orientation@) + spec_history_widgets_from(
        cfg.eww_history_widget@,
        hs,
        0,
    ) + ")"@
}

/// The widget expression for the inline-reply surface.
pub open spec fn spec_reply_widget(cfg: Config, id: u32) -> Seq<char> {
    "(box ("@ + cfg.eww_reply_widget@ + " :id "@ + spec_dec(id as int) + "))"@
}

/// HTML-entity escaping of the two quote characters, as embedded JSON
/// values must carry them inside a widget expression.
pub fn quote_hexator(s: &str) -> (r: String)
    ensures
        r@ == spec_hexator(s@),
{
    let mut out = String::new();
    push_hexator(&mut out, s);
    proof {
        assert(out@ =~= spec_hexator(s@));
    }
    out
}

/// Appends an escaped active-surface field value.
fn push_esc_field(out: &mut String, s: &str)
    ensures
        final(out)@ == old(out)@ + esc_field(s@),
{
    let mut t = String::new();
    push_hexator(&mut t, s);
    push_json_escaped(out, t.as_str());
}

/// Appends the JSON object for one action.
fn push_action_json(out: &mut String, a: &(String, String))
    ensures
        final(out)@ == old(out)@ + spec_action_json(*a),
{
    out.append("{\"id\":\"");
    push_esc_field(out, a.0.as_str());
    out.append("\",\"text\":\"");
    push_esc_field(out, a.1.as_str());
    out.append("\"}");
    proof {
        assert(out@ =~= old(out)@ + spec_action_json(*a));
    }
}

/// Appends the JSON object for one active notification.
#[verifier::rlimit(50)]
fn push_notification_json(out: &mut String, id: u32, n: &Notification)
    ensures
        final(out)@ == old(out)@ + spec_notification_json(id, *n),
{
    out.append("{\"actions\":[");
    let mut i: usize = 0;
    let ghost mid = out@;
    while i < n.actions.len()
        invariant
            i <= n.actions@.len(),
            out@ == mid + spec_actions_array(n.actions@, i as int),
        decreases n.actions@.len() - i,
    {
        if i > 0 {
            out.append(",");
        }
        push_action_json(out, &n.actions[i]);
        i = i + 1;
        proof {
            assert(out@ =~= mid + spec_actions_array(n.actions@, i as int));
        }
    }
    out.append("],\"app_icon\":\"");
    push_esc_field(out, n.app_icon.as_str());
    out.append("\",\"application\":\"");
    push_esc_field(out, n.app_name.as_str());
    out.append("\",\"body\":\"");
    push_esc_field(out, n.body.as_str());
    out.append("\",\"icon\":\"");
    push_esc_field(out, n.icon.as_str());
    out.append("\",\"id\":");
    push_u32_dec(out, id);
    out.append(",\"summary\":\"");
    push_esc_field(out, n.summary.as_str());
    out.append("\",\"urgency\":\"");
    push_esc_field(out, n.urgency.as_str());
    out.append("\"}");
    proof {
        assert(out@ =~= old(out)@ + spec_notification_json(id, *n));
    }
}

/// Appends the widget expression for one active notification.
fn push_notif_widget(out: &mut String, cfg: &Config, e: &ActiveNotification)
    ensures
        final(out)@ == old(out)@ + spec_notif_widget(cfg.eww_notification_widget@, *e),
{
    out.append("(box (");
    out.append(cfg.eww_notification_widget.as_str());
    out.append(" :notification '");
    push_notification_json(out, e.id, &e.notification);
    out.append("'))");
    proof {
        assert(out@ =~= old(out)@ + spec_notif_widget(cfg.eww_notification_widget@, *e));
    }
}

/// The active-surface payload for the given entries, in table order.
pub fn eww_create_notifications_value(cfg: &Config, notifs: &Vec<ActiveNotification>) -> (r:
    String)
    ensures
        r@ == spec_active_payload(*cfg, notifs@),
{
    let mut out = String::new();
    out.append("(box :space-evenly false :orientation \"");
    out.append(cfg.notification_orientation.as_str());
    out.append("\" ");
    proof {
        assert(out@ =~= spec_payload_header(cfg.notification_orientation@));
    }
    let ghost header = out@;
    let mut i: usize = 0;
    while i < notifs.len()
        invariant
            i <= notifs@.len(),
            out@ == header + spec_widgets(cfg.eww_notification_widget@, notifs@, i as int),
        decreases notifs@.len() - i,
    {
        push_notif_widget(&mut out, cfg, &notifs[i]);
        i = i + 1;
        proof {
            assert(out@ =~= header + spec_widgets(cfg.eww_notification_widget@, notifs@, i as int));
        }
    }
    out.append(")");
    proof {
        assert(out@ =~= spec_active_payload(*cfg, notifs@));
    }
    out
}

/// Appends the JSON object for one history entry.
fn push_history_json(out: &mut String, h: &HistoryNotification)
    ensures
        final(out)@ == old(out)@ + spec_history_json(*h),
{
    out.append("{\"app_icon\":\"");
    push_json_escaped(out, h.app_icon.as_str());
    out.append("\",\"app_name\":\"");
    push_json_escaped(out, h.app_name.as_str());
    out.append("\",\"body\":\"");
    push_json_escaped(out, h.body.as_str());
    out.append("\",\"icon\":\"");
    push_json_escaped(out, h.icon.as_str());
    out.append("\",\"summary\":\"");
    push_json_escaped(out, h.summary.as_str());
    out.append("\",\"urgency\":\"");
    push_json_escaped(out, h.urgency.as_str());
    out.append("\"}");
    proof {
        assert(out@ =~= old(out)@ + spec_history_json(*h));
    }
}

/// Appends the widget expression for one history entry.
fn push_history_widget(out: &mut String, cfg: &Config, h: &HistoryNotification)
    ensures
        final(out)@ == old(out)@ + spec_history_widget(cfg.eww_history_widget@, *h),
{
    out.append("(box (");
    out.append(cfg.eww_history_widget.as_str());
    out.append(" :history `");
    push_history_json(out, h);
    out.append("`))");
    proof {
        assert(out@ =~= old(out)@ + spec_history_widget(cfg.eww_history_widget@, *h));
    }
}

/// The history-surface payload, newest entry first.
pub fn eww_create_history_value(cfg: &Config, history: &Vec<HistoryNotification>) -> (r: String)
    ensures
        r@ == spec_history_payload(*cfg, history@),
{
    let mut out = String::new();
    out.append("(box :space-evenly false :orientation \"");
    out.append(cfg.notification_orientation.as_str());
    out.append("\" ");
    proof {
        assert(out@ =~= spec_payload_header(cfg.notification_orientation@));
    }
    let ghost header = out@;
    let mut i: usize = history.len();
    while i > 0
        invariant
            i <= history@.len(),
            out@ == header + spec_history_widgets_from(cfg.eww_history_widget@, history@, i as int),
        decreases i,
    {
        i = i - 1;
        push_history_widget(&mut out, cfg, &history[i]);
        proof {
            assert(out@ =~= header + spec_history_widgets_from(
                cfg.eww_history_widget@,
                history@,
                i as int,
            ));
        }
    }
    out.append(")");
    proof {
        assert(out@ =~= spec_history_payload(*cfg, history@));
    }
    out
}

/// The widget expression opened for an inline reply to notification `id`.
pub fn eww_create_reply_widget(cfg: &Config, id: u32) -> (r: String)
    ensures
        r@ == spec_reply_widget(*cfg, id),
{
    let mut out = String::new();
    out.append("(box (");
    out.append(cfg.eww_reply_widget.as_str());
    out.append(" :id ");
    push_u32_dec(&mut out, id);
    out.append("))");
    proof {
        assert(out@ =~= spec_reply_widget(*cfg, id));
    }
    out
}

/// The line the renderer prints for an open window named `w`.
pub open spec fn spec_window_entry(w: Seq<char>) -> Seq<char> {
    w + ": "@ + w + "\n"@
}

/// Whether the output of the renderer's window listing shows `window` as
/// open.
pub fn window_listed(output: &str, window: &str) -> (r: bool)
    ensures
        r == contains_seq(output@, spec_window_entry(window@)),
{
    let mut needle = String::new();
    needle.append(window);
    needle.append(": ");
    needle.append(window);
    needle.append("\n");
    proof {
        assert(needle@ =~= spec_window_entry(window@));
    }
    contains_str(output, needle.as_str())
}

/// The renderer invocation that lists the open windows.
pub fn eww_active_windows_command(cfg: &Config) -> (r: String)
    ensures
        r@ == cfg.eww_binary_path@ + " active-windows"@,
{
    let mut out = String::new();
    out.append(cfg.eww_binary_path.as_str());
    out.append(" active-windows");
    proof {
        assert(out@ =~= cfg.eww_binary_path@ + " active-windows"@);
    }
    out
}

/// The renderer invocation that opens `window`.
pub fn eww_open_command(cfg: &Config, window: &str) -> (r: String)
    ensures
        r@ == cfg.eww_binary_path@ + " open "@ + window@,
{
    let mut out = String::new();
    out.append(cfg.eww_binary_path.as_str());
    out.append(" open ");
    out.append(window);
    proof {
        assert(out@ =~= cfg.eww_binary_path@ + " open "@ + window@);
    }
    out
}

/// The renderer invocation that closes `window`.
pub fn eww_close_command(cfg: &Config, window: &str) -> (r: String)
    ensures
        r@ == cfg.eww_binary_path@ + " close "@ + window@,
{
    let mut out = String::new();
    out.append(cfg.eww_binary_path.as_str());
    out.append(" close ");
    out.append(window);
    proof {
        assert(out@ =~= cfg.eww_binary_path@ + " close "@ + window@);
    }
    out
}

/// The renderer invocation that toggles `window`.
pub fn eww_toggle_command(cfg: &Config, window: &str) -> (r: String)
    ensures
        r@ == cfg.eww_binary_path@ + " open --toggle "@ + window@,
{
    let mut out = String::new();
    out.append(cfg.eww_binary_path.as_str());
    out.append(" open --toggle ");
    out.append(window);
    proof {
        assert(out@ =~= cfg.eww_binary_path@ + " open --toggle "@ + window@);
    }
    out
}

/// What a renderer variable is set to on the command line: the value is
/// shell-quoted, then every newline becomes `<br>`.
pub open spec fn spec_update_value(value: Seq<char>) -> Seq<char> {
    spec_nl_br(shell_quoted(value))
}

/// The result of shell-quoting a nul-free string, as the `shlex` crate
/// computes it; the result depends on the characters of the string alone.
pub uninterp spec fn shell_quoted(s: Seq<char>) -> Seq<char>;

/// Relies on `shlex::try_quote`: quotes a word for `sh`, failing exactly
/// when the input contains a nul character.
#[verifier::external_body]
fn try_shell_quote(s: &str) -> (r: Option<String>)
    ensures
        match r {
            Some(q) => nul_free(s@) && q@ == shell_quoted(s@),
            None => !nul_free(s@),
        },
{
    match shlex::try_quote(s) {
        Ok(q) => Some(q.into_owned()),
        Err(_) => None,
    }
}

/// The renderer invocation that sets variable `var` to `value`; a value
/// with a nul character cannot be quoted and yields `None`.
pub fn eww_update_command(cfg: &Config, var: &str, value: &str) -> (r: Option<String>)
    ensures
        match r {
            Some(c) => nul_free(value@) && c@ == cfg.eww_binary_path@ + " update "@ + var@ + "="@
                + spec_update_value(value@),
            None => !nul_free(value@),
        },
{
    match try_shell_quote(value) {
        Some(q) => {
            let mut out = String::new();
            out.append(cfg.eww_binary_path.as_str());
            out.append(" update ");
            out.append(var);
            out.append("=");
            push_nl_br(&mut out, q.as_str());
            proof {
                assert(out@ =~= cfg.eww_binary_path@ + " update "@ + var@ + "="@
                    + spec_update_value(value@));
            }
            Some(out)
        },
        None => None,
    }
}

/// Pushes one open command for every window of the notification surface.
fn push_open_windows(cfg: &Config, out: &mut Vec<RendererCmd>)
    ensures
        final(out)@.len() == old(out)@.len() + cfg.eww_notification_window.spec_windows().len(),
        forall|k: int| 0 <= k < old(out)@.len() ==> final(out)@[k] == old(out)@[k],
        forall|k: int|
            old(out)@.len() <= k < final(out)@.len() ==> cmd_is_open(
                #[trigger] final(out)@[k],
                cfg.eww_notification_window.spec_windows()[k - old(out)@.len()],
            ),
{
    match &cfg.eww_notification_window {
        NotificationWindow::Single(w) => {
            out.push(RendererCmd::OpenWindow(w.clone()));
        },
        NotificationWindow::Multiple(ws) => {
            let mut i: usize = 0;
            while i < ws.len()
                invariant
                    i <= ws@.len(),
                    cfg.eww_notification_window == NotificationWindow::Multiple(*ws),
                    out@.len() == old(out)@.len() + i,
                    forall|k: int| 0 <= k < old(out)@.len() ==> out@[k] == old(out)@[k],
                    forall|k: int|
                        old(out)@.len() <= k < out@.len() ==> cmd_is_open(
                            #[trigger] out@[k],
                            ws@[k - old(out)@.len()]@,
                        ),
                decreases ws@.len() - i,
            {
                out.push(RendererCmd::OpenWindow(ws[i].clone()));
                i = i + 1;
            }
        },
    }
}

/// Pushes one close command for every window of the notification surface.
fn push_close_windows(cfg: &Config, out: &mut Vec<RendererCmd>)
    ensures
        final(out)@.len() == old(out)@.len() + cfg.eww_notification_window.spec_windows().len(),
        forall|k: int| 0 <= k < old(out)@.len() ==> final(out)@[k] == old(out)@[k],
        forall|k: int|
            old(out)@.len() <= k < final(out)@.len() ==> cmd_is_close(
                #[trigger] final(out)@[k],
                cfg.eww_notification_window.spec_windows()[k - old(out)@.len()],
            ),
{
    match &cfg.eww_notification_window {
        NotificationWindow::Single(w) => {
            out.push(RendererCmd::CloseWindow(w.clone()));
        },
        NotificationWindow::Multiple(ws) => {
            let mut i: usize = 0;
            while i < ws.len()
                invariant
                    i <= ws@.len(),
                    cfg.eww_notification_window == NotificationWindow::Multiple(*ws),
                    out@.len() == old(out)@.len() + i,
                    forall|k: int| 0 <= k < old(out)@.len() ==> out@[k] == old(out)@[k],
                    forall|k: int|
                        old(out)@.len() <= k < out@.len() ==> cmd_is_close(
                            #[trigger] out@[k],
                            ws@[k - old(out)@.len()]@,
                        ),
                decreases ws@.len() - i,
            {
                out.push(RendererCmd::CloseWindow(ws[i].clone()));
                i = i + 1;
            }
        },
    }
}

/// The commands that refresh the notification surface: set its variable to
/// the payload for `notifs`, then make sure every window of the surface is
/// open.
pub fn eww_update_notifications(cfg: &Config, notifs: &Vec<ActiveNotification>) -> (r: Vec<
    RendererCmd,
>)
    ensures
        r@.len() == 1 + cfg.eww_notification_window.spec_windows().len(),
        cmd_is_update(r@[0], cfg.eww_notification_var@, spec_active_payload(*cfg, notifs@)),
        forall|k: int|
            1 <= k < r@.len() ==> cmd_is_open(
                #[trigger] r@[k],
                cfg.eww_notification_window.spec_windows()[k - 1],
            ),
{
    let payload = eww_create_notifications_value(cfg, notifs);
    let mut out: Vec<RendererCmd> = Vec::new();
    out.push(RendererCmd::UpdateVar(cfg.eww_notification_var.clone(), payload));
    push_open_windows(cfg, &mut out);
    out
}

/// The commands that close every window of the notification surface.
pub fn eww_close_notifications(cfg: &Config) -> (r: Vec<RendererCmd>)
    ensures
        r@.len() == cfg.eww_notification_window.spec_windows().len(),
        forall|k: int|
            0 <= k < r@.len() ==> cmd_is_close(
                #[trigger] r@[k],
                cfg.eww_notification_window.spec_windows()[k],
            ),
{
    let mut out: Vec<RendererCmd> = Vec::new();
    push_close_windows(cfg, &mut out);
    out
}

/// The command that refreshes the history surface's variable.
pub fn eww_update_history(cfg: &Config, history: &Vec<HistoryNotification>) -> (r: Vec<
    RendererCmd,
>)
    ensures
        r@.len() == 1,
        cmd_is_update(r@[0], cfg.eww_history_var@, spec_history_payload(*cfg, history@)),
{
    let payload = eww_create_history_value(cfg, history);
    let mut out: Vec<RendererCmd> = Vec::new();
    out.push(RendererCmd::UpdateVar(cfg.eww_history_var.clone(), payload));
    out
}

/// The commands that refresh the history surface and open its window.
pub fn eww_update_and_open_history(cfg: &Config, history: &Vec<HistoryNotification>) -> (r: Vec<
    RendererCmd,
>)
    ensures
        r@.len() == 2,
        cmd_is_update(r@[0], cfg.eww_history_var@, spec_history_payload(*cfg, history@)),
        cmd_is_open(r@[1], cfg.eww_history_window@),
{
    let mut out = eww_update_history(cfg, history);
    out.push(RendererCmd::OpenWindow(cfg.eww_history_window.clone()));
    out
}

/// The command that closes the history window.
pub fn eww_close_history(cfg: &Config) -> (r: Vec<RendererCmd>)
    ensures
        r@.len() == 1,
        cmd_is_close(r@[0], cfg.eww_history_window@),
{
    let mut out: Vec<RendererCmd> = Vec::new();
    out.push(RendererCmd::CloseWindow(cfg.eww_history_window.clone()));
    out
}

/// The commands that refresh the history surface and toggle its window.
pub fn eww_toggle_history(cfg: &Config, history: &Vec<HistoryNotification>) -> (r: Vec<
    RendererCmd,
>)
    ensures
        r@.len() == 2,
        cmd_is_update(r@[0], cfg.eww_history_var@, spec_history_payload(*cfg, history@)),
        cmd_is_toggle(r@[1], cfg.eww_history_window@),
{
    let mut out = eww_update_history(cfg, history);
    out.push(RendererCmd::ToggleWindow(cfg.eww_history_window.clone()));
    out
}

} // verus!
