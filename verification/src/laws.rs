//! Properties of the daemon's transitions that relate several operations,
//! stated and proved over the same spec functions that the operations'
//! contracts use.

use vstd::prelude::*;

use crate::config::Config;
use crate::ewwface::RendererCmd;
use crate::notifdaemon::{spec_refresh_cmds, spec_removed_post, spec_timer_acts,
    spec_tombstone_post, spec_trimmed};
use crate::registry::{idx_of, ids_unique, seq_has_id, ActiveNotification, HistoryNotification};

verus! {

/// Id freshness: `notify` with `replaces_id = 0` returns `next_id + 1` and
/// advances `next_id` by one (its contract), so a run of `k` such calls
/// starting from counter `next0` returns the ids `next0 + 1, ..., next0 + k`
/// — and those are pairwise distinct.
pub proof fn lemma_fresh_ids_distinct(next0: u32, k: nat)
    requires
        next0 + k <= u32::MAX,
    ensures
        ({
            let ids = Seq::<u32>::new(k, |i: int| (next0 + i + 1) as u32);
            forall|p: int, q: int| 0 <= p < q < k ==> ids[p] != ids[q]
        }),
{
    let ids = Seq::<u32>::new(k, |i: int| (next0 + i + 1) as u32);
    assert forall|p: int, q: int| 0 <= p < q < k implies ids[p] != ids[q] by {
        assert(ids[p] == (next0 + p + 1) as u32);
        assert(ids[q] == (next0 + q + 1) as u32);
    }
}

/// Tombstoning blocks expiry: after `disable_timeout(id)` the entry is
/// still present, and a pending timer for it — whatever generation it
/// carries — no longer acts; so `timer_fired`, whose contract leaves the
/// state unchanged whenever `spec_timer_acts` is false, leaves the entry
/// in the table.
pub proof fn lemma_tombstone_blocks_expiry(
    pre: Seq<ActiveNotification>,
    mid: Seq<ActiveNotification>,
    id: u32,
    generation: u64,
)
    requires
        ids_unique(pre),
        seq_has_id(pre, id),
        spec_tombstone_post(pre, mid, id),
    ensures
        seq_has_id(mid, id),
        !spec_timer_acts(mid, id, generation),
{
    let i = idx_of(pre, id);
    assert(pre[i].id == id);
    assert(mid[i].id == id);
    assert(seq_has_id(mid, id));
    let j = idx_of(mid, id);
    assert(mid[j].id == id);
    if j != i {
        assert(mid[j] == pre[j]);
        assert(pre[j].id == id);
        assert(false);
    }
    assert(mid[i].notification.timeout_cancelled);
}

/// Replacement blocks the stale expiry: `notify` with `replaces_id = id`
/// over a live entry installs the replacement with a fresh timer
/// generation — `timer_seq + 1`, strictly above every generation handed
/// out before (its contract, with the well-formedness bound on entry
/// generations) — so the replaced entry's pending timer no longer acts,
/// and `timer_fired` leaves the replacement in the table.
pub proof fn lemma_replacement_blocks_stale_expiry(
    post: Seq<ActiveNotification>,
    id: u32,
    stale_generation: u64,
    fresh_generation: u64,
)
    requires
        seq_has_id(post, id),
        post[idx_of(post, id)].notification.timer_generation == fresh_generation,
        stale_generation < fresh_generation,
    ensures
        seq_has_id(post, id),
        !spec_timer_acts(post, id, stale_generation),
{
}

/// At most one `NotificationClosed` per id: every transition that emits the
/// signal for `id` does so only when `id` is in the table, and removes it in
/// the same step; afterwards the id is absent, and stays absent until a
/// `Notify` reuses it.
pub proof fn lemma_close_signal_at_most_once(
    pre: Seq<ActiveNotification>,
    post: Seq<ActiveNotification>,
    id: u32,
)
    requires
        ids_unique(pre),
        spec_removed_post(pre, post, id),
    ensures
        !seq_has_id(post, id),
{
    if seq_has_id(pre, id) {
        let i = idx_of(pre, id);
        assert(pre[i].id == id);
        assert(post == pre.remove(i));
        assert forall|k: int| 0 <= k < post.len() implies post[k].id != id by {
            if k < i {
                assert(post[k] == pre[k]);
            } else {
                assert(post[k] == pre[k + 1]);
            }
        }
    }
}

/// The number of window-close commands in a command sequence.
pub open spec fn count_close_cmds(cmds: Seq<RendererCmd>) -> int
    decreases cmds.len(),
{
    if cmds.len() == 0 {
        0
    } else {
        count_close_cmds(cmds.drop_last()) + (if cmds.last() is CloseWindow {
            1int
        } else {
            0int
        })
    }
}

/// In a sequence whose first `a` commands are not closes and whose rest all
/// are, exactly `len - a` commands are closes.
proof fn lemma_count_close_split(cmds: Seq<RendererCmd>, a: int)
    requires
        0 <= a <= cmds.len(),
        forall|k: int| 0 <= k < a ==> !((#[trigger] cmds[k]) is CloseWindow),
        forall|k: int| a <= k < cmds.len() ==> (#[trigger] cmds[k]) is CloseWindow,
    ensures
        count_close_cmds(cmds) == cmds.len() - a,
    decreases cmds.len(),
{
    if cmds.len() > 0 {
        if a == cmds.len() {
            lemma_count_close_split(cmds.drop_last(), a - 1);
        } else {
            lemma_count_close_split(cmds.drop_last(), a);
        }
    }
}

/// Exactly one close per surface window when the table empties: the
/// refresh commands of any removing transition contain one close command
/// per configured window if the table became empty, and none otherwise.
pub proof fn lemma_close_window_iff_empty(
    cfg: Config,
    active: Seq<ActiveNotification>,
    cmds: Seq<RendererCmd>,
)
    requires
        spec_refresh_cmds(cfg, active, cmds),
    ensures
        count_close_cmds(cmds) == if active.len() == 0 {
            cfg.eww_notification_window.spec_windows().len() as int
        } else {
            0int
        },
{
    let w = cfg.eww_notification_window.spec_windows();
    assert forall|k: int| 0 <= k < 1 + w.len() implies !((#[trigger] cmds[k]) is CloseWindow) by {
        if k == 0 {
        } else {
            assert(crate::ewwface::cmd_is_open(cmds[k], w[k - 1]));
        }
    }
    lemma_count_close_split(cmds, 1 + w.len() as int);
}

/// The history bound is an invariant: appending one entry and trimming at
/// the front keeps any history within the bound it already respected.
pub proof fn lemma_history_bound_preserved(
    h: Seq<HistoryNotification>,
    e: HistoryNotification,
    max: int,
)
    requires
        0 <= max,
        h.len() <= max,
    ensures
        spec_trimmed(h.push(e), max).len() <= max,
{
}

} // verus!
