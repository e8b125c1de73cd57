//! The registry: the table of active notifications, keyed by id, and the
//! bounded history of past notifications.

use vstd::prelude::*;

verus! {

/// A live notification, as held in the active table.  `timer_generation`
/// identifies the expiry task that belongs to this entry, the way the
/// original's stored task handle did: a timer whose generation no longer
/// matches the entry's is stale and must not act.
#[derive(Debug)]
pub struct Notification {
    pub app_name: String,
    pub icon: String,
    pub app_icon: String,
    pub summary: String,
    pub body: String,
    pub urgency: String,
    pub actions: Vec<(String, String)>,
    pub timeout_cancelled: bool,
    pub timer_generation: u64,
}

/// An immutable snapshot of a notification kept for the history surface.
#[derive(Debug)]
pub struct HistoryNotification {
    pub app_name: String,
    pub icon: String,
    pub app_icon: String,
    pub summary: String,
    pub body: String,
    pub urgency: String,
}

/// An entry of the active table: a notification together with its id.
#[derive(Debug)]
pub struct ActiveNotification {
    pub id: u32,
    pub notification: Notification,
}

/// The ids of a sequence of active entries are pairwise distinct.
pub open spec fn ids_unique(s: Seq<ActiveNotification>) -> bool {
    forall|i: int, j: int| 0 <= i < j < s.len() ==> s[i].id != s[j].id
}

/// Some entry of `s` carries the id.
pub open spec fn seq_has_id(s: Seq<ActiveNotification>, id: u32) -> bool {
    exists|i: int| 0 <= i < s.len() && s[i].id == id
}

/// The index of the entry carrying `id`; meaningful only when `seq_has_id`
/// holds (and unique when `ids_unique` holds).
pub open spec fn idx_of(s: Seq<ActiveNotification>, id: u32) -> int {
    choose|i: int| 0 <= i < s.len() && s[i].id == id
}

/// `b` is `a` with its expiry tombstone set and everything else unchanged.
pub open spec fn tombstoned(a: ActiveNotification, b: ActiveNotification) -> bool {
    &&& b.id == a.id
    &&& b.notification.app_name == a.notification.app_name
    &&& b.notification.icon == a.notification.icon
    &&& b.notification.app_icon == a.notification.app_icon
    &&& b.notification.summary == a.notification.summary
    &&& b.notification.body == a.notification.body
    &&& b.notification.urgency == a.notification.urgency
    &&& b.notification.actions == a.notification.actions
    &&& b.notification.timeout_cancelled == true
    &&& b.notification.timer_generation == a.notification.timer_generation
}

/// `b` is `a` with its action list emptied and everything else unchanged.
pub open spec fn actions_cleared(a: ActiveNotification, b: ActiveNotification) -> bool {
    &&& b.id == a.id
    &&& b.notification.app_name == a.notification.app_name
    &&& b.notification.icon == a.notification.icon
    &&& b.notification.app_icon == a.notification.app_icon
    &&& b.notification.summary == a.notification.summary
    &&& b.notification.body == a.notification.body
    &&& b.notification.urgency == a.notification.urgency
    &&& b.notification.actions@ == Seq::<(String, String)>::empty()
    &&& b.notification.timeout_cancelled == a.notification.timeout_cancelled
    &&& b.notification.timer_generation == a.notification.timer_generation
}

/// The shared mutable state of the daemon: active table, history ring and the
/// id counter used when a client does not name an id itself.
pub struct Registry {
    pub active: Vec<ActiveNotification>,
    pub history: Vec<HistoryNotification>,
    pub next_id: u32,
}

impl Registry {
    /// Ids in the active table are unique and the history respects its bound.
    pub open spec fn wf(self, max: nat) -> bool {
        &&& ids_unique(self.active@)
        &&& self.history@.len() <= max
    }

    pub open spec fn has_id(self, id: u32) -> bool {
        seq_has_id(self.active@, id)
    }

    pub fn new() -> (r: Registry)
        ensures
            r.active@ == Seq::<ActiveNotification>::empty(),
            r.history@ == Seq::<HistoryNotification>::empty(),
            r.next_id == 0,
    {
        Registry { active: Vec::new(), history: Vec::new(), next_id: 0 }
    }

    /// The index of the active entry with the given id, if any.
    pub fn find_index(&self, id: u32) -> (r: Option<usize>)
        ensures
            match r {
                Some(i) => i < self.active@.len() && self.active@[i as int].id == id,
                None => !self.has_id(id),
            },
    {
        let mut i: usize = 0;
        while i < self.active.len()
            invariant
                i <= self.active@.len(),
                forall|j: int| 0 <= j < i ==> self.active@[j].id != id,
            decreases self.active@.len() - i,
        {
            if self.active[i].id == id {
                return Some(i);
            }
            i = i + 1;
        }
        None
    }

    /// Inserts the notification under `id`, overwriting any entry already
    /// carrying that id and keeping its position; a fresh id is appended.
    pub fn insert_or_replace(&mut self, id: u32, notification: Notification)
        requires
            ids_unique(old(self).active@),
        ensures
            final(self).history == old(self).history,
            final(self).next_id == old(self).next_id,
            ids_unique(final(self).active@),
            final(self).has_id(id),
            old(self).has_id(id) ==> {
                let i = idx_of(old(self).active@, id);
                final(self).active@ =~= old(self).active@.update(
                    i,
                    ActiveNotification { id, notification },
                )
            },
            !old(self).has_id(id) ==> final(self).active@ =~= old(self).active@.push(
                ActiveNotification { id, notification },
            ),
    {
        let entry = ActiveNotification { id, notification };
        match self.find_index(id) {
            Some(i) => {
                self.active.remove(i);
                self.active.insert(i, entry);
                proof {
                    let oa = old(self).active@;
                    assert(oa[idx_of(oa, id)].id == id);
                    assert(idx_of(oa, id) == i as int);
                    assert(self.active@ =~= oa.update(i as int, entry));
                    assert(self.active@[i as int].id == id);
                }
            },
            None => {
                self.active.push(entry);
                proof {
                    assert(self.active@[self.active@.len() - 1].id == id);
                }
            },
        }
    }

    /// Removes and returns the entry carrying `id`, if present.
    pub fn remove(&mut self, id: u32) -> (r: Option<Notification>)
        requires
            ids_unique(old(self).active@),
        ensures
            final(self).history == old(self).history,
            final(self).next_id == old(self).next_id,
            ids_unique(final(self).active@),
            !final(self).has_id(id),
            old(self).has_id(id) ==> {
                let i = idx_of(old(self).active@, id);
                &&& r == Some(old(self).active@[i].notification)
                &&& final(self).active@ =~= old(self).active@.remove(i)
            },
            !old(self).has_id(id) ==> r is None && final(self).active@ == old(self).active@,
    {
        match self.find_index(id) {
            Some(i) => {
                let entry = self.active.remove(i);
                proof {
                    let oa = old(self).active@;
                    assert(oa[idx_of(oa, id)].id == id);
                    assert(idx_of(oa, id) == i as int);
                    assert(forall|k: int|
                        0 <= k < self.active@.len() ==> self.active@[k].id != id);
                }
                Some(entry.notification)
            },
            None => None,
        }
    }

    /// Marks the entry carrying `id`, if any, so that a pending expiry task
    /// will not act on it.  Returns whether the id was found.
    pub fn disable_timeout(&mut self, id: u32) -> (found: bool)
        requires
            ids_unique(old(self).active@),
        ensures
            final(self).history == old(self).history,
            final(self).next_id == old(self).next_id,
            ids_unique(final(self).active@),
            found == old(self).has_id(id),
            old(self).has_id(id) ==> {
                let i = idx_of(old(self).active@, id);
                &&& final(self).active@.len() == old(self).active@.len()
                &&& forall|j: int|
                    0 <= j < old(self).active@.len() && j != i ==> final(self).active@[j] == old(
                        self,
                    ).active@[j]
                &&& tombstoned(old(self).active@[i], final(self).active@[i])
            },
            !old(self).has_id(id) ==> final(self).active@ == old(self).active@,
    {
        match self.find_index(id) {
            Some(i) => {
                let mut entry = self.active.remove(i);
                entry.notification.timeout_cancelled = true;
                self.active.insert(i, entry);
                proof {
                    let oa = old(self).active@;
                    assert(oa[idx_of(oa, id)].id == id);
                    assert(idx_of(oa, id) == i as int);
                }
                true
            },
            None => false,
        }
    }

    /// Empties the action list of the entry carrying `id`, if any.  Returns
    /// whether the id was found.
    pub fn clear_actions(&mut self, id: u32) -> (found: bool)
        requires
            ids_unique(old(self).active@),
        ensures
            final(self).history == old(self).history,
            final(self).next_id == old(self).next_id,
            ids_unique(final(self).active@),
            found == old(self).has_id(id),
            old(self).has_id(id) ==> {
                let i = idx_of(old(self).active@, id);
                &&& final(self).active@.len() == old(self).active@.len()
                &&& forall|j: int|
                    0 <= j < old(self).active@.len() && j != i ==> final(self).active@[j] == old(
                        self,
                    ).active@[j]
                &&& actions_cleared(old(self).active@[i], final(self).active@[i])
            },
            !old(self).has_id(id) ==> final(self).active@ == old(self).active@,
    {
        match self.find_index(id) {
            Some(i) => {
                let mut entry = self.active.remove(i);
                entry.notification.actions = Vec::new();
                self.active.insert(i, entry);
                proof {
                    let oa = old(self).active@;
                    assert(oa[idx_of(oa, id)].id == id);
                    assert(idx_of(oa, id) == i as int);
                }
                true
            },
            None => false,
        }
    }

    /// Appends a history entry, evicting the oldest one if the bound `max`
    /// would be exceeded.
    pub fn history_append(&mut self, entry: HistoryNotification, max: u32)
        ensures
            final(self).active == old(self).active,
            final(self).next_id == old(self).next_id,
            ({
                let grown = old(self).history@.push(entry);
                final(self).history@ == if grown.len() > max {
                    grown.subrange(1, grown.len() as int)
                } else {
                    grown
                }
            }),
            old(self).history@.len() <= max ==> final(self).history@.len() <= max,
    {
        self.history.push(entry);
        if self.history.len() > max as usize {
            self.history.remove(0);
            proof {
                let grown = old(self).history@.push(entry);
                assert(self.history@ =~= grown.subrange(1, grown.len() as int));
            }
        }
    }
}

} // verus!
