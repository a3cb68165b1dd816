use vstd::prelude::*;

verus! {

/// How a notification is presented.
#[derive(Debug, Clone, Copy, PartialEq, Eq, Structural)]
pub enum Severity {
    Info,
    Danger,
}

/// A transient notification; `id` is its identity in the queue.
#[derive(Debug, Clone)]
pub struct Toast {
    pub id: u64,
    pub body: String,
    pub severity: Severity,
}

pub struct ToastView {
    pub id: u64,
    pub body: Seq<char>,
    pub severity: Severity,
}

impl View for Toast {
    type V = ToastView;

    open spec fn view(&self) -> ToastView {
        ToastView { id: self.id, body: self.body@, severity: self.severity }
    }
}

/// The notification queue in insertion order, and the identity the next entry gets.
pub struct ToastsView {
    pub entries: Seq<ToastView>,
    pub next_id: u64,
}

impl ToastsView {
    /// Every identity is below `next_id`, and identities increase along the queue.
    pub open spec fn wf(self) -> bool {
        &&& forall|i: int| 0 <= i < self.entries.len() ==> self.entries[i].id < self.next_id
        &&& forall|i: int, j: int|
            0 <= i < j < self.entries.len() ==> self.entries[i].id < self.entries[j].id
    }

    /// The queue after appending a notification. Once identities are exhausted
    /// the queue stays as it is.
    pub open spec fn pushed(self, body: Seq<char>, severity: Severity) -> ToastsView {
        if self.next_id < u64::MAX {
            ToastsView {
                entries: self.entries.push(ToastView { id: self.next_id, body, severity }),
                next_id: (self.next_id + 1) as u64,
            }
        } else {
            self
        }
    }

    pub open spec fn has_id(self, id: u64) -> bool {
        exists|i: int| 0 <= i < self.entries.len() && self.entries[i].id == id
    }

    /// The queue without the entry of identity `id`, if it has one.
    pub open spec fn dismissed(self, id: u64) -> ToastsView {
        if self.has_id(id) {
            let i = choose|i: int| 0 <= i < self.entries.len() && self.entries[i].id == id;
            ToastsView { entries: self.entries.remove(i), next_id: self.next_id }
        } else {
            self
        }
    }
}

/// Dismissing an identity that is present removes exactly one entry, the one
/// with that identity, and keeps the other entries in their order.
pub proof fn lemma_dismiss_removes_exactly_one(t: ToastsView, id: u64)
    requires
        t.wf(),
        t.has_id(id),
    ensures
        t.dismissed(id).entries.len() == t.entries.len() - 1,
        !t.dismissed(id).has_id(id),
        exists|i: int|
            0 <= i < t.entries.len() && t.entries[i].id == id && t.dismissed(id).entries
                == t.entries.remove(i),
        t.dismissed(id).wf(),
{
    let i = choose|i: int| 0 <= i < t.entries.len() && t.entries[i].id == id;
    let r = t.dismissed(id).entries;
    assert(r == t.entries.remove(i));
    assert forall|j: int| 0 <= j < r.len() implies r[j].id != id by {
        let k = if j < i { j } else { j + 1 };
        assert(r[j] == t.entries[k]);
        if k < i {
            assert(t.entries[k].id < t.entries[i].id);
        } else {
            assert(t.entries[i].id < t.entries[k].id);
        }
    }
    assert forall|a: int, b: int| 0 <= a < b < r.len() implies r[a].id < r[b].id by {
        let ka = if a < i { a } else { a + 1 };
        let kb = if b < i { b } else { b + 1 };
        assert(r[a] == t.entries[ka]);
        assert(r[b] == t.entries[kb]);
    }
}

#[derive(Debug, Clone)]
pub struct ToastQueue {
    toasts: Vec<Toast>,
    next_id: u64,
}

impl View for ToastQueue {
    type V = ToastsView;

    closed spec fn view(&self) -> ToastsView {
        ToastsView {
            entries: self.toasts@.map_values(|t: Toast| t@),
            next_id: self.next_id,
        }
    }
}

impl ToastQueue {
    pub fn new() -> (r: ToastQueue)
        ensures
            r@.entries.len() == 0,
            r@.next_id == 0,
            r@.wf(),
    {
        ToastQueue { toasts: Vec::new(), next_id: 0 }
    }

    pub fn len(&self) -> (r: usize)
        ensures
            r == self@.entries.len(),
    {
        self.toasts.len()
    }

    pub fn get(&self, i: usize) -> (r: &Toast)
        requires
            i < self@.entries.len(),
        ensures
            r@ == self@.entries[i as int],
    {
        &self.toasts[i]
    }

    /// Appends a notification and returns its identity, or `None` once
    /// identities are exhausted.
    pub fn push(&mut self, body: String, severity: Severity) -> (r: Option<u64>)
        ensures
            final(self)@ == old(self)@.pushed(body@, severity),
            r == (if old(self)@.next_id < u64::MAX {
                Some(old(self)@.next_id)
            } else {
                None
            }),
            old(self)@.wf() ==> final(self)@.wf(),
    {
        if self.next_id == u64::MAX {
            return None;
        }
        let id: u64 = self.next_id;
        self.toasts.push(Toast { id, body, severity });
        self.next_id = id + 1;
        assert(self@.entries =~= old(self)@.pushed(body@, severity).entries);
        Some(id)
    }

    /// Removes the notification of identity `id`, if there is one.
    pub fn dismiss(&mut self, id: u64)
        requires
            old(self)@.wf(),
        ensures
            final(self)@ == old(self)@.dismissed(id),
            final(self)@.wf(),
    {
        let mut i: usize = 0;
        while i < self.toasts.len()
            invariant
                i <= self.toasts@.len(),
                self@ == old(self)@,
                old(self)@.wf(),
                forall|j: int| 0 <= j < i ==> self.toasts@[j].id != id,
            decreases self.toasts@.len() - i,
        {
            if self.toasts[i].id == id {
                proof {
                    let ghost v = old(self)@;
                    assert(v.entries[i as int].id == id);
                    assert(v.has_id(id));
                    let k = choose|k: int| 0 <= k < v.entries.len() && v.entries[k].id == id;
                    if k < i {
                        assert(v.entries[k].id < v.entries[i as int].id);
                    } else if k > i {
                        assert(v.entries[i as int].id < v.entries[k].id);
                    }
                    assert(k == i);
                }
                self.toasts.remove(i);
                assert(self@.entries =~= old(self)@.entries.remove(i as int));
                assert forall|a: int, b: int| 0 <= a < b < self@.entries.len() implies
                    self@.entries[a].id < self@.entries[b].id by {
                    let ghost v = old(self)@;
                    let ia = if a < i { a } else { a + 1 };
                    let ib = if b < i { b } else { b + 1 };
                    assert(self@.entries[a] == v.entries[ia]);
                    assert(self@.entries[b] == v.entries[ib]);
                }
                return;
            }
            i = i + 1;
        }
        assert(!self@.has_id(id));
    }
}

} // verus!
