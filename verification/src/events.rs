//! Event tables: the mapping from a message key to a registered callback.
//!
//! A key is a tagged variant (plain message, command notification, or control
//! notification), so lookup is exact and exhaustive.  A table holds at most
//! one callback per key; registering again under the same key replaces the
//! earlier callback, a policy this module fixes deliberately.
//!
//! Callbacks are opaque to the table: any `Copy` value can stand for one (an
//! index into a list of closures that the embedding keeps, for instance).
//! Dispatch looks the callback up and hands it back to the caller, who is the
//! one to invoke it.

use vstd::prelude::*;

verus! {

/// Identifies one kind of incoming event.
///
/// Mirrors the three ways the window system addresses a window procedure:
/// a plain message, a command notification carrying a code and the sending
/// control's id, and a control notification carrying the control's id and a
/// signed notification code.
#[derive(Clone, Copy, Debug, PartialEq, Eq, Structural)]
pub enum EventKey {
    /// A plain window message, by message code.
    Message { wm: u32 },
    /// A command notification: notification code plus originating control id.
    Command { code: u16, ctrl_id: u16 },
    /// A control notification: originating control id plus notification code.
    Notify { ctrl_id: u16, nfy_code: i32 },
}

/// Whether some entry of `s` carries the key `k`.
pub open spec fn table_contains<C>(s: Seq<(EventKey, C)>, k: EventKey) -> bool {
    exists|i: int| 0 <= i < s.len() && s[i].0 == k
}

/// The callback stored under `k` in `s`.
pub open spec fn table_value<C>(s: Seq<(EventKey, C)>, k: EventKey) -> C
    recommends
        table_contains(s, k),
{
    s[choose|i: int| 0 <= i < s.len() && s[i].0 == k].1
}

/// No two entries of `s` carry the same key.
pub open spec fn keys_unique<C>(s: Seq<(EventKey, C)>) -> bool {
    forall|i: int, j: int| 0 <= i < j < s.len() ==> s[i].0 != s[j].0
}

/// The map an entry sequence denotes.
pub open spec fn table_as_map<C>(s: Seq<(EventKey, C)>) -> Map<EventKey, C> {
    Map::new(|k: EventKey| table_contains(s, k), |k: EventKey| table_value(s, k))
}

/// What looking a key up in a table with contents `m` yields.
pub open spec fn dispatch_spec<C>(m: Map<EventKey, C>, k: EventKey) -> Option<C> {
    if m.dom().contains(k) {
        Some(m[k])
    } else {
        None
    }
}

/// A registry of callbacks keyed by [`EventKey`].
///
/// Its view is the [`Map`] from keys to callbacks.
pub struct EventTable<C> {
    entries: Vec<(EventKey, C)>,
}

impl<C> View for EventTable<C> {
    type V = Map<EventKey, C>;

    closed spec fn view(&self) -> Map<EventKey, C> {
        table_as_map(self.entries@)
    }
}

impl<C> EventTable<C> {
    #[verifier::type_invariant]
    spec fn wf(&self) -> bool {
        keys_unique(self.entries@)
    }
}

impl<C: Copy> EventTable<C> {
    /// An empty table.
    pub fn new() -> (t: EventTable<C>)
        ensures
            t@ == Map::<EventKey, C>::empty(),
    {
        let t = EventTable { entries: Vec::new() };
        proof {
            assert(t@ =~= Map::<EventKey, C>::empty());
        }
        t
    }

    /// Stores `cb` under `key`.  A callback already stored under the same key
    /// is replaced; every other key is untouched.
    #[verifier::loop_isolation(false)]
    pub fn register(&mut self, key: EventKey, cb: C)
        ensures
            final(self)@ == old(self)@.insert(key, cb),
    {
        proof {
            use_type_invariant(&*self);
        }
        let mut entries: Vec<(EventKey, C)> = Vec::new();
        std::mem::swap(&mut entries, &mut self.entries);
        let ghost orig = entries@;
        let n = entries.len();
        let mut i: usize = 0;
        while i < n
            invariant
                n == entries.len(),
                entries@ == orig,
                keys_unique(orig),
                i <= n,
                forall|j: int| 0 <= j < i ==> orig[j].0 != key,
            decreases n - i,
        {
            if entries[i].0 == key {
                entries.set(i, (key, cb));
                proof {
                    lemma_table_update(orig, i as int, key, cb);
                }
                self.entries = entries;
                return;
            }
            i += 1;
        }
        entries.push((key, cb));
        proof {
            lemma_table_push(orig, key, cb);
        }
        self.entries = entries;
    }

    /// Looks the callback for `key` up: the registered callback, or `None`
    /// when nothing is registered under exactly this key.
    #[verifier::loop_isolation(false)]
    pub fn dispatch(&self, key: EventKey) -> (r: Option<C>)
        ensures
            r == dispatch_spec(self@, key),
    {
        proof {
            use_type_invariant(&*self);
        }
        let n = self.entries.len();
        let mut i: usize = 0;
        while i < n
            invariant
                n == self.entries.len(),
                keys_unique(self.entries@),
                i <= n,
                forall|j: int| 0 <= j < i ==> self.entries@[j].0 != key,
            decreases n - i,
        {
            if self.entries[i].0 == key {
                let cb = self.entries[i].1;
                proof {
                    let ci = choose|ci: int|
                        0 <= ci < self.entries@.len() && self.entries@[ci].0 == key;
                    assert(ci == i);
                }
                return Some(cb);
            }
            i += 1;
        }
        None
    }
}

/// Replacing the entry at `i` (which already carries `key`) is, on the map
/// level, an insert of `key`.
proof fn lemma_table_update<C>(s: Seq<(EventKey, C)>, i: int, key: EventKey, cb: C)
    requires
        keys_unique(s),
        0 <= i < s.len(),
        s[i].0 == key,
    ensures
        table_as_map(s.update(i, (key, cb))) == table_as_map(s).insert(key, cb),
{
    let t = s.update(i, (key, cb));
    assert forall|k: EventKey| #[trigger] table_contains(t, k) == (table_contains(s, k)
        || k == key) by {
        if table_contains(t, k) {
            let w = choose|w: int| 0 <= w < t.len() && t[w].0 == k;
            if w != i {
                assert(s[w].0 == k);
            }
        }
        if table_contains(s, k) {
            let w = choose|w: int| 0 <= w < s.len() && s[w].0 == k;
            if w != i {
                assert(t[w].0 == k);
            } else {
                assert(t[i].0 == key);
            }
        }
        if k == key {
            assert(t[i].0 == k);
        }
    }
    assert forall|k: EventKey| table_contains(t, k) implies #[trigger] table_as_map(t)[k]
        == table_as_map(s).insert(key, cb)[k] by {
        let w = choose|w: int| 0 <= w < t.len() && t[w].0 == k;
        if k == key {
            assert(w == i);
        } else {
            assert(w != i);
            assert(s[w].0 == k);
            let v = choose|v: int| 0 <= v < s.len() && s[v].0 == k;
            assert(v == w);
        }
    }
    assert(table_as_map(t) =~= table_as_map(s).insert(key, cb));
}

/// Appending an entry whose key is fresh is, on the map level, an insert.
proof fn lemma_table_push<C>(s: Seq<(EventKey, C)>, key: EventKey, cb: C)
    requires
        keys_unique(s),
        !table_contains(s, key),
    ensures
        table_as_map(s.push((key, cb))) == table_as_map(s).insert(key, cb),
{
    let t = s.push((key, cb));
    assert forall|k: EventKey| #[trigger] table_contains(t, k) == (table_contains(s, k)
        || k == key) by {
        if table_contains(t, k) {
            let w = choose|w: int| 0 <= w < t.len() && t[w].0 == k;
            if w < s.len() {
                assert(s[w].0 == k);
            }
        }
        if table_contains(s, k) {
            let w = choose|w: int| 0 <= w < s.len() && s[w].0 == k;
            assert(t[w].0 == k);
        }
        assert(t[s.len() as int].0 == key);
    }
    assert forall|k: EventKey| table_contains(t, k) implies #[trigger] table_as_map(t)[k]
        == table_as_map(s).insert(key, cb)[k] by {
        let w = choose|w: int| 0 <= w < t.len() && t[w].0 == k;
        if k == key {
            if w < s.len() {
                assert(s[w].0 == key);
            }
            assert(w == s.len());
        } else {
            assert(w < s.len());
            assert(s[w].0 == k);
            let v = choose|v: int| 0 <= v < s.len() && s[v].0 == k;
            assert(v == w);
        }
    }
    assert(table_as_map(t) =~= table_as_map(s).insert(key, cb));
}

/// Law: after registering `cb` under `k` in a table with contents `m`,
/// dispatch under `k` yields exactly `cb`; dispatch under any other key is
/// what it was before the registration, and in particular never yields `cb`
/// unless `cb` was already registered under that other key.
pub proof fn lemma_register_then_dispatch<C>(m: Map<EventKey, C>, k: EventKey, cb: C)
    ensures
        dispatch_spec(m.insert(k, cb), k) == Some(cb),
        forall|k2: EventKey| k2 != k ==> #[trigger] dispatch_spec(m.insert(k, cb), k2)
            == dispatch_spec(m, k2),
        forall|k2: EventKey|
            k2 != k && dispatch_spec(m, k2) != Some(cb) ==> #[trigger] dispatch_spec(
                m.insert(k, cb),
                k2,
            ) != Some(cb),
{
}

} // verus!
