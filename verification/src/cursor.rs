//! Point-in-time model of a keyed store, and the cursor that enumerates it
//! with the "get successor key" protocol: from no key to the first key, from
//! a key to the entry after it, and to the terminal state when the store has
//! no successor (end of table, or the key vanished between steps).
use crate::wire::bytes_eq;
use crate::wire::copy_bytes;
use vstd::prelude::*;

verus! {

/// One entry of a store snapshot: its key bytes and the value replicas its
/// lookup returned. `None` models a key whose lookup misses (the entry was
/// removed between the cursor step and the lookup).
pub struct StoreEntry {
    pub key: Vec<u8>,
    pub values: Option<Vec<Vec<u8>>>,
}

/// The ghost form of a store entry.
pub ghost struct EntryV {
    pub key: Seq<u8>,
    pub values: Option<Seq<Seq<u8>>>,
}

impl View for StoreEntry {
    type V = EntryV;

    open spec fn view(&self) -> EntryV {
        EntryV {
            key: self.key@,
            values: match self.values {
                Option::None => Option::None,
                Option::Some(v) => Option::Some(v.deep_view()),
            },
        }
    }
}

/// A point-in-time model of a keyed store: its entries in enumeration order.
pub struct StoreSnapshot {
    pub entries: Vec<StoreEntry>,
}

impl View for StoreSnapshot {
    type V = Seq<EntryV>;

    open spec fn view(&self) -> Seq<EntryV> {
        Seq::new(self.entries@.len(), |i: int| self.entries@[i]@)
    }
}

/// The keys of a snapshot, in enumeration order.
pub open spec fn snap_keys(es: Seq<EntryV>) -> Seq<Seq<u8>> {
    Seq::new(es.len(), |i: int| es[i].key)
}

/// A keyed store holds each key once.
pub open spec fn distinct_keys(es: Seq<EntryV>) -> bool {
    forall|i: int, j: int| 0 <= i < es.len() && 0 <= j < es.len() && i != j ==> es[i].key != es[j].key
}

/// The first index holding the key at `i..`, or -1.
pub open spec fn key_index_from(es: Seq<EntryV>, k: Seq<u8>, i: int) -> int
    decreases es.len() - i,
{
    if i < 0 || i >= es.len() {
        -1
    } else if es[i].key == k {
        i
    } else {
        key_index_from(es, k, i + 1)
    }
}

/// The first index holding the key, or -1.
pub open spec fn key_index(es: Seq<EntryV>, k: Seq<u8>) -> int {
    key_index_from(es, k, 0)
}

/// With distinct keys, each entry's key is found at its own index.
pub proof fn lemma_key_index_of_entry(es: Seq<EntryV>, j: int)
    requires
        distinct_keys(es),
        0 <= j < es.len(),
    ensures
        key_index(es, es[j].key) == j,
{
    lemma_key_index_of_entry_from(es, j, 0);
}

/// Scanning from any index at or before the entry finds it there.
proof fn lemma_key_index_of_entry_from(es: Seq<EntryV>, j: int, i: int)
    requires
        distinct_keys(es),
        0 <= i <= j < es.len(),
    ensures
        key_index_from(es, es[j].key, i) == j,
    decreases j - i,
{
    if i < j {
        lemma_key_index_of_entry_from(es, j, i + 1);
    }
}

/// The successor the store reports: the first key after none, the key of the
/// following entry after a present key, and nothing after the last key or
/// after a key the store no longer holds.
pub open spec fn spec_successor(es: Seq<EntryV>, prev: Option<Seq<u8>>) -> Option<Seq<u8>> {
    match prev {
        Option::None => if es.len() > 0 {
            Option::Some(es[0].key)
        } else {
            Option::None
        },
        Option::Some(k) => {
            let i = key_index(es, k);
            if 0 <= i && i + 1 < es.len() {
                Option::Some(es[i + 1].key)
            } else {
                Option::None
            }
        },
    }
}

impl StoreSnapshot {
    /// Wraps the entries of one enumeration pass.
    pub fn new(entries: Vec<StoreEntry>) -> (r: Self)
        ensures
            r.entries@ == entries@,
            r@ == Seq::new(entries@.len(), |i: int| entries@[i]@),
    {
        StoreSnapshot { entries }
    }

    /// Finds the entry holding a key.
    fn find_key(&self, k: &Vec<u8>) -> (r: Option<usize>)
        ensures
            match r {
                Option::Some(i) => i < self.entries@.len() && key_index(self@, k@) == i,
                Option::None => key_index(self@, k@) == -1,
            },
    {
        let mut i: usize = 0;
        while i < self.entries.len()
            invariant
                i <= self.entries@.len(),
                self@.len() == self.entries@.len(),
                key_index(self@, k@) == key_index_from(self@, k@, i as int),
            decreases self.entries@.len() - i,
        {
            if bytes_eq(&self.entries[i].key, k) {
                return Some(i);
            }
            i = i + 1;
        }
        None
    }

    /// Answers one successor-key request of the enumeration protocol.
    pub fn successor_key(&self, prev: Option<&Vec<u8>>) -> (r: Option<Vec<u8>>)
        ensures
            match prev {
                Option::None => r.deep_view() == spec_successor(self@, Option::None),
                Option::Some(p) => r.deep_view() == spec_successor(self@, Option::Some(p@)),
            },
    {
        match prev {
            None => {
                if self.entries.len() > 0 {
                    Some(copy_bytes(&self.entries[0].key))
                } else {
                    None
                }
            },
            Some(p) => {
                let n = self.entries.len();
                match self.find_key(p) {
                    Some(i) => {
                        if i + 1 < n {
                            Some(copy_bytes(&self.entries[i + 1].key))
                        } else {
                            None
                        }
                    },
                    None => None,
                }
            },
        }
    }

    /// Answers one lookup request: the value replicas of a key, or nothing
    /// when the store no longer holds it.
    pub fn lookup(&self, k: &Vec<u8>) -> (r: Option<&Vec<Vec<u8>>>)
        ensures
            match r {
                Option::Some(v) => key_index(self@, k@) >= 0 && self@[key_index(self@, k@)].values
                    == Option::Some(v.deep_view()),
                Option::None => key_index(self@, k@) == -1 || self@[key_index(self@, k@)].values is None,
            },
    {
        match self.find_key(k) {
            Some(i) => {
                match &self.entries[i].values {
                    Some(v) => Some(v),
                    None => None,
                }
            },
            None => None,
        }
    }
}

/// The state of one enumeration pass.
pub enum CursorState {
    /// No key returned yet.
    Start,
    /// Holds the last key returned.
    Positioned(Vec<u8>),
    /// The pass is over; no further key will be returned.
    Exhausted,
}

/// The ghost form of the cursor state.
pub ghost enum CursorV {
    Start,
    Positioned(Seq<u8>),
    Exhausted,
}

impl View for CursorState {
    type V = CursorV;

    open spec fn view(&self) -> CursorV {
        match self {
            CursorState::Start => CursorV::Start,
            CursorState::Positioned(k) => CursorV::Positioned(k@),
            CursorState::Exhausted => CursorV::Exhausted,
        }
    }
}

/// One transition of the cursor state machine, given the store's answer to
/// the successor request the state calls for: a key moves the cursor to it
/// and surfaces it; no key ends the pass.
pub open spec fn cursor_step_spec(c: CursorV, resp: Option<Seq<u8>>) -> (CursorV, Option<Seq<u8>>) {
    match c {
        CursorV::Exhausted => (CursorV::Exhausted, Option::None),
        _ => match resp {
            Option::Some(k) => (CursorV::Positioned(k), Option::Some(k)),
            Option::None => (CursorV::Exhausted, Option::None),
        },
    }
}

/// The successor request a cursor state makes: none at the start, the held
/// key when positioned.
pub open spec fn cursor_request(c: CursorV) -> Option<Seq<u8>> {
    match c {
        CursorV::Start => Option::None,
        CursorV::Positioned(k) => Option::Some(k),
        CursorV::Exhausted => Option::None,
    }
}

/// A cursor over one enumeration pass of a store.
pub struct MapCursor {
    state: CursorState,
}

impl View for MapCursor {
    type V = CursorV;

    closed spec fn view(&self) -> CursorV {
        self.state@
    }
}

impl MapCursor {
    /// A cursor that has returned no key yet.
    pub fn new() -> (r: Self)
        ensures
            r@ == CursorV::Start,
    {
        MapCursor { state: CursorState::Start }
    }

    /// Applies the store's answer to the pending successor request: the pure
    /// decision step of the enumeration protocol. The caller performs the
    /// request `cursor_request` names and hands the answer back.
    pub fn apply_response(&mut self, resp: Option<Vec<u8>>) -> (r: Option<Vec<u8>>)
        ensures
            final(self)@ == cursor_step_spec(old(self)@, resp.deep_view()).0,
            r.deep_view() == cursor_step_spec(old(self)@, resp.deep_view()).1,
    {
        match &self.state {
            CursorState::Exhausted => None,
            _ => {
                match resp {
                    Some(k) => {
                        proof {
                            assert(k.deep_view() =~= k@);
                        }
                        let out = copy_bytes(&k);
                        self.state = CursorState::Positioned(k);
                        Some(out)
                    },
                    None => {
                        self.state = CursorState::Exhausted;
                        None
                    },
                }
            },
        }
    }

    /// Performs one cursor step against a store snapshot: requests the
    /// successor of the held key and advances.
    pub fn step(&mut self, snap: &StoreSnapshot) -> (r: Option<Vec<u8>>)
        ensures
            final(self)@ == cursor_step_spec(
                old(self)@,
                spec_successor(snap@, cursor_request(old(self)@)),
            ).0,
            r.deep_view() == cursor_step_spec(
                old(self)@,
                spec_successor(snap@, cursor_request(old(self)@)),
            ).1,
    {
        let resp = match &self.state {
            CursorState::Start => snap.successor_key(None),
            CursorState::Positioned(k) => snap.successor_key(Some(k)),
            CursorState::Exhausted => None,
        };
        self.apply_response(resp)
    }
}

} // verus!
