//! Per-window geometry records, keyed by logical window identifier.
//!
//! The store itself is in-memory; reading and writing the persisted document
//! happens at the edge of the program, which hands entries in and out through
//! `from_entries` and `entries`.

use vstd::prelude::*;
use crate::kvlist::{kv_map, unique_keys, KvList};

verus! {

/// Geometry persisted for one window: position, size, and the two
/// full-screen-like flags. Absence of a record is not an error.
#[derive(Clone, Copy, PartialEq, Eq, Structural, Debug)]
pub struct WindowState {
    pub x: i32,
    pub y: i32,
    pub width: u32,
    pub height: u32,
    pub maximized: bool,
    pub fullscreen: bool,
}

/// Store of geometry records; its model is a map from identifier characters
/// to records.
pub struct WindowStateManager {
    states: KvList<WindowState>,
}

impl View for WindowStateManager {
    type V = Map<Seq<char>, WindowState>;

    closed spec fn view(&self) -> Map<Seq<char>, WindowState> {
        self.states@
    }
}

impl WindowStateManager {
    pub closed spec fn wf(&self) -> bool {
        self.states.wf()
    }

    /// An empty store.
    pub fn new() -> (r: WindowStateManager)
        ensures
            r.wf(),
            r@ =~= Map::<Seq<char>, WindowState>::empty(),
    {
        WindowStateManager { states: KvList::new() }
    }

    /// Builds a store from loaded entries; on a duplicated identifier the
    /// later entry wins.
    pub fn from_entries(entries: Vec<(String, WindowState)>) -> (r: WindowStateManager)
        ensures
            r.wf(),
            r@ =~= kv_map(entries@),
    {
        let mut states: KvList<WindowState> = KvList::new();
        let n = entries.len();
        let mut i: usize = 0;
        while i < n
            invariant
                n == entries@.len(),
                i <= n,
                states.wf(),
                states@ =~= kv_map(entries@.subrange(0, i as int)),
            decreases n - i,
        {
            let (key, st) = &entries[i];
            states.insert(key.clone(), *st);
            proof {
                assert(entries@.subrange(0, i + 1 as int).drop_last() =~= entries@.subrange(
                    0,
                    i as int,
                ));
            }
            i = i + 1;
        }
        proof {
            assert(entries@.subrange(0, n as int) =~= entries@);
        }
        WindowStateManager { states }
    }

    /// Records (or replaces) the geometry for `key`.
    pub fn save_window_state(&mut self, key: &str, state: WindowState)
        requires
            old(self).wf(),
        ensures
            final(self).wf(),
            final(self)@ =~= old(self)@.insert(key@, state),
    {
        self.states.insert(key.to_owned(), state);
    }

    /// Looks up the geometry recorded for `key`, if any.
    pub fn get_window_state(&self, key: &str) -> (r: Option<&WindowState>)
        requires
            self.wf(),
        ensures
            match r {
                Some(st) => self@.contains_key(key@) && *st == self@[key@],
                None => !self@.contains_key(key@),
            },
    {
        self.states.get(&key.to_owned())
    }

    /// The stored entries, for persistence; they have distinct keys and
    /// denote exactly the store's model.
    pub fn entries(&self) -> (r: &Vec<(String, WindowState)>)
        requires
            self.wf(),
        ensures
            unique_keys(r@),
            kv_map(r@) == self@,
    {
        proof {
            self.states.lemma_model();
        }
        self.states.entries()
    }
}

} // verus!
