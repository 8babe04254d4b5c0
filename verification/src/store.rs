//! The last-known-address record: a single value, fully overwritten on
//! each save and returned exactly as stored on each load. This models the
//! durable record; the surrounding program mirrors every accepted save to
//! its storage medium and hands the loaded value back at startup.

use vstd::prelude::*;

verus! {

/// In-memory image of the durable last-known-address record.
pub struct StateStore {
    record: Option<String>,
}

impl StateStore {
    /// The stored value, if any.
    pub closed spec fn contents(&self) -> Option<Seq<char>> {
        self.record.deep_view()
    }

    /// A store whose record holds `loaded`, the value read from the
    /// storage medium at startup (`None` on a first run).
    pub fn open(loaded: Option<String>) -> (s: StateStore)
        ensures
            s.contents() == loaded.deep_view(),
    {
        StateStore { record: loaded }
    }

    /// Overwrites the record with exactly `addr`: no normalization, no
    /// trimming, no history.
    pub fn save(&mut self, addr: &str)
        ensures
            final(self).contents() == Some(addr@),
    {
        self.record = Some(addr.to_owned());
    }

    /// The stored value, exactly as saved, or `None` if nothing was ever
    /// stored.
    pub fn load(&self) -> (r: Option<String>)
        ensures
            r.deep_view() == self.contents(),
    {
        match &self.record {
            Some(s) => Some(s.clone()),
            None => None,
        }
    }
}

/// Law: a save followed by a load yields exactly the saved value. The
/// premises are the postconditions of `save` and `load`; nothing else is
/// assumed of the store in between.
pub proof fn lemma_save_load_round_trip(
    saved: StateStore,
    x: Seq<char>,
    loaded: Option<Seq<char>>,
)
    requires
        saved.contents() == Some(x),
        loaded == saved.contents(),
    ensures
        loaded == Some(x),
{
}

} // verus!
