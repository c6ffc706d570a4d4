//! The log of sightings.
//!
//! Sightings are kept in the order in which they were appended, the oldest
//! first. Nothing is ever removed or moved, and no two entries need to differ:
//! a reader that looks an entry up by its identifier gets the latest one.
//! No operation here waits for anything or touches a file, so a caller that
//! shares the log behind a lock holds the lock for one call at a time.

use crate::text::text_is;
use crate::message::{sighting_view, Sighting, SightingView};
use vstd::prelude::*;

verus! {

/// The sightings recorded so far, oldest first.
pub struct SightingsStore {
    entries: Vec<Sighting>,
}

impl View for SightingsStore {
    type V = Seq<SightingView>;

    closed spec fn view(&self) -> Seq<SightingView> {
        self.entries@.map_values(|s: Sighting| s@)
    }
}

/// The entry appended last, `None` for an empty log.
pub open spec fn latest(log: Seq<SightingView>) -> Option<SightingView> {
    if log.len() == 0 {
        None
    } else {
        Some(log.last())
    }
}

/// The entry appended last among those whose identifier is `uuid`, `None`
/// where there is none.
pub open spec fn latest_matching(log: Seq<SightingView>, uuid: Seq<char>) -> Option<SightingView>
    decreases log.len(),
{
    if log.len() == 0 {
        None
    } else if log.last().uuid == uuid {
        Some(log.last())
    } else {
        latest_matching(log.drop_last(), uuid)
    }
}

/// What `latest_matching` finds sits at the highest index that holds the
/// identifier, and it finds nothing only where no entry holds it.
pub proof fn lemma_latest_matching(log: Seq<SightingView>, uuid: Seq<char>)
    ensures
        match latest_matching(log, uuid) {
            Some(found) => exists|i: int|
                0 <= i < log.len() && #[trigger] log[i] == found && found.uuid == uuid && forall|
                    j: int,
                | i < j < log.len() ==> (#[trigger] log[j]).uuid != uuid,
            None => forall|j: int| 0 <= j < log.len() ==> (#[trigger] log[j]).uuid != uuid,
        },
    decreases log.len(),
{
    if log.len() > 0 {
        if log.last().uuid == uuid {
            assert(log[log.len() - 1] == log.last());
        } else {
            let rest = log.drop_last();
            lemma_latest_matching(rest, uuid);
            match latest_matching(rest, uuid) {
                Some(found) => {
                    let i = choose|i: int|
                        0 <= i < rest.len() && #[trigger] rest[i] == found && found.uuid == uuid
                            && forall|j: int|
                            i < j < rest.len() ==> (#[trigger] rest[j]).uuid != uuid;
                    assert(log[i] == found);
                    assert forall|j: int| i < j < log.len() implies (#[trigger] log[j]).uuid
                        != uuid by {
                        if j < rest.len() {
                            assert(rest[j] == log[j]);
                        }
                    }
                },
                None => {
                    assert forall|j: int| 0 <= j < log.len() implies (#[trigger] log[j]).uuid
                        != uuid by {
                        if j < rest.len() {
                            assert(rest[j] == log[j]);
                        }
                    }
                },
            }
        }
    }
}

/// A log has no more entries than the machine can count.
pub proof fn lemma_store_countable(store: SightingsStore)
    ensures
        store@.len() <= usize::MAX,
{
    assert(store@.len() == store.entries.len());
}

impl SightingsStore {
    /// A log without entries.
    pub fn new() -> (store: SightingsStore)
        ensures
            store@ == Seq::<SightingView>::empty(),
    {
        let store = SightingsStore { entries: Vec::new() };
        assert(store@ =~= Seq::<SightingView>::empty());
        store
    }

    /// Adds `sighting` as the latest entry. Every earlier entry stays where
    /// it was.
    pub fn append(&mut self, sighting: Sighting)
        ensures
            final(self)@ == old(self)@.push(sighting@),
    {
        self.entries.push(sighting);
        assert(self@ =~= old(self)@.push(sighting@));
    }

    /// The number of entries.
    pub fn length(&self) -> (count: usize)
        ensures
            count == self@.len(),
    {
        self.entries.len()
    }

    /// A copy of the entry appended last, `None` for an empty log.
    pub fn last_entry(&self) -> (entry: Option<Sighting>)
        ensures
            sighting_view(entry) == latest(self@),
    {
        let count = self.entries.len();
        if count == 0 {
            None
        } else {
            Some(self.entries[count - 1].clone())
        }
    }

    /// A copy of the entry appended last among those whose identifier is
    /// `uuid`, `None` where there is none.
    pub fn last_entry_matching(&self, uuid: &str) -> (entry: Option<Sighting>)
        ensures
            sighting_view(entry) == latest_matching(self@, uuid@),
    {
        let mut i: usize = self.entries.len();
        assert(self@.take(i as int) =~= self@);
        while i > 0
            invariant
                i <= self.entries.len(),
                self@.len() == self.entries.len(),
                latest_matching(self@, uuid@) == latest_matching(self@.take(i as int), uuid@),
            decreases i,
        {
            let ghost upto = self@.take(i as int);
            assert(upto.last() == self.entries[i - 1]@);
            assert(upto.drop_last() =~= self@.take(i - 1));
            if text_is(&self.entries[i - 1].uuid, uuid) {
                return Some(self.entries[i - 1].clone());
            }
            i -= 1;
        }
        None
    }
}

} // verus!
