//! A catalog that holds its events in the order in which they were added, at
//! most one under each key.

use vstd::prelude::*;
use crate::events::compare::{compare_events, compare_spec, EventComparison};
use crate::events::event::{catalog_key, EventSchema, SchemaView};
use crate::events::generic::{
    added, AddEventErr, DynEventCatalog, EventCatalog, GetEventBySigErr, PopEventErr,
};

verus! {

/// One event of a catalog with the key that it stands under.
#[derive(Debug)]
struct CatalogEntry {
    signature: [u8; 32],
    n_topics: u8,
    event: EventSchema,
}

/// A catalog of events by selector and topic count.
#[derive(Debug)]
pub struct EventMapCatalog {
    entries: Vec<CatalogEntry>,
}

/// What adding an event came to.
#[derive(Debug, Clone, Copy, PartialEq, Eq, Structural)]
pub enum AddOutcome {
    /// The key was free: the event is now in the catalog.
    Inserted,
    /// The key was taken: the event that holds it stays, and this is how the
    /// new one compares with it.
    Kept(EventComparison),
}

spec fn entry_key(entry: CatalogEntry) -> (Seq<u8>, u8) {
    (entry.signature@, entry.n_topics)
}

spec fn keys_distinct(entries: Seq<CatalogEntry>) -> bool {
    forall|i: int, j: int|
        0 <= i < j < entries.len() ==> entry_key(#[trigger] entries[i]) != entry_key(
            #[trigger] entries[j],
        )
}

spec fn entries_map(entries: Seq<CatalogEntry>) -> Map<(Seq<u8>, u8), SchemaView>
    decreases entries.len(),
{
    if entries.len() == 0 {
        Map::empty()
    } else {
        entries_map(entries.drop_last()).insert(entry_key(entries.last()), entries.last().event@)
    }
}

proof fn lemma_absent(entries: Seq<CatalogEntry>, key: (Seq<u8>, u8))
    requires
        forall|i: int| 0 <= i < entries.len() ==> entry_key(#[trigger] entries[i]) != key,
    ensures
        !entries_map(entries).contains_key(key),
    decreases entries.len(),
{
    if entries.len() > 0 {
        assert(entry_key(entries[entries.len() - 1]) != key);
        assert forall|i: int| 0 <= i < entries.drop_last().len() implies entry_key(
            #[trigger] entries.drop_last()[i],
        ) != key by {
            assert(entries.drop_last()[i] == entries[i]);
        }
        lemma_absent(entries.drop_last(), key);
    }
}

proof fn lemma_present(entries: Seq<CatalogEntry>, at: int)
    requires
        keys_distinct(entries),
        0 <= at < entries.len(),
    ensures
        entries_map(entries).contains_key(entry_key(entries[at])),
        entries_map(entries)[entry_key(entries[at])] == entries[at].event@,
    decreases entries.len(),
{
    if at < entries.len() - 1 {
        let rest = entries.drop_last();
        assert forall|i: int, j: int| 0 <= i < j < rest.len() implies entry_key(
            #[trigger] rest[i],
        ) != entry_key(#[trigger] rest[j]) by {
            assert(rest[i] == entries[i] && rest[j] == entries[j]);
        }
        lemma_present(rest, at);
        assert(rest[at] == entries[at]);
        assert(entry_key(entries[at]) != entry_key(entries[entries.len() - 1]));
    }
}

proof fn lemma_removed(entries: Seq<CatalogEntry>, at: int)
    requires
        keys_distinct(entries),
        0 <= at < entries.len(),
    ensures
        keys_distinct(entries.remove(at)),
        entries_map(entries.remove(at)) == entries_map(entries).remove(entry_key(entries[at])),
    decreases entries.len(),
{
    let key = entry_key(entries[at]);
    let rest = entries.drop_last();
    let after = entries.remove(at);
    assert forall|i: int, j: int| 0 <= i < j < after.len() implies entry_key(#[trigger] after[i])
        != entry_key(#[trigger] after[j]) by {
        let oi = if i < at {
            i
        } else {
            i + 1
        };
        let oj = if j < at {
            j
        } else {
            j + 1
        };
        assert(after[i] == entries[oi] && after[j] == entries[oj]);
    }
    assert forall|i: int, j: int| 0 <= i < j < rest.len() implies entry_key(#[trigger] rest[i])
        != entry_key(#[trigger] rest[j]) by {
        assert(rest[i] == entries[i] && rest[j] == entries[j]);
    }
    if at == entries.len() - 1 {
        assert(after =~= rest);
        assert forall|i: int| 0 <= i < rest.len() implies entry_key(#[trigger] rest[i])
            != key by {
            assert(rest[i] == entries[i]);
        }
        lemma_absent(rest, key);
        assert(entries_map(after) =~= entries_map(entries).remove(key));
    } else {
        lemma_removed(rest, at);
        assert(rest[at] == entries[at]);
        assert(after.drop_last() =~= rest.remove(at));
        assert(after.last() == entries.last());
        assert(entry_key(entries[at]) != entry_key(entries[entries.len() - 1]));
        assert(entries_map(after) =~= entries_map(entries).remove(key));
    }
}

/// Whether two 32-byte words hold the same bytes.
fn same_word(a: &[u8; 32], b: &[u8; 32]) -> (out: bool)
    ensures
        out == (a@ == b@),
{
    let mut i: usize = 0;
    while i < 32
        invariant
            i <= 32,
            forall|j: int| 0 <= j < i ==> a@[j] == b@[j],
        decreases 32 - i,
    {
        if a[i] != b[i] {
            return false;
        }
        i += 1;
    }
    assert(a@ =~= b@);
    true
}

impl EventMapCatalog {
    #[verifier::type_invariant]
    spec fn well_formed(&self) -> bool {
        keys_distinct(self.entries@)
    }

    /// A catalog without events.
    pub fn new() -> (out: Self)
        ensures
            out.events() == Map::<(Seq<u8>, u8), SchemaView>::empty(),
    {
        EventMapCatalog { entries: Vec::new() }
    }

    /// A catalog without events, with room for `capacity` of them.
    pub fn with_capacity(capacity: usize) -> (out: Self)
        ensures
            out.events() == Map::<(Seq<u8>, u8), SchemaView>::empty(),
    {
        EventMapCatalog { entries: Vec::with_capacity(capacity) }
    }

    /// Where the entry under the key stands, if there is one.
    fn position(&self, signature: &[u8; 32], n_topics: u8) -> (out: Option<usize>)
        ensures
            match out {
                Some(at) => at < self.entries@.len() && entry_key(self.entries@[at as int]) == (
                    signature@,
                    n_topics,
                ),
                None => forall|i: int|
                    0 <= i < self.entries@.len() ==> entry_key(#[trigger] self.entries@[i]) != (
                        signature@,
                        n_topics,
                    ),
            },
    {
        let mut i: usize = 0;
        while i < self.entries.len()
            invariant
                i <= self.entries.len(),
                forall|j: int|
                    0 <= j < i ==> entry_key(#[trigger] self.entries@[j]) != (signature@, n_topics),
            decreases self.entries.len() - i,
        {
            let entry = &self.entries[i];
            if entry.n_topics == n_topics && same_word(&entry.signature, signature) {
                return Some(i);
            }
            i += 1;
        }
        None
    }

    /// Adds the event unless its key is taken, and says which of the two
    /// happened; for a taken key, also how the event compares with the one that
    /// stays.
    pub fn add_event_compared(&mut self, event: &EventSchema) -> (out: AddOutcome)
        ensures
            final(self).events() == added(old(self).events(), event@),
            out == if old(self).events().contains_key(catalog_key(event@)) {
                AddOutcome::Kept(compare_spec(old(self).events()[catalog_key(event@)], event@))
            } else {
                AddOutcome::Inserted
            },
    {
        proof {
            use_type_invariant(&*self);
        }
        let signature = event.selector();
        let n_topics = event.topic_key();
        match self.position(&signature, n_topics) {
            Some(at) => {
                proof {
                    lemma_present(self.entries@, at as int);
                }
                AddOutcome::Kept(compare_events(&self.entries[at].event, event))
            },
            None => {
                proof {
                    lemma_absent(self.entries@, (signature@, n_topics));
                }
                let ghost before = self.entries@;
                let entry = CatalogEntry { signature, n_topics, event: event.clone() };
                let mut entries: Vec<CatalogEntry> = Vec::new();
                std::mem::swap(&mut self.entries, &mut entries);
                entries.push(entry);
                proof {
                    assert(entries@.drop_last() =~= before);
                    assert forall|i: int, j: int| 0 <= i < j < entries@.len() implies entry_key(
                        #[trigger] entries@[i],
                    ) != entry_key(#[trigger] entries@[j]) by {
                        if j < before.len() {
                            assert(entries@[i] == before[i] && entries@[j] == before[j]);
                        } else {
                            assert(entries@[i] == before[i]);
                        }
                    }
                }
                std::mem::swap(&mut self.entries, &mut entries);
                AddOutcome::Inserted
            },
        }
    }
}

impl Clone for EventMapCatalog {
    fn clone(&self) -> (out: Self)
        ensures
            out.events() == self.events(),
    {
        proof {
            use_type_invariant(self);
        }
        let mut entries: Vec<CatalogEntry> = Vec::new();
        let mut i: usize = 0;
        while i < self.entries.len()
            invariant
                i <= self.entries.len(),
                keys_distinct(self.entries@),
                entries@.len() == i,
                forall|j: int|
                    0 <= j < i ==> entry_key(#[trigger] entries@[j]) == entry_key(self.entries@[j])
                        && entries@[j].event@ == self.entries@[j].event@,
            decreases self.entries.len() - i,
        {
            let entry = &self.entries[i];
            entries.push(
                CatalogEntry {
                    signature: entry.signature,
                    n_topics: entry.n_topics,
                    event: entry.event.clone(),
                },
            );
            i += 1;
        }
        proof {
            lemma_same_entries(entries@, self.entries@);
        }
        EventMapCatalog { entries }
    }
}

proof fn lemma_same_entries(a: Seq<CatalogEntry>, b: Seq<CatalogEntry>)
    requires
        a.len() == b.len(),
        keys_distinct(b),
        forall|j: int|
            0 <= j < a.len() ==> entry_key(#[trigger] a[j]) == entry_key(b[j]) && a[j].event@
                == b[j].event@,
    ensures
        keys_distinct(a),
        entries_map(a) == entries_map(b),
    decreases a.len(),
{
    assert forall|i: int, j: int| 0 <= i < j < a.len() implies entry_key(#[trigger] a[i])
        != entry_key(#[trigger] a[j]) by {
        assert(entry_key(b[i]) != entry_key(b[j]));
    }
    if a.len() > 0 {
        let ra = a.drop_last();
        let rb = b.drop_last();
        assert forall|i: int, j: int| 0 <= i < j < rb.len() implies entry_key(#[trigger] rb[i])
            != entry_key(#[trigger] rb[j]) by {
            assert(rb[i] == b[i] && rb[j] == b[j]);
        }
        assert forall|j: int| 0 <= j < ra.len() implies entry_key(#[trigger] ra[j]) == entry_key(
            rb[j],
        ) && ra[j].event@ == rb[j].event@ by {
            assert(ra[j] == a[j] && rb[j] == b[j]);
        }
        lemma_same_entries(ra, rb);
    }
}

impl EventCatalog for EventMapCatalog {
    closed spec fn events(&self) -> Map<(Seq<u8>, u8), SchemaView> {
        entries_map(self.entries@)
    }

    fn get_event_by_signature_and_ntopics(&self, signature: &[u8; 32], n_topics: u8) -> (out:
        Result<&EventSchema, GetEventBySigErr>) {
        proof {
            use_type_invariant(self);
        }
        match self.position(signature, n_topics) {
            Some(at) => {
                proof {
                    lemma_present(self.entries@, at as int);
                }
                Ok(&self.entries[at].event)
            },
            None => {
                proof {
                    lemma_absent(self.entries@, (signature@, n_topics));
                }
                Err(GetEventBySigErr::NotFound)
            },
        }
    }
}

impl DynEventCatalog for EventMapCatalog {
    fn add_event(&mut self, event: &EventSchema) -> (out: Result<(), AddEventErr>) {
        let _ = self.add_event_compared(event);
        Ok(())
    }

    fn pop_event(&mut self, signature: &[u8; 32], n_topics: u8) -> (out: Result<
        EventSchema,
        PopEventErr,
    >) {
        proof {
            use_type_invariant(&*self);
        }
        match self.position(signature, n_topics) {
            Some(at) => {
                proof {
                    lemma_present(self.entries@, at as int);
                    lemma_removed(self.entries@, at as int);
                }
                let mut entries: Vec<CatalogEntry> = Vec::new();
                std::mem::swap(&mut self.entries, &mut entries);
                let entry = entries.remove(at);
                std::mem::swap(&mut self.entries, &mut entries);
                Ok(entry.event)
            },
            None => {
                proof {
                    lemma_absent(self.entries@, (signature@, n_topics));
                    assert(self.events().remove((signature@, n_topics)) =~= self.events());
                }
                Err(PopEventErr::DoesNotExist)
            },
        }
    }
}

} // verus!
