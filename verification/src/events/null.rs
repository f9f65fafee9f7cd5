//! A catalog without events, for where one is asked for and none is used.

use vstd::prelude::*;
use crate::events::event::{EventSchema, SchemaView};
use crate::events::generic::{EventCatalog, GetEventBySigErr};

verus! {

/// An event catalog that knows no event: every lookup fails.
#[derive(Debug, Clone, Copy)]
pub struct NullEventCatalog();

impl EventCatalog for NullEventCatalog {
    open spec fn events(&self) -> Map<(Seq<u8>, u8), SchemaView> {
        Map::empty()
    }

    fn get_event_by_signature_and_ntopics(&self, signature: &[u8; 32], n_topics: u8) -> (out:
        Result<&EventSchema, GetEventBySigErr>) {
        Err(GetEventBySigErr::NotFound)
    }
}

} // verus!
