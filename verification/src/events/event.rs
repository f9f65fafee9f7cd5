//! EventSchema schemas: a name and an ordered list of typed parameters, each indexed
//! or not. The selector of a schema is the Keccak-256 digest of its signature.

use vstd::prelude::*;
use vstd::string::*;
use vstd::utf8::encode_utf8;
use crate::text::{keccak256, keccak256_digest, push_char};

verus! {

/// One parameter of an event. `ty` is the canonical ABI type as it stands in
/// the signature (`uint256`, `address[]`, `(uint256,bytes)`).
#[derive(Debug, PartialEq, Eq)]
pub struct SchemaParam {
    pub ty: String,
    pub name: String,
    pub indexed: bool,
}

/// The mathematical form of an `SchemaParam`.
pub struct ParamView {
    pub ty: Seq<char>,
    pub name: Seq<char>,
    pub indexed: bool,
}

impl View for SchemaParam {
    type V = ParamView;

    open spec fn view(&self) -> ParamView {
        ParamView { ty: self.ty@, name: self.name@, indexed: self.indexed }
    }
}

impl Clone for SchemaParam {
    fn clone(&self) -> (out: Self)
        ensures
            out@ == self@,
    {
        SchemaParam { ty: self.ty.clone(), name: self.name.clone(), indexed: self.indexed }
    }
}

impl SchemaParam {
    /// A parameter from its type, its name and whether it is indexed.
    pub fn new(ty: &str, name: &str, indexed: bool) -> (out: Self)
        ensures
            out@ == (ParamView { ty: ty@, name: name@, indexed }),
    {
        SchemaParam { ty: String::from_str(ty), name: String::from_str(name), indexed }
    }
}

/// An event schema.
#[derive(Debug, PartialEq, Eq)]
pub struct EventSchema {
    pub name: String,
    pub inputs: Vec<SchemaParam>,
    pub anonymous: bool,
}

/// The mathematical form of an `EventSchema`.
pub struct SchemaView {
    pub name: Seq<char>,
    pub inputs: Seq<ParamView>,
    pub anonymous: bool,
}

impl View for EventSchema {
    type V = SchemaView;

    open spec fn view(&self) -> SchemaView {
        SchemaView {
            name: self.name@,
            inputs: Seq::new(self.inputs@.len(), |i: int| self.inputs@[i]@),
            anonymous: self.anonymous,
        }
    }
}

/// The parameter types, separated by commas.
pub open spec fn type_list(inputs: Seq<ParamView>) -> Seq<char>
    decreases inputs.len(),
{
    if inputs.len() == 0 {
        Seq::empty()
    } else if inputs.len() == 1 {
        inputs[0].ty
    } else {
        type_list(inputs.drop_last()) + seq![','] + inputs.last().ty
    }
}

/// The signature of an event: `name(type,type,...)`.
pub open spec fn signature_text(event: SchemaView) -> Seq<char> {
    event.name + seq!['('] + type_list(event.inputs) + seq![')']
}

/// How many of the parameters are indexed.
pub open spec fn indexed_count(inputs: Seq<ParamView>) -> nat
    decreases inputs.len(),
{
    if inputs.len() == 0 {
        0
    } else {
        indexed_count(inputs.drop_last()) + if inputs.last().indexed {
            1nat
        } else {
            0nat
        }
    }
}

/// How many topics a log of this event has: one per indexed parameter, and one
/// for the selector unless the event is anonymous.
pub open spec fn topic_count(event: SchemaView) -> nat {
    indexed_count(event.inputs) + if event.anonymous {
        0nat
    } else {
        1nat
    }
}

/// The selector of an event: the Keccak-256 digest of its signature's bytes.
pub open spec fn event_selector(event: SchemaView) -> Seq<u8> {
    keccak256_digest(encode_utf8(signature_text(event)))
}

/// The key under which a catalog holds an event: its selector and its topic
/// count as a byte.
pub open spec fn catalog_key(event: SchemaView) -> (Seq<u8>, u8) {
    (event_selector(event), (topic_count(event) % 256) as u8)
}

impl Clone for EventSchema {
    fn clone(&self) -> (out: Self)
        ensures
            out@ == self@,
    {
        let mut inputs: Vec<SchemaParam> = Vec::new();
        let mut i: usize = 0;
        while i < self.inputs.len()
            invariant
                i <= self.inputs.len(),
                inputs@.len() == i,
                forall|j: int| 0 <= j < i ==> inputs@[j]@ == self.inputs@[j]@,
            decreases self.inputs.len() - i,
        {
            inputs.push(self.inputs[i].clone());
            i += 1;
        }
        let out = EventSchema { name: self.name.clone(), inputs, anonymous: self.anonymous };
        assert(out@.inputs =~= self@.inputs);
        out
    }
}

impl EventSchema {
    /// The signature `name(type,type,...)`, the text that the selector is the
    /// digest of.
    pub fn signature(&self) -> (out: String)
        ensures
            out@ == signature_text(self@),
    {
        let mut out = self.name.clone();
        push_char(&mut out, '(');
        let ghost inputs = self@.inputs;
        let mut i: usize = 0;
        while i < self.inputs.len()
            invariant
                i <= self.inputs.len(),
                inputs == self@.inputs,
                inputs.len() == self.inputs@.len(),
                out@ == self.name@ + seq!['('] + type_list(inputs.take(i as int)),
            decreases self.inputs.len() - i,
        {
            if i > 0 {
                push_char(&mut out, ',');
            }
            out.append(self.inputs[i].ty.as_str());
            proof {
                let next = inputs.take(i + 1);
                assert(next.drop_last() =~= inputs.take(i as int));
                assert(next.last() == self.inputs@[i as int]@);
                if i == 0 {
                    assert(out@ =~= self.name@ + seq!['('] + type_list(next));
                } else {
                    assert(next.len() > 1);
                    assert(out@ =~= self.name@ + seq!['('] + type_list(next));
                }
            }
            i += 1;
        }
        push_char(&mut out, ')');
        proof {
            assert(inputs.take(i as int) =~= inputs);
            assert(out@ =~= signature_text(self@));
        }
        out
    }

    /// The selector: the Keccak-256 digest of the signature.
    pub fn selector(&self) -> (out: [u8; 32])
        ensures
            out@ == event_selector(self@),
    {
        let signature = self.signature();
        keccak256(signature.as_str().as_bytes())
    }

    /// The number of topics of a log of this event, as the byte that catalogs
    /// are keyed by (the count modulo 256).
    pub fn topic_key(&self) -> (out: u8)
        ensures
            out == catalog_key(self@).1,
    {
        let mut count: u8 = if self.anonymous {
            0
        } else {
            1
        };
        let ghost inputs = self@.inputs;
        let ghost first: nat = if self.anonymous {
            0
        } else {
            1
        };
        let mut i: usize = 0;
        while i < self.inputs.len()
            invariant
                i <= self.inputs.len(),
                inputs == self@.inputs,
                inputs.len() == self.inputs@.len(),
                count == (indexed_count(inputs.take(i as int)) + first) % 256,
            decreases self.inputs.len() - i,
        {
            proof {
                let next = inputs.take(i + 1);
                assert(next.drop_last() =~= inputs.take(i as int));
                assert(next.last() == self.inputs@[i as int]@);
            }
            if self.inputs[i].indexed {
                count = if count == 255 {
                    0
                } else {
                    count + 1
                };
            }
            i += 1;
        }
        proof {
            assert(inputs.take(i as int) =~= inputs);
        }
        count
    }
}

} // verus!
