//! Whether two event schemas collide, alias, or decode alike.

use vstd::prelude::*;
use crate::events::event::{EventSchema, SchemaView, ParamView};

verus! {

/// The outcome of comparing two event schemas.
#[derive(Debug, Clone, Copy, PartialEq, Eq, Structural)]
pub enum EventComparison {
    /// The two events are exactly the same.
    ExactlyEqual,
    /// There is no reason to compare them.
    NoEquivalence,
    /// The events differ in parameter names only: they decode alike.
    SameDecoding,
    /// Some parameter is indexed in one event and not in the other; reported at
    /// the first such parameter, all types before it being equal.
    MismatchedParamIndexing,
}

impl EventComparison {
    /// Whether the two events would lead to the same decoded output.
    pub open spec fn decodes_same_spec(&self) -> bool {
        *self == EventComparison::ExactlyEqual || *self == EventComparison::SameDecoding
    }

    /// This function returns true if these two events would lead to the same
    /// decoded output.
    #[verifier::when_used_as_spec(decodes_same_spec)]
    pub fn decodes_same(&self) -> (out: bool)
        ensures
            out == self.decodes_same_spec(),
    {
        match self {
            EventComparison::ExactlyEqual => true,
            EventComparison::SameDecoding => true,
            _ => false,
        }
    }
}

/// The comparison of the parameters from position `from` on, `same_names`
/// telling whether every name before it agreed. The first position whose types
/// differ ends it with `NoEquivalence`; the first whose indexing differs, with
/// `MismatchedParamIndexing`.
pub open spec fn compare_params(
    a: Seq<ParamView>,
    b: Seq<ParamView>,
    from: int,
    same_names: bool,
) -> EventComparison
    decreases a.len() - from,
{
    if from < 0 || from >= a.len() {
        if same_names {
            EventComparison::ExactlyEqual
        } else {
            EventComparison::SameDecoding
        }
    } else if a[from].ty != b[from].ty {
        EventComparison::NoEquivalence
    } else if a[from].indexed != b[from].indexed {
        EventComparison::MismatchedParamIndexing
    } else {
        compare_params(a, b, from + 1, same_names && a[from].name == b[from].name)
    }
}

/// The comparison of two events: none where the names or the numbers of
/// parameters differ, else that of their parameters.
pub open spec fn compare_spec(a: SchemaView, b: SchemaView) -> EventComparison {
    if a.name != b.name || a.inputs.len() != b.inputs.len() {
        EventComparison::NoEquivalence
    } else {
        compare_params(a.inputs, b.inputs, 0, true)
    }
}

/// Compares two events. Events that are not equal but would decode alike give
/// `SameDecoding`.
pub fn compare_events(event_a: &EventSchema, event_b: &EventSchema) -> (out: EventComparison)
    ensures
        out == compare_spec(event_a@, event_b@),
{
    if !(event_a.name == event_b.name) || event_a.inputs.len() != event_b.inputs.len() {
        return EventComparison::NoEquivalence;
    }
    let mut exactly_same = true;
    let mut i: usize = 0;
    while i < event_a.inputs.len()
        invariant
            i <= event_a.inputs.len(),
            event_a.inputs.len() == event_b.inputs.len(),
            event_a@.inputs.len() == event_a.inputs.len(),
            event_b@.inputs.len() == event_b.inputs.len(),
            compare_spec(event_a@, event_b@) == compare_params(
                event_a@.inputs,
                event_b@.inputs,
                i as int,
                exactly_same,
            ),
        decreases event_a.inputs.len() - i,
    {
        let param_a = &event_a.inputs[i];
        let param_b = &event_b.inputs[i];
        assert(event_a@.inputs[i as int] == param_a@);
        assert(event_b@.inputs[i as int] == param_b@);
        if !(param_a.ty == param_b.ty) {
            return EventComparison::NoEquivalence;
        }
        if param_a.indexed != param_b.indexed {
            return EventComparison::MismatchedParamIndexing;
        }
        if exactly_same && !(param_a.name == param_b.name) {
            exactly_same = false;
        }
        i += 1;
    }
    if exactly_same {
        EventComparison::ExactlyEqual
    } else {
        EventComparison::SameDecoding
    }
}

/// From any position on, an event compared with itself is exactly equal.
proof fn lemma_compare_params_reflexive(a: Seq<ParamView>, from: int)
    ensures
        compare_params(a, a, from, true) == EventComparison::ExactlyEqual,
    decreases a.len() - from,
{
    if 0 <= from < a.len() {
        lemma_compare_params_reflexive(a, from + 1);
    }
}

/// Comparing an event with itself gives `ExactlyEqual`.
pub proof fn lemma_compare_reflexive(e: SchemaView)
    ensures
        compare_spec(e, e) == EventComparison::ExactlyEqual,
{
    lemma_compare_params_reflexive(e.inputs, 0);
}

} // verus!
