//! Errors of the transformation and of the whole per-block pipeline.

use vstd::prelude::*;
use vstd::string::*;
use vstd::std_specs::convert::FromSpecImpl;

verus! {

/// A failed transformation: what went wrong, and the field it was about.
#[derive(Debug, Clone)]
pub struct TransformationErr {
    err: String,
    field: Option<String>,
}

/// The mathematical form of a `TransformationErr`.
pub struct TransformationErrView {
    pub err: Seq<char>,
    pub field: Option<Seq<char>>,
}

impl View for TransformationErr {
    type V = TransformationErrView;

    closed spec fn view(&self) -> TransformationErrView {
        TransformationErrView {
            err: self.err@,
            field: match self.field {
                Some(f) => Some(f@),
                None => None,
            },
        }
    }
}

/// The view of an error with these two parts.
pub open spec fn failure(err: Seq<char>, field: Option<Seq<char>>) -> TransformationErrView {
    TransformationErrView { err, field }
}

/// The text of a transformation error, with the field where one is named.
pub open spec fn transformation_text(e: TransformationErrView) -> Seq<char> {
    match e.field {
        Some(f) => "Error during transformation with field `"@ + f + "`: "@ + e.err,
        None => "Error during transformation: "@ + e.err,
    }
}

impl TransformationErr {
    pub fn new(err: String, field: Option<String>) -> (out: Self)
        ensures
            out@.err == err@,
            out@.field == match field {
                Some(f) => Some(f@),
                None => None,
            },
    {
        TransformationErr { err, field }
    }

    /// An error from the text of the failure and the name of the field.
    pub fn tagged(err: String, field: &str) -> (out: Self)
        ensures
            out@ == failure(err@, Some(field@)),
    {
        TransformationErr { err, field: Some(String::from_str(field)) }
    }

    /// An error from two fixed texts: the failure and the name of the field.
    pub fn missing(err: &str, field: &str) -> (out: Self)
        ensures
            out@ == failure(err@, Some(field@)),
    {
        TransformationErr { err: String::from_str(err), field: Some(String::from_str(field)) }
    }

    /// An error that names no field.
    pub fn untagged(err: String) -> (out: Self)
        ensures
            out@ == failure(err@, None),
    {
        TransformationErr { err, field: None }
    }

    /// What went wrong.
    pub fn err(&self) -> (out: &String)
        ensures
            out@ == self@.err,
    {
        &self.err
    }

    /// The field that the error is about, if it names one.
    pub fn field(&self) -> (out: &Option<String>)
        ensures
            out is Some <==> self@.field is Some,
            out is Some ==> out->0@ == self@.field->0,
    {
        &self.field
    }

    /// The error as one line of text.
    pub fn message(&self) -> (out: String)
        ensures
            out@ == transformation_text(self@),
    {
        match &self.field {
            Some(field_name) => {
                let mut out = String::from_str("Error during transformation with field `");
                out.append(field_name.as_str());
                out.append("`: ");
                out.append(self.err.as_str());
                out
            },
            None => {
                let mut out = String::from_str("Error during transformation: ");
                out.append(self.err.as_str());
                out
            },
        }
    }
}

/// Why a block produced no records.
#[derive(Debug, Clone)]
pub enum ExtractTransformErr {
    /// The chain has no block of that number.
    ExtractorReturnedNone,
    /// The transport failed; the text is the transport's own.
    Rpc(String),
    /// The block was fetched but could not be reshaped.
    Transformation(TransformationErr),
}

impl ExtractTransformErr {
    /// The view of the transformation error inside, if that is what it is.
    pub open spec fn transformation(&self) -> Option<TransformationErrView> {
        match self {
            ExtractTransformErr::Transformation(e) => Some(e@),
            _ => None,
        }
    }
}

impl From<TransformationErr> for ExtractTransformErr {
    fn from(value: TransformationErr) -> (out: Self) {
        ExtractTransformErr::Transformation(value)
    }
}

impl FromSpecImpl<TransformationErr> for ExtractTransformErr {
    open spec fn obeys_from_spec() -> bool {
        true
    }

    open spec fn from_spec(value: TransformationErr) -> Self {
        ExtractTransformErr::Transformation(value)
    }
}

/// Why a step of the transformation makes the block fail.
pub enum StepFailure {
    /// A transformation error whose text and field are known.
    Exact(TransformationErrView),
    /// A log whose event is in the catalog does not fit it. The error names no
    /// field; its text is the decoder's.
    Decode,
}

impl StepFailure {
    /// Whether an error is this failure.
    pub open spec fn is_error(&self, err: ExtractTransformErr) -> bool {
        match self {
            StepFailure::Exact(e) => err.transformation() == Some(*e),
            StepFailure::Decode => err.transformation() is Some
                && err.transformation()->0.field is None,
        }
    }
}

/// The failure of the first item that has one, where the items are taken in
/// order; none where no item fails.
pub open spec fn first_failure<E>(failures: Seq<Option<E>>) -> Option<E>
    decreases failures.len(),
{
    if failures.len() == 0 {
        None
    } else {
        match first_failure(failures.drop_last()) {
            Some(e) => Some(e),
            None => failures.last(),
        }
    }
}

/// Where no item fails, there is no first failure.
pub proof fn lemma_no_failure<E>(failures: Seq<Option<E>>)
    requires
        forall|i: int| 0 <= i < failures.len() ==> failures[i] is None,
    ensures
        first_failure(failures) is None,
    decreases failures.len(),
{
    if failures.len() > 0 {
        lemma_no_failure(failures.drop_last());
    }
}

/// Where the item at `at` fails and none before it does, its failure is the
/// first.
pub proof fn lemma_first_failure<E>(failures: Seq<Option<E>>, at: int)
    requires
        0 <= at < failures.len(),
        failures[at] is Some,
        forall|i: int| 0 <= i < at ==> failures[i] is None,
    ensures
        first_failure(failures) == failures[at],
    decreases failures.len(),
{
    if at == failures.len() - 1 {
        lemma_no_failure(failures.drop_last());
    } else {
        lemma_first_failure(failures.drop_last(), at);
    }
}

/// Where some item fails, there is a first failure.
pub proof fn lemma_some_failure<E>(failures: Seq<Option<E>>, at: int)
    requires
        0 <= at < failures.len(),
        failures[at] is Some,
    ensures
        first_failure(failures) is Some,
    decreases failures.len(),
{
    if at < failures.len() - 1 {
        lemma_some_failure(failures.drop_last(), at);
    }
}

} // verus!
