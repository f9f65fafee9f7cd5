//! Which of the two chain endpoints to use: the primary where it answers a
//! liveness probe, else the fallback where that one answers.

use vstd::prelude::*;

verus! {

/// One of the two endpoints.
#[derive(Debug, Clone, Copy, PartialEq, Eq, Structural)]
pub enum Endpoint {
    Primary,
    Fallback,
}

/// Whether the fallback has to be probed: only where the primary failed.
pub fn needs_fallback_probe(primary: &Result<String, String>) -> (out: bool)
    ensures
        out == primary is Err,
{
    match primary {
        Ok(_) => false,
        Err(_) => true,
    }
}

/// Picks the endpoint from the outcomes of the probes, each the client version
/// or the error's text. The primary is used wherever it answered; the fallback
/// only where the primary failed and it answered itself, both errors being
/// dropped then; where both failed, both errors come back, the primary's
/// first. The fallback's outcome is wanted only where the primary failed.
pub fn build_active_provider(
    primary: Result<String, String>,
    fallback: Option<Result<String, String>>,
) -> (out: Result<Endpoint, (String, String)>)
    requires
        primary is Err ==> fallback is Some,
    ensures
        primary is Ok ==> out == Ok::<Endpoint, (String, String)>(Endpoint::Primary),
        primary is Err && fallback->0 is Ok ==> out == Ok::<Endpoint, (String, String)>(
            Endpoint::Fallback,
        ),
        primary is Err && fallback->0 is Err ==> out == Err::<Endpoint, (String, String)>(
            (primary->Err_0, fallback->0->Err_0),
        ),
{
    match primary {
        Ok(_) => Ok(Endpoint::Primary),
        Err(err1) => match fallback {
            Some(Ok(_)) => Ok(Endpoint::Fallback),
            Some(Err(err2)) => Err((err1, err2)),
            None => vstd::pervasive::unreached(),
        },
    }
}

} // verus!
