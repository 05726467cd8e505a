//! Identity consistency: the (name, version) pair a state reports, and the
//! check of the overlay's identity against the live source of truth.

use vstd::prelude::*;

use crate::error::PipelineError;

verus! {

/// Which logical system build produced a given state: a name and a version.
/// The raw encoded form is carried for diagnostics only and is never
/// compared.
#[derive(Debug)]
pub struct Identity {
    pub name: String,
    pub version: u32,
    pub raw: Vec<u8>,
}

/// Two identities agree when name and version both match; the raw encoded
/// form takes no part in the comparison.
pub open spec fn spec_same_identity(a: Identity, b: Identity) -> bool {
    a.name@ == b.name@ && a.version == b.version
}

/// The outcome of a passed identity check.
#[derive(Clone, Copy, Debug, PartialEq, Eq, Structural)]
pub enum CheckOutcome {
    /// Name and version both matched; proceed silently.
    Match,
    /// Mismatch under the lenient policy; proceed, but the caller owes the
    /// operator a warning.
    MismatchWarned,
}

/// Compares the identity computed from the overlay against the live
/// source's self-reported identity. A mismatch aborts the pipeline under
/// the strict policy and degrades to a warning otherwise.
pub fn check(expected: &Identity, actual: &Identity, strict: bool) -> (r: Result<
    CheckOutcome,
    PipelineError,
>)
    ensures
        spec_same_identity(*expected, *actual) ==> r == Ok::<_, PipelineError>(
            CheckOutcome::Match,
        ),
        !spec_same_identity(*expected, *actual) && strict ==> r == Err::<CheckOutcome, _>(
            PipelineError::Consistency,
        ),
        !spec_same_identity(*expected, *actual) && !strict ==> r == Ok::<_, PipelineError>(
            CheckOutcome::MismatchWarned,
        ),
{
    let same = expected.name == actual.name && expected.version == actual.version;
    if same {
        Ok(CheckOutcome::Match)
    } else if strict {
        Err(PipelineError::Consistency)
    } else {
        Ok(CheckOutcome::MismatchWarned)
    }
}

} // verus!
