//! Backend selection: which logging backend a build's feature flags pick.

use vstd::prelude::*;

verus! {

/// The logging backend that a final application links: a binary-efficient
/// embedded formatter, a conventional textual logger, or none at all.
#[derive(Clone, Copy, PartialEq, Eq, Structural, Debug)]
pub enum Backend {
    /// The binary-efficient embedded formatter.
    Binary,
    /// The conventional textual logger.
    Text,
    /// No backend: every log statement vanishes.
    Off,
}

/// The one configuration fault a facade can report: both backend flags were
/// set at once, though they are mutually exclusive.
#[derive(Clone, Copy, PartialEq, Eq, Structural, Debug)]
pub enum SelectError {
    /// Both backend flags were set in the same build.
    ConflictingBackends,
}

/// The backend a build selects from its two feature flags: setting both is a
/// fault, a single flag selects its backend, and no flag selects no backend.
pub open spec fn spec_select(binary: bool, text: bool) -> Result<Backend, SelectError> {
    if binary && text {
        Err(SelectError::ConflictingBackends)
    } else if binary {
        Ok(Backend::Binary)
    } else if text {
        Ok(Backend::Text)
    } else {
        Ok(Backend::Off)
    }
}

/// Select the backend for a build whose two feature flags are given.
pub fn select_backend(binary: bool, text: bool) -> (r: Result<Backend, SelectError>)
    ensures
        r == spec_select(binary, text),
        r is Err <==> (binary && text),
{
    if binary && text {
        Err(SelectError::ConflictingBackends)
    } else if binary {
        Ok(Backend::Binary)
    } else if text {
        Ok(Backend::Text)
    } else {
        Ok(Backend::Off)
    }
}

/// Selection admits exactly the flag pairs with at most one flag set, and a
/// selected backend is the flagged one: the backends are mutually exclusive
/// and leaving both flags unset switches logging off.
pub proof fn lemma_selection_exclusive(binary: bool, text: bool)
    ensures
        spec_select(binary, text) is Ok <==> !(binary && text),
        spec_select(binary, text) == Ok::<Backend, SelectError>(Backend::Binary) <==> (binary
            && !text),
        spec_select(binary, text) == Ok::<Backend, SelectError>(Backend::Text) <==> (!binary
            && text),
        spec_select(binary, text) == Ok::<Backend, SelectError>(Backend::Off) <==> (!binary
            && !text),
{
}

} // verus!
