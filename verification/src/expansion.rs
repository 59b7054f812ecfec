//! Expansion: what each log statement and each formatting mark becomes under
//! a selected backend.

use vstd::prelude::*;

use crate::backend::Backend;
use crate::backend::SelectError;
use crate::backend::select_backend;
use crate::backend::spec_select;

verus! {

/// The five severity levels a log statement can carry.
#[derive(Clone, Copy, PartialEq, Eq, Structural, Debug)]
pub enum Level {
    /// The _error_ level.
    Error,
    /// The _warn_ level.
    Warn,
    /// The _info_ level.
    Info,
    /// The _debug_ level.
    Debug,
    /// The _trace_ level.
    Trace,
}

/// What a log statement becomes in a final build: a call into the binary
/// backend's facility at the statement's level, a call into the textual
/// backend's facility at the statement's level, or nothing at all.
#[derive(Clone, Copy, PartialEq, Eq, Structural, Debug)]
pub enum LogExpansion {
    /// A call into the binary backend at the carried level.
    BinaryCall(Level),
    /// A call into the textual backend at the carried level.
    TextCall(Level),
    /// No code: the statement vanishes from the build.
    Nothing,
}

/// What a data-type definition marked for derived formatting becomes: the
/// binary backend's formatting derive, the textual debug derive, or the
/// definition unchanged.
#[derive(Clone, Copy, PartialEq, Eq, Structural, Debug)]
pub enum FormatExpansion {
    /// The binary backend's formatting derive is attached.
    BinaryFormat,
    /// The standard textual debug derive is attached.
    TextDebug,
    /// The definition passes through unchanged.
    Unchanged,
}

/// What a log statement at the given level becomes under the given backend:
/// each backend receives the statement at its own level, and no backend
/// swallows it.
pub open spec fn spec_log_expansion(backend: Backend, level: Level) -> LogExpansion {
    match backend {
        Backend::Binary => LogExpansion::BinaryCall(level),
        Backend::Text => LogExpansion::TextCall(level),
        Backend::Off => LogExpansion::Nothing,
    }
}

/// Expand a log statement at the given level under the given backend.
pub fn log_expansion(backend: Backend, level: Level) -> (r: LogExpansion)
    ensures
        r == spec_log_expansion(backend, level),
{
    match backend {
        Backend::Binary => LogExpansion::BinaryCall(level),
        Backend::Text => LogExpansion::TextCall(level),
        Backend::Off => LogExpansion::Nothing,
    }
}

/// What a formatting mark on a data-type definition becomes under the given
/// backend.
pub open spec fn spec_format_expansion(backend: Backend) -> FormatExpansion {
    match backend {
        Backend::Binary => FormatExpansion::BinaryFormat,
        Backend::Text => FormatExpansion::TextDebug,
        Backend::Off => FormatExpansion::Unchanged,
    }
}

/// Expand a formatting mark on a data-type definition under the given
/// backend.
pub fn format_expansion(backend: Backend) -> (r: FormatExpansion)
    ensures
        r == spec_format_expansion(backend),
{
    match backend {
        Backend::Binary => FormatExpansion::BinaryFormat,
        Backend::Text => FormatExpansion::TextDebug,
        Backend::Off => FormatExpansion::Unchanged,
    }
}

/// What a log statement becomes in a build with the given feature flags:
/// backend selection followed by expansion, with conflicting flags the one
/// fault.
pub open spec fn spec_expand_log(binary: bool, text: bool, level: Level) -> Result<
    LogExpansion,
    SelectError,
> {
    match spec_select(binary, text) {
        Ok(b) => Ok(spec_log_expansion(b, level)),
        Err(e) => Err(e),
    }
}

/// Expand a log statement at the given level in a build whose two feature
/// flags are given.
pub fn expand_log(binary: bool, text: bool, level: Level) -> (r: Result<LogExpansion, SelectError>)
    ensures
        r == spec_expand_log(binary, text, level),
        r is Err <==> (binary && text),
{
    match select_backend(binary, text) {
        Ok(b) => Ok(log_expansion(b, level)),
        Err(e) => Err(e),
    }
}

/// What a formatting mark becomes in a build with the given feature flags:
/// backend selection followed by expansion, with conflicting flags the one
/// fault.
pub open spec fn spec_expand_format(binary: bool, text: bool) -> Result<
    FormatExpansion,
    SelectError,
> {
    match spec_select(binary, text) {
        Ok(b) => Ok(spec_format_expansion(b)),
        Err(e) => Err(e),
    }
}

/// Expand a formatting mark on a data-type definition in a build whose two
/// feature flags are given.
pub fn expand_format(binary: bool, text: bool) -> (r: Result<FormatExpansion, SelectError>)
    ensures
        r == spec_expand_format(binary, text),
        r is Err <==> (binary && text),
{
    match select_backend(binary, text) {
        Ok(b) => Ok(format_expansion(b)),
        Err(e) => Err(e),
    }
}

/// A build that selects no backend expands every log statement to nothing,
/// and a build that selects a backend silences none.
pub proof fn lemma_silent_iff_no_backend(backend: Backend, level: Level)
    ensures
        spec_log_expansion(backend, level) is Nothing <==> backend is Off,
{
}

/// Whatever backend a log statement forwards to, it forwards at the
/// statement's own level: expansion never changes severity.
pub proof fn lemma_expansion_keeps_level(backend: Backend, level: Level)
    ensures
        spec_log_expansion(backend, level) matches LogExpansion::BinaryCall(k) ==> k == level,
        spec_log_expansion(backend, level) matches LogExpansion::TextCall(k) ==> k == level,
{
}

/// A formatting mark passes a definition through unchanged exactly in a
/// build that selects no backend.
pub proof fn lemma_unchanged_iff_no_backend(backend: Backend)
    ensures
        spec_format_expansion(backend) is Unchanged <==> backend is Off,
{
}

} // verus!
