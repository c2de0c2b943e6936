use vstd::prelude::*;

verus! {

/// Why a pipeline could not be produced, or why an operation is not valid in
/// the source's current state.
#[derive(Clone, Debug, PartialEq, Eq)]
pub enum SourceError {
    /// An executable could not be started.
    ProcessSpawnFailure,
    /// The resolver's diagnostics held no well-formed record; carries them verbatim.
    MetadataParseFailure { raw: Vec<u8> },
    /// The resolver ended its diagnostic stream without writing anything.
    NoDiagnosticOutput,
    /// A stream handle expected after a spawn was absent.
    PipeUnavailable,
    /// The resolver reported that it cannot resolve the locator.
    UpstreamResolutionFailure,
    /// Audio was requested while no pipeline is live.
    NotLive,
    /// Metadata was requested while none is held.
    NoMetadata,
}

} // verus!
