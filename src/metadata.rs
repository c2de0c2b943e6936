use vstd::prelude::*;
use vstd::slice::{slice_subrange, slice_to_vec};
use crate::error::SourceError;
use crate::json::{
    Json, json_from_bytes, json_is_object, number_member, number_member_of, opt_string_view,
    parse_json, text_member, text_member_of,
};

verus! {

/// What the resolver reports of a media item.
#[derive(Clone, Debug, PartialEq, Eq)]
pub struct Metadata {
    pub title: Option<String>,
    /// The canonical locator of the item, for display.
    pub source_url: Option<String>,
    /// The reported duration in seconds, as the record writes the number.
    pub duration: Option<String>,
    /// The whole record, for resolver-specific fields.
    pub record: Vec<u8>,
}

pub const NEWLINE: u8 = 0x0A;

/// Index of the first newline at or after `i`, or the length if there is none.
pub open spec fn newline_from(b: Seq<u8>, i: nat) -> nat
    decreases b.len() - i,
{
    if i >= b.len() {
        b.len()
    } else if b[i as int] == NEWLINE {
        i
    } else {
        newline_from(b, i + 1)
    }
}

/// The bytes before the first newline, or all of them.
pub open spec fn first_record_spec(b: Seq<u8>) -> Seq<u8> {
    b.take(newline_from(b, 0) as int)
}

/// Metadata read from a record that parses as the JSON object `j`.
pub open spec fn metadata_matches(m: Metadata, j: Json, record: Seq<u8>) -> bool {
    &&& opt_string_view(m.title) == text_member(j, "title"@)
    &&& opt_string_view(m.source_url) == text_member(j, "webpage_url"@)
    &&& opt_string_view(m.duration) == number_member(j, "duration"@)
    &&& m.record@ == record
}

/// Outcome of reading the resolver's diagnostics: the first line must be a
/// JSON object, else the whole output is handed back; no output at all is
/// an error of its own.
pub open spec fn metadata_outcome(diag: Seq<u8>, r: Result<Metadata, SourceError>) -> bool {
    let rec = first_record_spec(diag);
    if diag.len() == 0 {
        r matches Err(SourceError::NoDiagnosticOutput)
    } else {
        match json_from_bytes(rec) {
            Some(j) if j is Object => r matches Ok(m) && metadata_matches(m, j, rec),
            _ => r matches Err(SourceError::MetadataParseFailure { raw }) && raw@ == diag,
        }
    }
}

/// The first line of the diagnostics, without its newline.
pub fn first_record(diag: &[u8]) -> (r: &[u8])
    ensures
        r@ == first_record_spec(diag@),
{
    let mut i: usize = 0;
    while i < diag.len() && diag[i] != NEWLINE
        invariant
            i <= diag@.len(),
            newline_from(diag@, i as nat) == newline_from(diag@, 0),
        decreases diag@.len() - i,
    {
        i = i + 1;
    }
    slice_subrange(diag, 0, i)
}

/// Reads the record that the resolver writes before anything else on its
/// diagnostic stream.
pub fn parse_metadata(diag: &[u8]) -> (r: Result<Metadata, SourceError>)
    ensures
        metadata_outcome(diag@, r),
{
    if diag.len() == 0 {
        return Err(SourceError::NoDiagnosticOutput);
    }
    let rec = first_record(diag);
    match parse_json(rec) {
        Ok(v) => {
            if json_is_object(&v) {
                let title = text_member_of(&v, "title");
                let source_url = text_member_of(&v, "webpage_url");
                let duration = number_member_of(&v, "duration");
                Ok(Metadata { title, source_url, duration, record: slice_to_vec(rec) })
            } else {
                Err(SourceError::MetadataParseFailure { raw: slice_to_vec(diag) })
            }
        },
        Err(_) => Err(SourceError::MetadataParseFailure { raw: slice_to_vec(diag) }),
    }
}

/// Outcome of a metadata-only resolver run from its exit status and its whole
/// diagnostic output: a run that failed without a readable record could not
/// resolve the locator.
pub fn metadata_from_resolver(exit_success: bool, diag: &[u8]) -> (r: Result<Metadata, SourceError>)
    ensures
        exit_success ==> metadata_outcome(diag@, r),
        !exit_success && diag@.len() == 0 ==> r matches Err(SourceError::UpstreamResolutionFailure),
        !exit_success && diag@.len() > 0 ==> match json_from_bytes(first_record_spec(diag@)) {
            Some(j) if j is Object => r matches Ok(m) && metadata_matches(m, j, first_record_spec(diag@)),
            _ => r matches Err(SourceError::UpstreamResolutionFailure),
        },
{
    let parsed = parse_metadata(diag);
    if exit_success {
        parsed
    } else {
        match parsed {
            Ok(m) => Ok(m),
            Err(_) => Err(SourceError::UpstreamResolutionFailure),
        }
    }
}

} // verus!
