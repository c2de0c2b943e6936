use vstd::prelude::*;
use vstd::slice::slice_to_vec;
use crate::error::SourceError;
use crate::json::{
    Json, json_array, json_from_bytes, json_get, json_of, opt_string_view, parse_json, text_member,
    text_member_of,
};

verus! {

/// The entries of a flat playlist listing: the `entries` array of an
/// object. `None` where the document is no such listing.
pub open spec fn listing_entries(j: Json) -> Option<Seq<Json>> {
    match j {
        Json::Object(m) => if m.contains_key("entries"@) {
            match m["entries"@] {
                Json::Array(items) => Some(items),
                _ => None,
            }
        } else {
            None
        },
        _ => None,
    }
}

/// The `url` of each entry, in listing order; `None` where an entry has none.
pub open spec fn listing_urls(entries: Seq<Json>) -> Seq<Option<Seq<char>>> {
    entries.map_values(|e: Json| text_member(e, "url"@))
}

pub open spec fn opt_string_views(v: Seq<Option<String>>) -> Seq<Option<Seq<char>>> {
    v.map_values(|o: Option<String>| opt_string_view(o))
}

/// Expands the resolver's flat listing of a playlist into the locators of its
/// items, in order. Output that is not a listing (one JSON object with an
/// `entries` array) is an error that carries it verbatim; an empty array is
/// an empty playlist.
pub fn get_playlist_videos(listing: &[u8]) -> (r: Result<Vec<Option<String>>, SourceError>)
    ensures
        match json_from_bytes(listing@) {
            Some(j) if listing_entries(j) is Some => r matches Ok(urls) && opt_string_views(urls@)
                == listing_urls(listing_entries(j)->0),
            _ => r matches Err(SourceError::MetadataParseFailure { raw }) && raw@ == listing@,
        },
{
    let v = match parse_json(listing) {
        Ok(v) => v,
        Err(_) => {
            return Err(SourceError::MetadataParseFailure { raw: slice_to_vec(listing) });
        },
    };
    let mut urls: Vec<Option<String>> = Vec::new();
    let entries = match json_get(&v, "entries") {
        Some(e) => json_array(e),
        None => None,
    };
    let ghost j = json_of(v);
    match entries {
        Some(items) => {
            let ghost es = listing_entries(j)->0;
            assert(es.len() == items@.len());
            let mut i: usize = 0;
            while i < items.len()
                invariant
                    i <= items@.len(),
                    listing_entries(j) == Some(es),
                    items@.len() == es.len(),
                    forall|k: int| 0 <= k < items@.len() ==> json_of(#[trigger] items@[k]) == es[k],
                    opt_string_views(urls@) == listing_urls(es).take(i as int),
                decreases items@.len() - i,
            {
                let u = text_member_of(&items[i], "url");
                assert(opt_string_view(u) == listing_urls(es)[i as int]);
                let ghost before = urls@;
                urls.push(u);
                assert(opt_string_views(urls@) =~= opt_string_views(before).push(opt_string_view(u)));
                assert(opt_string_views(urls@) =~= listing_urls(es).take(i + 1));
                i = i + 1;
            }
            assert(listing_urls(es).take(i as int) =~= listing_urls(es));
            Ok(urls)
        },
        None => Err(SourceError::MetadataParseFailure { raw: slice_to_vec(listing) }),
    }
}

} // verus!
