//! URL construction. Parsing, percent-encoding and serialization are the
//! url crate's work, reached through two trusted wrappers; everything that
//! chains them — endpoint paths, offset/limit defaults, query values — is
//! verified against the names given to their results.

use vstd::prelude::*;

verus! {

use crate::textfmt;

/// The view of an optional string.
pub open spec fn opt_str_view(r: Option<String>) -> Option<Seq<char>> {
    match r {
        Some(s) => Some(s@),
        None => None,
    }
}

/// What the url crate serializes after parsing `url` and appending
/// `segment` to its path (percent-encoding it); nothing when `url` does
/// not parse or cannot carry a path.
pub uninterp spec fn pushed_segment(url: Seq<char>, segment: Seq<char>) -> Option<Seq<char>>;

/// What the url crate serializes after parsing `url` and appending the
/// form-urlencoded pair `key=value` to its query; nothing when `url` does
/// not parse.
pub uninterp spec fn appended_pair(url: Seq<char>, key: Seq<char>, value: Seq<char>) -> Option<
    Seq<char>,
>;

/// Relies on url::Url::parse and url::PathSegmentsMut::push: appends one
/// percent-encoded path segment. `None` when the URL does not parse or is
/// cannot-be-a-base. The url crate aborts on serializations past its
/// documented 4 GiB limit, far beyond any URL this client builds.
#[verifier::external_body]
pub(crate) fn with_path_segment(url: &str, segment: &str) -> (r: Option<String>)
    ensures
        opt_str_view(r) == pushed_segment(url@, segment@),
{
    let mut parsed = url::Url::parse(url).ok()?;
    parsed.path_segments_mut().ok()?.push(segment);
    Some(parsed.to_string())
}

/// Relies on url::Url::parse and form_urlencoded::Serializer::append_pair:
/// appends one form-urlencoded `key=value` pair to the query. `None` when
/// the URL does not parse. The url crate aborts on serializations past
/// its documented 4 GiB limit, far beyond any URL this client builds.
#[verifier::external_body]
pub(crate) fn with_query_pair(url: &str, key: &str, value: &str) -> (r: Option<String>)
    ensures
        opt_str_view(r) == appended_pair(url@, key@, value@),
{
    let mut parsed = url::Url::parse(url).ok()?;
    parsed.query_pairs_mut().append_pair(key, value);
    Some(parsed.to_string())
}

/// The offset actually sent: the caller's, or 0.
pub open spec fn spec_offset_value(offset: Option<u32>) -> u32 {
    match offset {
        Some(o) => o,
        None => 0u32,
    }
}

/// The limit actually sent: the caller's, or 50.
pub open spec fn spec_limit_value(limit: Option<u32>) -> u32 {
    match limit {
        Some(l) => l,
        None => 50u32,
    }
}

/// The URL after the `offset` and `limit` pairs, in that order, with their
/// defaults filled in.
pub open spec fn spec_with_offset_and_limit(
    url: Seq<char>,
    offset: Option<u32>,
    limit: Option<u32>,
) -> Option<Seq<char>> {
    match appended_pair(url, "offset"@, textfmt::dec_digits(spec_offset_value(offset) as nat)) {
        None => None,
        Some(with_offset) => appended_pair(
            with_offset,
            "limit"@,
            textfmt::dec_digits(spec_limit_value(limit) as nat),
        ),
    }
}

/// Appends `offset` and `limit` query parameters; a missing offset
/// defaults to 0 and a missing limit to 50.
pub fn add_offset_and_limit_parameters(url: &str, offset: Option<u32>, limit: Option<u32>) -> (r:
    Option<String>)
    ensures
        opt_str_view(r) == spec_with_offset_and_limit(url@, offset, limit),
{
    let offset_value: u32 = match offset {
        Some(o) => o,
        None => 0,
    };
    let limit_value: u32 = match limit {
        Some(l) => l,
        None => 50,
    };
    let with_offset = match with_query_pair(
        url,
        "offset",
        textfmt::u64_to_string(offset_value as u64).as_str(),
    ) {
        Some(u) => u,
        None => {
            return None;
        },
    };
    with_query_pair(with_offset.as_str(), "limit", textfmt::u64_to_string(limit_value as u64).as_str())
}

} // verus!
