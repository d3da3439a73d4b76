//! Classifying where a wheel lives — a cloud bucket, an HTTP registry, or
//! the local filesystem — and parsing cloud object URIs.

use vstd::prelude::*;

use crate::text::{find_char, lemma_find_from_bounds, spec_find, spec_has_prefix, starts_with_str};

verus! {

/// Which store a wheel path names.
#[derive(Clone, Copy, Debug, PartialEq, Eq, Structural)]
pub enum WheelSource {
    /// A `gs://bucket/path` object-store URI.
    Cloud,
    /// An `http://` or `https://` registry URL.
    Registry,
    /// A local file path.
    LocalFile,
}

/// Where the wheel named by `s` lives, by URI scheme.
pub open spec fn spec_wheel_source(s: Seq<char>) -> WheelSource {
    if spec_has_prefix(s, "gs://"@) {
        WheelSource::Cloud
    } else if spec_has_prefix(s, "http://"@) || spec_has_prefix(s, "https://"@) {
        WheelSource::Registry
    } else {
        WheelSource::LocalFile
    }
}

/// Classify a wheel path by its URI scheme.
pub fn classify_wheel_path(s: &str) -> (r: WheelSource)
    ensures
        r == spec_wheel_source(s@),
{
    if starts_with_str(s, "gs://") {
        WheelSource::Cloud
    } else if starts_with_str(s, "http://") || starts_with_str(s, "https://") {
        WheelSource::Registry
    } else {
        WheelSource::LocalFile
    }
}

/// Why a cloud URI fails to parse.
#[derive(Clone, Copy, Debug, PartialEq, Eq, Structural)]
pub enum GcsUriError {
    /// The URI does not start with `gs://`.
    MissingScheme,
    /// No `/` separates the bucket from an object path.
    MissingObjectPath,
}

/// The bucket and object path a `gs://bucket/path` URI names.
pub open spec fn spec_parse_gcs_uri(s: Seq<char>) -> Result<(Seq<char>, Seq<char>), GcsUriError> {
    if !spec_has_prefix(s, "gs://"@) {
        Err(GcsUriError::MissingScheme)
    } else {
        let rest = s.subrange("gs://"@.len() as int, s.len() as int);
        match spec_find(rest, seq!['/']) {
            Some(i) => Ok((rest.subrange(0, i), rest.subrange(i + 1, rest.len() as int))),
            None => Err(GcsUriError::MissingObjectPath),
        }
    }
}

/// Parse a `gs://bucket/path` URI into its bucket and object path (the
/// object path may be empty).
pub fn parse_gcs_uri(uri: &str) -> (r: Result<(String, String), GcsUriError>)
    ensures
        match r {
            Ok(bo) => spec_parse_gcs_uri(uri@) == Ok::<_, GcsUriError>((bo.0@, bo.1@)),
            Err(e) => spec_parse_gcs_uri(uri@) == Err::<(Seq<char>, Seq<char>), _>(e),
        },
{
    proof {
        reveal_strlit("gs://");
        assert("gs://"@.len() == 5);
    }
    if !starts_with_str(uri, "gs://") {
        return Err(GcsUriError::MissingScheme);
    }
    let len = uri.unicode_len();
    let rest = uri.substring_char(5, len);
    match find_char(rest, '/') {
        Some(i) => {
            proof {
                lemma_find_from_bounds(rest@, seq!['/'], 0);
            }
            let rest_len = rest.unicode_len();
            let bucket = String::from_str(rest.substring_char(0, i));
            let object = String::from_str(rest.substring_char(i + 1, rest_len));
            Ok((bucket, object))
        },
        None => Err(GcsUriError::MissingObjectPath),
    }
}

} // verus!
