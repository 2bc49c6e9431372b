//! Remote locations: how they are told from local paths, and the options that
//! travel with a scan of them.

use vstd::prelude::*;

verus! {

/// Credentials and settings for a remote object store. The library never
/// looks inside: a value given with the scan arguments is the value that the
/// path expansion and the scan node receive.
#[verifier::external_type_specification]
#[verifier::external_body]
pub struct ExCloudOptions(polars_io::cloud::CloudOptions);

/// The URL schemes that mark a path as a remote location.
pub open spec fn cloud_schemes() -> Seq<Seq<char>> {
    seq![
        "s3"@,
        "s3a"@,
        "gs"@,
        "gcs"@,
        "file"@,
        "abfs"@,
        "abfss"@,
        "azure"@,
        "az"@,
        "adl"@,
        "http"@,
        "https"@,
    ]
}

/// Whether `text` begins with `scheme` followed by `://`.
pub open spec fn has_scheme(text: Seq<char>, scheme: Seq<char>) -> bool {
    (scheme + "://"@).is_prefix_of(text)
}

/// Whether `text` is a cloud URL: it begins with one of [`cloud_schemes`]
/// followed by `://`. The match is case-sensitive.
pub open spec fn has_cloud_scheme(text: Seq<char>) -> bool {
    exists|i: int| 0 <= i < cloud_schemes().len() && has_scheme(text, #[trigger] cloud_schemes()[i])
}

/// Whether `path` is a cloud URL.
///
/// Trusted: calls `polars_io::utils::is_cloud_url`, which matches the text
/// against the anchored pattern `^(s3a?|gs|gcs|file|abfss?|azure|az|adl|https?)://`.
/// The contract spells that pattern out as [`has_cloud_scheme`].
#[verifier::external_body]
pub(crate) fn is_cloud_url(path: &String) -> (r: bool)
    ensures
        r == has_cloud_scheme(path@),
{
    polars_io::utils::is_cloud_url(path.as_str())
}

} // verus!
