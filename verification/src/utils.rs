//! Utility functions: cache locations and the fingerprint of file metadata.

use vstd::prelude::*;
use md5::{Digest, Md5};
use crate::util::format::{hex_lower, lemma_hex_lower_len, to_hex_lower};
use crate::library::media_viewer::{content_type_of, content_type_of_lowercase, ViewerContentType};
use crate::util::listing::{join_path, joined_path};
use crate::application::uses_home_cache;

verus! {

/// Seconds and nanoseconds since the Unix epoch.
#[derive(Debug, Clone, Copy, PartialEq, Eq, Structural)]
pub struct Timestamp {
    pub secs_since_epoch: u64,
    pub nanos_since_epoch: u32,
}

/// The file metadata information that the thumbnailer needs to serialize
/// and fingerprint.
#[derive(Debug, Clone)]
pub struct MetadataInfo {
    pub file_type: String,
    pub size: u64,
    pub modified: Timestamp,
    pub accessed: Timestamp,
    pub created: Timestamp,
}

/// The MD5 digest of `data`, as the `md-5` crate computes it.
pub uninterp spec fn md5_digest(data: Seq<u8>) -> Seq<u8>;

/// Computes the MD5 digest of `data` with `Md5::digest` of the `md-5`
/// crate. The contract claims that the result is `md5_digest` of the bytes
/// and has the 16 bytes of an MD5 output.
#[verifier::external_body]
fn md5_of(data: &[u8]) -> (r: Vec<u8>)
    ensures
        r@ == md5_digest(data@),
        r@.len() == 16,
{
    Md5::digest(data).to_vec()
}

/// The fingerprint of serialized metadata: the MD5 digest of the bytes in
/// lower-case hexadecimal.
pub open spec fn metadata_fingerprint(serialized: Seq<u8>) -> Seq<char> {
    hex_lower(md5_digest(serialized))
}

/// Returns the MD5 digest of the serialized metadata `serialized`, in
/// lower-case hexadecimal.
pub fn get_metadata_hash(serialized: &[u8]) -> (r: String)
    ensures
        r@ == metadata_fingerprint(serialized@),
        r@.len() == 32,
{
    let digest: Vec<u8> = md5_of(serialized);
    proof {
        lemma_hex_lower_len(digest@);
    }
    to_hex_lower(digest.as_slice())
}

/// The user's cache directory: `$XDG_CACHE_HOME` when it is set and not
/// empty, `$HOME/.cache` otherwise (an empty value counts as unset, as the
/// XDG base directory specification asks).
pub open spec fn cache_directory(xdg_cache_home: Option<Seq<char>>, home: Seq<char>) -> Seq<char> {
    match xdg_cache_home {
        Some(v) if v.len() > 0 => v,
        _ => home + "/.cache"@,
    }
}

/// Returns the absolute path of the user's cache directory: the value of
/// `$XDG_CACHE_HOME` (`xdg_cache_home`) when it is set and not empty, and
/// otherwise `.cache` under `$HOME` (`home`), which is then needed.
pub fn get_cache_directory(xdg_cache_home: Option<String>, home: Option<String>) -> (r: String)
    requires
        uses_home_cache(match xdg_cache_home { Some(v) => Some(v@), None => None }) ==> home is Some,
    ensures
        r@ == cache_directory(
            match xdg_cache_home { Some(v) => Some(v@), None => None },
            match home { Some(h) => h@, None => Seq::empty() },
        ),
{
    match xdg_cache_home {
        Some(value) if !value.as_str().is_empty() => {
            return value;
        },
        _ => {},
    }
    let mut r: String = match home {
        Some(h) => h,
        None => String::new(),
    };
    r.append("/.cache");
    r
}

/// Returns the absolute path of the application's cache directory: the
/// folder `app_name` in the user's cache directory `cache_dir`.
pub fn get_app_cache_directory(cache_dir: &str, app_name: &str) -> (r: String)
    ensures
        r@ == joined_path(cache_dir@, app_name@),
{
    join_path(cache_dir, app_name)
}

/// Returns the content type that matches the file extension given, as
/// written (the extension is not lower-cased first).
pub fn get_content_type_from_ext(file_ext: &str) -> (r: ViewerContentType)
    ensures
        r == content_type_of(file_ext@),
{
    content_type_of_lowercase(file_ext)
}

} // verus!
