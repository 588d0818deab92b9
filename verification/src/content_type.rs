//! Guessing a content type from a file path's extension, for serving
//! precompressed assets.

use vstd::prelude::*;
use crate::sys::str_ends_with;

verus! {

/// Whether `suffix` ends `s`.
pub open spec fn is_suffix_of(suffix: Seq<char>, s: Seq<char>) -> bool {
    suffix.len() <= s.len() && s.subrange(s.len() - suffix.len(), s.len() as int) == suffix
}

/// The content type `guess_content_type` assigns to a path, by its
/// extension; anything unrecognized is an octet stream.
pub open spec fn spec_content_type(path: Seq<char>) -> Seq<char> {
    if is_suffix_of(".js"@, path) {
        "application/javascript; charset=UTF-8"@
    } else if is_suffix_of(".css"@, path) {
        "text/css; charset=UTF-8"@
    } else if is_suffix_of(".html"@, path) {
        "text/html; charset=UTF-8"@
    } else if is_suffix_of(".json"@, path) {
        "application/json; charset=UTF-8"@
    } else if is_suffix_of(".svg"@, path) {
        "image/svg+xml"@
    } else if is_suffix_of(".woff2"@, path) {
        "font/woff2"@
    } else if is_suffix_of(".woff"@, path) {
        "font/woff"@
    } else {
        "application/octet-stream"@
    }
}

/// Guess the content type of a static asset from its path's extension.
pub fn guess_content_type(path: &str) -> (r: &'static str)
    ensures
        r@ == spec_content_type(path@),
{
    if str_ends_with(path, ".js") {
        "application/javascript; charset=UTF-8"
    } else if str_ends_with(path, ".css") {
        "text/css; charset=UTF-8"
    } else if str_ends_with(path, ".html") {
        "text/html; charset=UTF-8"
    } else if str_ends_with(path, ".json") {
        "application/json; charset=UTF-8"
    } else if str_ends_with(path, ".svg") {
        "image/svg+xml"
    } else if str_ends_with(path, ".woff2") {
        "font/woff2"
    } else if str_ends_with(path, ".woff") {
        "font/woff"
    } else {
        "application/octet-stream"
    }
}

} // verus!
