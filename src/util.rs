//! Paths of object stores.

use vstd::prelude::*;
use vstd::string::*;
use crate::text::{starts_with, text_starts_with};

verus! {

/// The text that `regex::Regex::replace` gives when the pattern `pattern`
/// compiles and its first match in `text` is replaced by nothing; `None`
/// when the pattern does not compile.
pub uninterp spec fn regex_first_removed(pattern: Seq<char>, text: Seq<char>) -> Option<Seq<char>>;

/// Relies on `regex::Regex::new` to compile `pattern` and on
/// `Regex::replace` to remove its first match from `text`.
#[verifier::external_body]
fn remove_first_match(pattern: &str, text: &str) -> (r: Option<String>)
    ensures
        r is Some <==> regex_first_removed(pattern@, text@) is Some,
        r is Some ==> r->Some_0@ == regex_first_removed(pattern@, text@)->Some_0,
{
    regex::Regex::new(pattern).ok().map(|re| re.replace(text, "").into_owned())
}

/// `text` without the first match of `pattern`, or `text` itself when the
/// pattern does not compile.
pub open spec fn removed_or_kept(pattern: Seq<char>, text: Seq<char>) -> Seq<char> {
    match regex_first_removed(pattern, text) {
        Some(t) => t,
        None => text,
    }
}

/// A path without its object store scheme and bucket, for the schemes
/// `s3a://`, `s3://` and `gs://`: the first match of the scheme, word
/// characters and `/` is removed.
pub open spec fn strip_prefix_spec(path: Seq<char>) -> Seq<char> {
    if starts_with(path, "s3a://"@) {
        removed_or_kept("s3a://\\w*/"@, path)
    } else if starts_with(path, "s3://"@) {
        removed_or_kept("s3://\\w*/"@, path)
    } else if starts_with(path, "gs://"@) {
        removed_or_kept("gs://\\w*/"@, path)
    } else {
        path
    }
}

fn remove_or_keep(pattern: &str, path: &str) -> (r: String)
    ensures
        r@ == removed_or_kept(pattern@, path@),
{
    match remove_first_match(pattern, path) {
        Some(t) => t,
        None => String::from_str(path),
    }
}

/// The path without its object store scheme and bucket: for a path that
/// starts with `s3a://`, `s3://` or `gs://`, the first match of the scheme
/// followed by word characters and `/` is removed; other paths are kept.
pub fn strip_prefix(path: &str) -> (r: String)
    ensures
        r@ == strip_prefix_spec(path@),
{
    if text_starts_with(path, "s3a://") {
        remove_or_keep("s3a://\\w*/", path)
    } else if text_starts_with(path, "s3://") {
        remove_or_keep("s3://\\w*/", path)
    } else if text_starts_with(path, "gs://") {
        remove_or_keep("gs://\\w*/", path)
    } else {
        String::from_str(path)
    }
}

} // verus!
