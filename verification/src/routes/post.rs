//! Serving posts: by id, or by their unique slug, whose last twelve
//! characters are the post id in hexadecimal.

use vstd::prelude::*;

verus! {

pub open spec fn is_hex_digit(c: char) -> bool {
    ('0' <= c && c <= '9') || ('a' <= c && c <= 'f') || ('A' <= c && c <= 'F')
}

/// The post id in a unique slug: its last twelve characters, when they are
/// all hexadecimal digits.
pub open spec fn slug_post_id(slug: Seq<char>) -> Option<Seq<char>> {
    if slug.len() >= 12 && forall|i: int| slug.len() - 12 <= i < slug.len() ==> is_hex_digit(slug[i]) {
        Some(slug.subrange(slug.len() - 12, slug.len() as int))
    } else {
        None
    }
}

/// The pattern that picks the post id out of a unique slug.
pub open spec fn post_id_pattern() -> Seq<char> {
    "([[:xdigit:]]{12}$)"@
}

/// Calls `regex::Regex::new(pattern)` and `Regex::captures(text)`, and
/// returns the text of the whole match. It is admitted for the one pattern
/// that picks a slug's post id, which compiles; for it the contract claims
/// what the pattern means: the match is the twelve hexadecimal digits that
/// end the text, when the text ends in twelve such digits.
#[verifier::external_body]
fn regex_whole_match(pattern: &str, text: &str) -> (r: Option<String>)
    requires
        pattern@ == post_id_pattern(),
    ensures
        match r {
            None => slug_post_id(text@) is None,
            Some(m) => slug_post_id(text@) == Some(m@),
        },
{
    regex::Regex::new(pattern).unwrap().captures(text).map(|c| c[0].to_string())
}

/// The post id in a unique slug, if it ends in one.
pub fn post_id_from_slug(unique_slug: &str) -> (r: Option<String>)
    ensures
        match r {
            None => slug_post_id(unique_slug@) is None,
            Some(id) => slug_post_id(unique_slug@) == Some(id@),
        },
{
    regex_whole_match("([[:xdigit:]]{12}$)", unique_slug)
}

/// Body of the answer when a post cannot be served.
pub open spec fn failure_text(error: Seq<char>) -> Seq<char> {
    "Something went wrong: "@ + error
}

/// Body of the answer when a post or a page cannot be served.
pub fn failure_message(error: &str) -> (r: String)
    ensures
        r@ == failure_text(error@),
{
    String::from_str("Something went wrong: ").concat(error)
}

} // verus!
