use vstd::prelude::*;
use bsky_sdk::api::types::string::{AtIdentifier, Language, Nsid};
use bsky_sdk::rich_text::RichText;
use crate::at_uri::is_alnum;
use crate::text::split_on;

verus! {

pub open spec fn is_lower(c: char) -> bool {
    'a' <= c && c <= 'z'
}

pub open spec fn is_alpha(c: char) -> bool {
    is_lower(c) || ('A' <= c && c <= 'Z')
}

/// Characters of the identifier part of a DID.
pub open spec fn did_char(c: char) -> bool {
    is_alnum(c) || c == '.' || c == '_' || c == ':' || c == '%' || c == '-'
}

/// `s` is a DID whose method ends at position `m`: `did:`, lowercase letters,
/// `:` at `m`, then at least one character of `did_char`, the last of them
/// neither `:` nor `%`.
pub open spec fn did_with_method_end(s: Seq<char>, m: int) -> bool {
    &&& 4 < m && m + 1 < s.len()
    &&& s[0] == 'd' && s[1] == 'i' && s[2] == 'd' && s[3] == ':'
    &&& s[m] == ':'
    &&& forall|i: int| 4 <= i < m ==> is_lower(#[trigger] s[i])
    &&& forall|i: int| m < i < s.len() ==> did_char(#[trigger] s[i])
    &&& s.last() != ':' && s.last() != '%'
}

/// A DID as the AT Protocol library accepts it: at most 2048 characters
/// matching `did:[a-z]+:[a-zA-Z0-9._:%-]*[a-zA-Z0-9._-]`.
pub open spec fn did_valid(s: Seq<char>) -> bool {
    s.len() <= 2048 && exists|m: int| did_with_method_end(s, m)
}

/// A domain label: one to 63 letters, digits and hyphens, starting and
/// ending with a letter or digit.
pub open spec fn label_valid(l: Seq<char>) -> bool {
    &&& 1 <= l.len() <= 63
    &&& is_alnum(l[0]) && is_alnum(l.last())
    &&& forall|i: int| 0 <= i < l.len() ==> is_alnum(#[trigger] l[i]) || l[i] == '-'
}

/// A handle as the AT Protocol library accepts it: at most 253 characters,
/// two or more labels joined by dots, the last starting with a letter.
pub open spec fn handle_valid(s: Seq<char>) -> bool {
    let parts = split_on(s, '.');
    &&& s.len() <= 253
    &&& parts.len() >= 2
    &&& forall|i: int| 0 <= i < parts.len() ==> label_valid(#[trigger] parts[i])
    &&& is_alpha(parts.last()[0])
}

/// Whether a text is an AT identifier: a DID or, failing that, a handle, as
/// the AT Protocol library parses them.
pub open spec fn at_identifier_valid(s: Seq<char>) -> bool {
    did_valid(s) || handle_valid(s)
}

/// Whether a text is a namespaced identifier (NSID) as the AT Protocol
/// library accepts it: at most 317 characters; three or more segments joined
/// by dots; the first a label starting with a letter, the middle ones
/// labels, the last one to 63 letters and digits starting with a letter.
pub open spec fn nsid_valid(s: Seq<char>) -> bool {
    let parts = split_on(s, '.');
    let name = parts.last();
    &&& s.len() <= 317
    &&& parts.len() >= 3
    &&& label_valid(parts[0]) && is_alpha(parts[0][0])
    &&& forall|i: int| 1 <= i < parts.len() - 1 ==> label_valid(#[trigger] parts[i])
    &&& 1 <= name.len() <= 63 && is_alpha(name[0])
    &&& forall|i: int| 0 <= i < name.len() ==> is_alnum(#[trigger] name[i])
}

/// Whether a text is a language tag, as the AT Protocol library parses them.
pub uninterp spec fn language_tag_valid(s: Seq<char>) -> bool;

/// The number of extended grapheme clusters of a text, as the Bluesky
/// library counts the length of a post.
pub uninterp spec fn grapheme_count(s: Seq<char>) -> usize;

/// Parses `s` with `AtIdentifier::from_str` (`Did::new`, then
/// `Handle::new`: a length limit and a regular expression each) and tells
/// whether that succeeded, as `at_identifier_valid` states.
#[verifier::external_body]
pub(crate) fn is_at_identifier(s: &str) -> (r: bool)
    ensures
        r == at_identifier_valid(s@),
{
    s.parse::<AtIdentifier>().is_ok()
}

/// Parses `s` with `Nsid::from_str` (a length limit and a regular
/// expression) and tells whether that succeeded, as `nsid_valid` states.
#[verifier::external_body]
pub(crate) fn is_nsid(s: &str) -> (r: bool)
    ensures
        r == nsid_valid(s@),
{
    s.parse::<Nsid>().is_ok()
}

/// Parses `s` with `Language::from_str` and tells whether that succeeded;
/// the result is `language_tag_valid` of the text.
#[verifier::external_body]
pub(crate) fn is_language_tag(s: &str) -> (r: bool)
    ensures
        r == language_tag_valid(s@),
{
    s.parse::<Language>().is_ok()
}

/// `RichText::new(text, None).grapheme_len()`: the length of a post's text
/// in graphemes; the result is `grapheme_count` of the text.
#[verifier::external_body]
pub(crate) fn post_text_len(text: &str) -> (r: usize)
    ensures
        r == grapheme_count(text@),
{
    RichText::new(text, None).grapheme_len()
}

} // verus!
