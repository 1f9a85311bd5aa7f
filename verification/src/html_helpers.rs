//! Recognising RSS feeds and decoding HTML entities.
use vstd::prelude::*;
use crate::text::{contains, str_contains};
use crate::extract_html::{extract, extract_spec};

verus! {

/// What `htmlescape::decode_html` returns for a string: the decoded text, or `None` when
/// the decoder reports an error.
pub uninterp spec fn html_decoded(s: Seq<char>) -> Option<Seq<char>>;

#[verifier::external_type_specification]
#[verifier::external_body]
pub struct ExDecodeErr(htmlescape::DecodeErr);

/// Calls `htmlescape::decode_html`. Claimed: its result is a function of the input alone,
/// named `html_decoded`; nothing more is claimed of the decoding itself.
#[verifier::external_body]
fn htmlescape_decode_html(s: &str) -> (r: Result<String, htmlescape::DecodeErr>)
    ensures
        r matches Ok(v) ==> html_decoded(s@) == Some(v@),
        r is Err ==> html_decoded(s@) is None,
{
    htmlescape::decode_html(s)
}

/// The de-escaped text of `s`, or `s` itself where it is not valid HTML.
pub open spec fn decode_html_spec(s: Seq<char>) -> Seq<char> {
    match html_decoded(s) {
        Some(v) => v,
        None => s,
    }
}

/// de-escapes an HTML sequence if the input is valid HTML. If it is invalid, it returns the input string unchanged
pub fn decode_html(html_string: &str) -> (r: String)
    ensures
        r@ == decode_html_spec(html_string@),
{
    match htmlescape_decode_html(html_string) {
        Ok(new_value) => new_value,
        Err(_) => String::from_str(html_string),
    }
}

/// The text `<rss version`.
pub open spec fn rss_version_marker() -> Seq<char> {
    seq!['<', 'r', 's', 's', ' ', 'v', 'e', 'r', 's', 'i', 'o', 'n']
}

/// The text `xmlns:atom`.
pub open spec fn atom_marker() -> Seq<char> {
    seq!['x', 'm', 'l', 'n', 's', ':', 'a', 't', 'o', 'm']
}

/// The text `<title>`.
pub open spec fn title_open() -> Seq<char> {
    seq!['<', 't', 'i', 't', 'l', 'e', '>']
}

/// The text `</title>`.
pub open spec fn title_close() -> Seq<char> {
    seq!['<', '/', 't', 'i', 't', 'l', 'e', '>']
}

/// Whether a downloaded text looks like an RSS feed.
pub open spec fn looks_like_rss(s: Seq<char>) -> bool {
    contains(s, rss_version_marker()) || contains(s, atom_marker())
}

/// Work out if a podcast string is an RSS feed, & if it is, return the name of the podcast
/// after de-escaping it
pub fn is_rss(podcast_string: &str) -> (r: Option<String>)
    ensures
        r is Some <==> looks_like_rss(podcast_string@),
        r matches Some(t) ==> t@ == decode_html_spec(
            extract_spec(podcast_string@, title_open(), title_close()),
        ),
{
    let marker1 = "<rss version";
    let marker2 = "xmlns:atom";
    proof {
        reveal_strlit("<rss version");
        reveal_strlit("xmlns:atom");
        assert(marker1@ =~= rss_version_marker());
        assert(marker2@ =~= atom_marker());
    }
    let has_version = str_contains(podcast_string, marker1);
    let has_atom = str_contains(podcast_string, marker2);
    if has_version || has_atom {
        let open = "<title>";
        let close = "</title>";
        proof {
            reveal_strlit("<title>");
            reveal_strlit("</title>");
            assert(open@ =~= title_open());
            assert(close@ =~= title_close());
        }
        Some(decode_html(extract(podcast_string, open, close)))
    } else {
        None
    }
}

} // verus!
