//! The addresses of the numbered segment requests.
//!
//! A segment is asked for at the stream's own address with its query reset
//! to the stream's own query and one more pair appended: `sq` and the
//! sequence number in decimal. Addresses are held as text; the `url` crate
//! parses and rewrites them.

use vstd::prelude::*;
use vstd::arithmetic::power::pow;
use vstd::utf8::encode_utf8;
use vstd::string::StringSliceAdditionalSpecFns;
use crate::decimal::{decimal_chars, decimal_text, lemma_decimal_chars_short};

verus! {

/// The name of the query parameter that carries the sequence number.
pub const SEQUENCE_PARAMETER: &'static str = "sq";

/// The longest text, in bytes, that is handed to the `url` crate. It keeps
/// every address far below the four gigabytes that the crate can index.
pub const TEXT_LIMIT: usize = 0x100_0000;

/// Whether a text is short enough to be handed to the `url` crate.
pub open spec fn fits(text: Seq<char>) -> bool {
    encode_utf8(text).len() <= TEXT_LIMIT
}

/// The view of a text that may be absent.
pub open spec fn text_view(text: Option<String>) -> Option<Seq<char>> {
    match text {
        Some(held) => Some(held@),
        None => None,
    }
}

/// The query of the address that a text parses to: `None` where the text is
/// no address or the address has no query.
pub uninterp spec fn url_query_text(url: Seq<char>) -> Option<Seq<char>>;

/// The address that a text parses to, with its query replaced: `None` where
/// the text is no address.
pub uninterp spec fn url_with_query_text(url: Seq<char>, query: Seq<char>) -> Option<Seq<char>>;

/// The address that a text parses to, with one more pair at the end of its
/// query: `None` where the text is no address.
pub uninterp spec fn url_with_pair_text(url: Seq<char>, name: Seq<char>, value: Seq<char>) -> Option<
    Seq<char>,
>;

/// `url::Url::query` on the address that `url::Url::parse` makes of the text.
/// The result is a function of the text alone; nothing more is claimed of it.
#[verifier::external_body]
fn url_query(url: &str) -> (query: Option<String>)
    ensures
        text_view(query) == url_query_text(url@),
{
    match url::Url::parse(url) {
        Ok(parsed) => parsed.query().map(str::to_owned),
        Err(_) => None,
    }
}

/// `url::Url::set_query` with `Some(query)` on the address that
/// `url::Url::parse` makes of the text, written back as text. The result is
/// a function of the two texts alone; nothing more is claimed of it. The
/// bound keeps the address within what the crate can index.
#[verifier::external_body]
fn url_with_query(url: &str, query: &str) -> (changed: Option<String>)
    requires
        fits(url@),
        fits(query@),
    ensures
        text_view(changed) == url_with_query_text(url@, query@),
{
    match url::Url::parse(url) {
        Ok(mut parsed) => {
            parsed.set_query(Some(query));
            Some(String::from(parsed))
        },
        Err(_) => None,
    }
}

/// `append_pair` on the `url::Url::query_pairs_mut` of the address that
/// `url::Url::parse` makes of the text, written back as text. The result is
/// a function of the three texts alone; nothing more is claimed of it. The
/// bound keeps the address within what the crate can index.
#[verifier::external_body]
fn url_with_pair(url: &str, name: &str, value: &str) -> (changed: Option<String>)
    requires
        fits(url@),
        fits(name@),
        fits(value@),
    ensures
        text_view(changed) == url_with_pair_text(url@, name@, value@),
{
    match url::Url::parse(url) {
        Ok(mut parsed) => {
            parsed.query_pairs_mut().append_pair(name, value);
            Some(String::from(parsed))
        },
        Err(_) => None,
    }
}

/// A query, or the empty text in place of none.
pub open spec fn query_or_empty_text(query: Option<Seq<char>>) -> Seq<char> {
    match query {
        Some(held) => held,
        None => Seq::empty(),
    }
}

/// A query, or the empty text in place of none.
pub fn query_or_empty(query: Option<String>) -> (text: String)
    ensures
        text@ == query_or_empty_text(text_view(query)),
{
    match query {
        Some(held) => held,
        None => String::new(),
    }
}

/// The query that every segment address starts from: the query of the
/// stream's address, or the empty text where it has none.
pub open spec fn base_query_text(url: Seq<char>) -> Seq<char> {
    query_or_empty_text(url_query_text(url))
}

/// The query that every segment address starts from.
pub fn base_query(url: &str) -> (query: String)
    ensures
        query@ == base_query_text(url@),
{
    query_or_empty(url_query(url))
}

/// The address of segment `sq`: the stream's address with its query set to
/// `base_query` and the pair `sq=<sq>` appended. `None` where a text is
/// longer than `TEXT_LIMIT` or the stream's address does not parse.
pub open spec fn segment_url_text(url: Seq<char>, base_query: Seq<char>, sq: u64) -> Option<
    Seq<char>,
> {
    if fits(url) && fits(base_query) {
        numbered_text(url_with_query_text(url, base_query), sq)
    } else {
        None
    }
}

/// An address with the pair `sq=<sq>` appended to its query: `None` where
/// there is no address to start from, where it is longer than `TEXT_LIMIT`,
/// or where it does not parse.
pub open spec fn numbered_text(based: Option<Seq<char>>, sq: u64) -> Option<Seq<char>> {
    match based {
        Some(url) => if fits(url) {
            url_with_pair_text(url, SEQUENCE_PARAMETER@, decimal_chars(sq as nat))
        } else {
            None
        },
        None => None,
    }
}

/// Appends the pair `sq=<sq>` to the query of an address, if there is one
/// to start from.
pub fn numbered(based: Option<String>, sq: u64) -> (address: Option<String>)
    ensures
        text_view(address) == numbered_text(text_view(based), sq),
{
    match based {
        Some(url) => {
            if url.as_str().as_bytes().len() > TEXT_LIMIT {
                return None;
            }
            let number = decimal_text(sq);
            proof {
                reveal_strlit("sq");
                assert(vstd::utf8::is_ascii_chars(SEQUENCE_PARAMETER@));
                vstd::utf8::is_ascii_chars_encode_utf8(SEQUENCE_PARAMETER@);
                assert(sq < pow(10, 20)) by {
                    reveal_with_fuel(pow, 21);
                }
                lemma_decimal_chars_short(sq as nat, 20);
                vstd::utf8::is_ascii_chars_encode_utf8(number@);
            }
            url_with_pair(url.as_str(), SEQUENCE_PARAMETER, number.as_str())
        },
        None => None,
    }
}

/// Builds the address of segment `sq`.
pub fn set_url_seq_query(url: &str, base_query: &str, sq: u64) -> (address: Option<String>)
    ensures
        text_view(address) == segment_url_text(url@, base_query@, sq),
{
    if url.as_bytes().len() > TEXT_LIMIT || base_query.as_bytes().len() > TEXT_LIMIT {
        return None;
    }
    numbered(url_with_query(url, base_query), sq)
}

} // verus!
