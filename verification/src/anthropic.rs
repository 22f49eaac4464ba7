//! The Anthropic API base URL a client is configured with.
use vstd::prelude::*;

use reqwest::header::{HeaderMap, HeaderValue};

use crate::text::{blank, chars_of, is_blank, string_of, trim_end_char, trimmed_end_char};

verus! {

/// The API used when no base URL is configured.
pub open spec fn default_api_base() -> Seq<char> {
    "https://api.anthropic.com"@
}

/// The API base for a configured `ANTHROPIC_BASE_URL`: the configured value
/// unless it is unset or blank, then without trailing slashes.
pub open spec fn api_base_text(configured: Option<Seq<char>>) -> Seq<char> {
    let chosen = match configured {
        Some(v) => if is_blank(v) {
            default_api_base()
        } else {
            v
        },
        None => default_api_base(),
    };
    trim_end_char(chosen, '/')
}

/// Stripping the trailing copies of `c` leaves no trailing `c`.
pub proof fn lemma_trim_end_char_leaves_none(s: Seq<char>, c: char)
    ensures
        trim_end_char(s, c).len() == 0 || trim_end_char(s, c).last() != c,
    decreases s.len(),
{
    if s.len() > 0 && s.last() == c {
        lemma_trim_end_char_leaves_none(s.drop_last(), c);
    }
}

/// The API base never ends in a slash, so paths can be appended with one.
pub proof fn lemma_api_base_has_no_trailing_slash(configured: Option<Seq<char>>)
    ensures
        api_base_text(configured).len() == 0 || api_base_text(configured).last() != '/',
{
    let chosen = match configured {
        Some(v) => if is_blank(v) {
            default_api_base()
        } else {
            v
        },
        None => default_api_base(),
    };
    lemma_trim_end_char_leaves_none(chosen, '/');
}

/// The API base for the configured `ANTHROPIC_BASE_URL`, if any.
pub fn api_base(configured: Option<&str>) -> (r: String)
    ensures
        r@ == api_base_text(match configured {
            Some(v) => Some(v@),
            None => None,
        }),
{
    let chosen = match configured {
        Some(v) if !blank(v) => v,
        _ => "https://api.anthropic.com",
    };
    string_of(&trimmed_end_char(&chars_of(chosen), '/'))
}

// ---------------------------------------------------------------------------
// Request headers
// ---------------------------------------------------------------------------

#[verifier::external_type_specification]
#[verifier::external_body]
#[verifier::reject_recursive_types(T)]
pub struct ExHeaderMap<T>(HeaderMap<T>);

#[verifier::external_type_specification]
#[verifier::external_body]
pub struct ExHeaderValue(HeaderValue);

/// The entries of a header map: each (lower-case) header name with the texts
/// of its values, in order.
pub uninterp spec fn header_entries(headers: HeaderMap<HeaderValue>) -> Map<Seq<char>, Seq<Seq<char>>>;

/// `Clone` of `HeaderMap<T>`, derived field by field in http. What the clone
/// holds (the same entries) is not stated here: the name for a map's entries
/// covers `HeaderMap<HeaderValue>` only, and this item must keep the generic
/// signature of the source.
pub assume_specification<T: Clone>[ <HeaderMap<T> as Clone>::clone ](m: &HeaderMap<T>) -> HeaderMap<T>;

/// A header map without entries.
pub open spec fn no_headers() -> Map<Seq<char>, Seq<Seq<char>>> {
    Map::empty()
}

/// A character `HeaderValue::from_str` accepts: a tab, or one at or above a
/// space other than DEL (every byte of a non-ASCII character is accepted).
pub open spec fn header_value_char(c: char) -> bool {
    c == '\t' || (c as u32 >= 32 && c as u32 != 127)
}

/// A text `HeaderValue::from_str` accepts.
pub open spec fn valid_header_value(s: Seq<char>) -> bool {
    forall|i: int| 0 <= i < s.len() ==> header_value_char(#[trigger] s[i])
}

/// Text made of visible ASCII characters and spaces (an API key among
/// them).
pub open spec fn printable_ascii(s: Seq<char>) -> bool {
    forall|i: int| 0 <= i < s.len() ==> 0x20 <= (#[trigger] s[i]) as u32 && (s[i] as u32) < 0x7f
}

/// Which characters a header value may hold: every visible ASCII character,
/// the space and the tab, and every non-ASCII character; never another
/// control character or DEL.
pub proof fn lemma_header_value_chars(c: char)
    ensures
        0x20 <= c as u32 && (c as u32) < 0x7f ==> header_value_char(c),
        c == '\t' ==> header_value_char(c),
        c as u32 >= 0x80 ==> header_value_char(c),
        (c as u32) < 0x20 && c != '\t' ==> !header_value_char(c),
        c as u32 == 0x7f ==> !header_value_char(c),
{
}

/// Every text of visible ASCII characters and spaces is a valid header
/// value.
pub proof fn lemma_printable_ascii_is_header_value(s: Seq<char>)
    requires
        printable_ascii(s),
    ensures
        valid_header_value(s),
{
    assert forall|i: int| 0 <= i < s.len() implies header_value_char(#[trigger] s[i]) by {
        lemma_header_value_chars(s[i]);
    }
}

/// A static header name `HeaderMap::insert` takes without panicking: one to
/// sixty-four lower-case letters, digits or hyphens.
pub open spec fn valid_static_header_name(s: Seq<char>) -> bool {
    &&& 0 < s.len() <= 64
    &&& forall|i: int| 0 <= i < s.len() ==> {
        ||| 'a' <= #[trigger] s[i] <= 'z'
        ||| '0' <= s[i] <= '9'
        ||| s[i] == '-'
    }
}

/// `HeaderMap::new`: an empty map.
#[verifier::external_body]
fn new_header_map() -> (r: HeaderMap)
    ensures
        header_entries(r) == no_headers(),
{
    HeaderMap::new()
}

/// `HeaderMap::insert` of `value` parsed by `HeaderValue::from_str`: the name
/// now maps to that one value, replacing any earlier values; the other
/// entries are unchanged. Only maps of at most one name are admitted: far
/// below the size at which the map's growth, which `insert` attempts before
/// it looks the name up, panics.
#[verifier::external_body]
fn insert_header(headers: &mut HeaderMap<HeaderValue>, name: &'static str, value: &str)
    requires
        valid_static_header_name(name@),
        valid_header_value(value@),
        header_entries(*old(headers)).dom().finite(),
        header_entries(*old(headers)).dom().len() <= 1,
    ensures
        header_entries(*final(headers)) == header_entries(*old(headers)).insert(name@, seq![value@]),
{
    headers.insert(name, HeaderValue::from_str(value).unwrap());
}

/// Whether `HeaderValue::from_str` accepts `value`.
pub fn is_valid_header_value(value: &str) -> (r: bool)
    ensures
        r == valid_header_value(value@),
        printable_ascii(value@) ==> r,
{
    let cs = chars_of(value);
    let mut i: usize = 0;
    while i < cs.len()
        invariant
            i <= cs.len(),
            cs@ == value@,
            forall|k: int| 0 <= k < i ==> header_value_char(#[trigger] cs@[k]),
        decreases cs.len() - i,
    {
        let c = cs[i];
        let u = c as u32;
        if !(c == '\t' || (u >= 32 && u != 127)) {
            assert(!header_value_char(cs@[i as int]));
            return false;
        }
        i = i + 1;
    }
    proof {
        if printable_ascii(value@) {
            lemma_printable_ascii_is_header_value(value@);
        }
    }
    true
}

/// The API version requests are made against.
pub open spec fn api_version() -> Seq<char> {
    "2023-06-01"@
}

/// Connection settings for the Anthropic API.
#[derive(Debug, Clone)]
pub struct Config {
    pub api_base: String,
    pub headers: HeaderMap,
}

impl Config {
    /// The settings for `api_key` and the configured `ANTHROPIC_BASE_URL`: the
    /// key and the API version as headers, and the API base.
    pub fn from_settings(api_key: &str, base_url: Option<&str>) -> (r: Config)
        requires
            valid_header_value(api_key@),
        ensures
            r.api_base@ == api_base_text(match base_url {
                Some(v) => Some(v@),
                None => None,
            }),
            header_entries(r.headers) == no_headers().insert(
                "x-api-key"@,
                seq![api_key@],
            ).insert("anthropic-version"@, seq![api_version()]),
    {
        proof {
            reveal_strlit("x-api-key");
            reveal_strlit("anthropic-version");
            reveal_strlit("2023-06-01");
        }
        let mut headers = new_header_map();
        insert_header(&mut headers, "x-api-key", api_key);
        assert(header_entries(headers).dom() =~= set!["x-api-key"@]);
        insert_header(&mut headers, "anthropic-version", "2023-06-01");
        Config { api_base: api_base(base_url), headers }
    }
}

impl Default for Config {
    /// No API base and no headers.
    fn default() -> (r: Config)
        ensures
            r.api_base@ == Seq::<char>::empty(),
            header_entries(r.headers) == no_headers(),
    {
        Config { api_base: String::new(), headers: new_header_map() }
    }
}

} // verus!
