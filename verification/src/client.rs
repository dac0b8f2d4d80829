//! Request construction and response interpretation for the search endpoint.

use vstd::prelude::*;
use vstd::string::StringExecFns;

use crate::json::parse_search_response;
use crate::json::spec_parse_response;
use crate::model::CliError;
use crate::model::SearchResponse;
use crate::model::opt_view;
use crate::num::spec_dec_digits;
use crate::num::u64_to_string;

verus! {

/// Whether a character stands for itself in a URL query value (RFC 3986's
/// unreserved set).
pub open spec fn is_unreserved(c: char) -> bool {
    ('a' <= c && c <= 'z') || ('A' <= c && c <= 'Z') || ('0' <= c && c <= '9') || c == '-' || c
        == '_' || c == '.' || c == '~'
}

/// The character for one hexadecimal digit value, upper case.
pub open spec fn spec_hex_char(d: int) -> char {
    if d < 10 {
        crate::num::spec_digit_char(d)
    } else if d == 10 {
        'A'
    } else if d == 11 {
        'B'
    } else if d == 12 {
        'C'
    } else if d == 13 {
        'D'
    } else if d == 14 {
        'E'
    } else {
        'F'
    }
}

/// The percent-escape of one byte: `%` and two hexadecimal digits.
pub open spec fn spec_pct_byte(b: int) -> Seq<char> {
    seq!['%', spec_hex_char(b / 16), spec_hex_char(b % 16)]
}

/// The percent-encoding of one character: itself when unreserved, else the
/// percent-escapes of its UTF-8 bytes.
pub open spec fn spec_pct_encode_char(c: char) -> Seq<char> {
    let n = c as int;
    if is_unreserved(c) {
        seq![c]
    } else if n < 0x80 {
        spec_pct_byte(n)
    } else if n < 0x800 {
        spec_pct_byte(0xC0 + n / 64) + spec_pct_byte(0x80 + n % 64)
    } else if n < 0x10000 {
        spec_pct_byte(0xE0 + n / 4096) + spec_pct_byte(0x80 + (n / 64) % 64) + spec_pct_byte(
            0x80 + n % 64,
        )
    } else {
        spec_pct_byte(0xF0 + n / 262144) + spec_pct_byte(0x80 + (n / 4096) % 64) + spec_pct_byte(
            0x80 + (n / 64) % 64,
        ) + spec_pct_byte(0x80 + n % 64)
    }
}

/// The percent-encoding of the characters of `s` from index `k` on.
pub open spec fn spec_pct_encode_from(s: Seq<char>, k: int) -> Seq<char>
    decreases s.len() - k,
{
    if !(0 <= k < s.len()) {
        Seq::empty()
    } else {
        spec_pct_encode_char(s[k]) + spec_pct_encode_from(s, k + 1)
    }
}

/// The percent-encoding of a whole value.
pub open spec fn spec_pct_encode(s: Seq<char>) -> Seq<char> {
    spec_pct_encode_from(s, 0)
}

fn hex_char_str(d: u32) -> (r: &'static str)
    requires
        d < 16,
    ensures
        r@ == seq![spec_hex_char(d as int)],
{
    proof {
        reveal_strlit("0");
        reveal_strlit("1");
        reveal_strlit("2");
        reveal_strlit("3");
        reveal_strlit("4");
        reveal_strlit("5");
        reveal_strlit("6");
        reveal_strlit("7");
        reveal_strlit("8");
        reveal_strlit("9");
        reveal_strlit("A");
        reveal_strlit("B");
        reveal_strlit("C");
        reveal_strlit("D");
        reveal_strlit("E");
        reveal_strlit("F");
    }
    let r: &'static str = if d == 0 {
        "0"
    } else if d == 1 {
        "1"
    } else if d == 2 {
        "2"
    } else if d == 3 {
        "3"
    } else if d == 4 {
        "4"
    } else if d == 5 {
        "5"
    } else if d == 6 {
        "6"
    } else if d == 7 {
        "7"
    } else if d == 8 {
        "8"
    } else if d == 9 {
        "9"
    } else if d == 10 {
        "A"
    } else if d == 11 {
        "B"
    } else if d == 12 {
        "C"
    } else if d == 13 {
        "D"
    } else if d == 14 {
        "E"
    } else {
        "F"
    };
    proof {
        assert(r@ =~= seq![spec_hex_char(d as int)]);
    }
    r
}

fn pct_byte(b: u32) -> (out: String)
    requires
        b < 256,
    ensures
        out@ == spec_pct_byte(b as int),
{
    let mut out = String::from_str("%");
    out.append(hex_char_str(b / 16));
    out.append(hex_char_str(b % 16));
    proof {
        reveal_strlit("%");
        assert(out@ =~= spec_pct_byte(b as int));
    }
    out
}

fn pct_encode_multibyte(c: char) -> (out: String)
    requires
        !is_unreserved(c),
    ensures
        out@ == spec_pct_encode_char(c),
{
    let n = c as u32;
    let out: String = if n < 0x80 {
        pct_byte(n)
    } else if n < 0x800 {
        pct_byte(0xC0 + n / 64).concat(pct_byte(0x80 + n % 64).as_str())
    } else if n < 0x10000 {
        pct_byte(0xE0 + n / 4096).concat(pct_byte(0x80 + (n / 64) % 64).as_str()).concat(
            pct_byte(0x80 + n % 64).as_str(),
        )
    } else {
        pct_byte(0xF0 + n / 262144).concat(pct_byte(0x80 + (n / 4096) % 64).as_str()).concat(
            pct_byte(0x80 + (n / 64) % 64).as_str(),
        ).concat(pct_byte(0x80 + n % 64).as_str())
    };
    proof {
        assert(out@ =~= spec_pct_encode_char(c));
    }
    out
}

fn pct_encode_from(s: &str, k: usize) -> (out: String)
    requires
        k <= s@.len(),
    ensures
        out@ == spec_pct_encode_from(s@, k as int),
    decreases s@.len() - k,
{
    if k == s.unicode_len() {
        String::new()
    } else {
        let c = s.get_char(k);
        let piece: String = if ('a' <= c && c <= 'z') || ('A' <= c && c <= 'Z') || ('0' <= c && c
            <= '9') || c == '-' || c == '_' || c == '.' || c == '~' {
            let t = s.substring_char(k, k + 1);
            proof {
                assert(t@ =~= seq![s@[k as int]]);
            }
            String::from_str(t)
        } else {
            pct_encode_multibyte(c)
        };
        let rest = pct_encode_from(s, k + 1);
        let out = piece.concat(rest.as_str());
        proof {
            assert(out@ =~= spec_pct_encode_from(s@, k as int));
        }
        out
    }
}

/// Percent-encodes a query value: unreserved characters stand for
/// themselves, every other character becomes the percent-escapes of its
/// UTF-8 bytes.
pub fn pct_encode(s: &str) -> (out: String)
    ensures
        out@ == spec_pct_encode(s@),
{
    pct_encode_from(s, 0)
}

/// The URL of a search request against a base endpoint, with the query and
/// category values percent-encoded:
/// `{api_url}/skills?query={enc(query)}&limit={limit}[&category={enc(category)}]`.
pub open spec fn spec_search_url(
    api_url: Seq<char>,
    query: Seq<char>,
    category: Option<Seq<char>>,
    limit: u32,
) -> Seq<char> {
    let base = api_url + "/skills?query="@ + spec_pct_encode(query) + "&limit="@ + spec_dec_digits(
        limit as int,
    );
    match category {
        Some(c) => base + "&category="@ + spec_pct_encode(c),
        None => base,
    }
}

/// Builds the search request URL, character for character as the wire
/// contract states it.
pub fn build_search_url(api_url: &str, query: &str, category: &Option<String>, limit: u32) -> (url:
    String)
    ensures
        url@ == spec_search_url(api_url@, query@, opt_view(*category), limit),
{
    let mut url = String::from_str(api_url);
    url.append("/skills?query=");
    let enc_query = pct_encode(query);
    url.append(enc_query.as_str());
    url.append("&limit=");
    let limit_digits = u64_to_string(limit as u64);
    url.append(limit_digits.as_str());
    match category {
        Some(c) => {
            url.append("&category=");
            let enc_category = pct_encode(c.as_str());
            url.append(enc_category.as_str());
        },
        None => {},
    }
    proof {
        assert(url@ =~= spec_search_url(api_url@, query@, opt_view(*category), limit));
    }
    url
}

/// Turns the HTTP status and body of a completed search request into the
/// typed outcome. A status outside the 2xx range is an API error carrying
/// that status, and the body is not read at all; within 2xx the body either
/// decodes to the response or the outcome is a decode error.
pub fn interpret_search_response(status: u16, body: &str) -> (r: Result<SearchResponse, CliError>)
    ensures
        !(200 <= status < 300) ==> r == Err::<SearchResponse, CliError>(CliError::Api(status)),
        200 <= status < 300 && spec_parse_response(body@) is None ==> r == Err::<
            SearchResponse,
            CliError,
        >(CliError::Decode),
        200 <= status < 300 && spec_parse_response(body@) is Some ==> (r matches Ok(resp)
            && Some(resp@) == spec_parse_response(body@)),
{
    if status < 200 || status >= 300 {
        Err(CliError::Api(status))
    } else {
        match parse_search_response(body) {
            Some(resp) => Ok(resp),
            None => Err(CliError::Decode),
        }
    }
}

} // verus!
