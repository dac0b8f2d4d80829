//! Verified decoder for the search endpoint's wire format.
//!
//! The backend answers `{"total": <unsigned integer>, "skills": [<skill>...]}`
//! where each skill is an object with exactly the string fields `id`, `name`,
//! `description`, `category` and `author`. The decoder accepts that shape and
//! nothing else: members may come in any order, but a missing, repeated or
//! unknown member, trailing text, or a number outside `u32` all fail, and the
//! caller reports a decode error. String escapes cover the single-character
//! JSON escapes and the `\uXXXX` form, a surrogate pair standing for one
//! character; a lone surrogate is rejected.
//!
//! Every `spec` function here is the reference reading of the grammar; each
//! executable function is proved to return exactly what its spec twin says.

use vstd::prelude::*;
use vstd::string::StrSliceExecFns;
use vstd::string::StringExecFns;
use vstd::utf8::is_scalar;

use crate::model::SearchData;
use crate::model::SearchResponse;
use crate::model::SkillData;
use crate::model::SkillResult;
use crate::model::opt_view;
use crate::model::skills_view;
use crate::num::is_digit;
use crate::num::spec_digit_val;

verus! {

/// Whether a character is JSON whitespace.
pub open spec fn is_ws(c: char) -> bool {
    c == ' ' || c == '\t' || c == '\n' || c == '\r'
}

/// The first position at or after `i` that holds no whitespace.
pub open spec fn spec_skip_ws(s: Seq<char>, i: int) -> int
    decreases s.len() - i,
{
    if !(0 <= i < s.len()) {
        i
    } else if is_ws(s[i]) {
        spec_skip_ws(s, i + 1)
    } else {
        i
    }
}

fn skip_ws(s: &str, i: usize) -> (j: usize)
    requires
        i <= s@.len(),
    ensures
        j == spec_skip_ws(s@, i as int),
        i <= j <= s@.len(),
    decreases s@.len() - i,
{
    if i == s.unicode_len() {
        i
    } else {
        let c = s.get_char(i);
        if c == ' ' || c == '\t' || c == '\n' || c == '\r' {
            skip_ws(s, i + 1)
        } else {
            i
        }
    }
}

/// What a single-character escape after a backslash stands for; `None` for
/// an escape the decoder does not accept. A `u` begins a four-digit escape,
/// which the string grammar handles on its own.
pub open spec fn spec_escape_char(c: char) -> Option<char> {
    if c == '"' {
        Some('"')
    } else if c == '\\' {
        Some('\\')
    } else if c == '/' {
        Some('/')
    } else if c == 'n' {
        Some('\n')
    } else if c == 't' {
        Some('\t')
    } else if c == 'r' {
        Some('\r')
    } else if c == 'b' {
        Some('\u{8}')
    } else if c == 'f' {
        Some('\u{c}')
    } else {
        None
    }
}

fn escape_str(c: char) -> (r: Option<&'static str>)
    ensures
        match spec_escape_char(c) {
            Some(e) => r matches Some(t) && t@ == seq![e],
            None => r is None,
        },
{
    proof {
        reveal_strlit("\"");
        reveal_strlit("\\");
        reveal_strlit("/");
        reveal_strlit("\n");
        reveal_strlit("\t");
        reveal_strlit("\r");
        reveal_strlit("\u{8}");
        reveal_strlit("\u{c}");
    }
    let r: Option<&'static str> = if c == '"' {
        Some("\"")
    } else if c == '\\' {
        Some("\\")
    } else if c == '/' {
        Some("/")
    } else if c == 'n' {
        Some("\n")
    } else if c == 't' {
        Some("\t")
    } else if c == 'r' {
        Some("\r")
    } else if c == 'b' {
        Some("\u{8}")
    } else if c == 'f' {
        Some("\u{c}")
    } else {
        None
    };
    proof {
        if let Some(e) = spec_escape_char(c) {
            assert(r matches Some(t) && t@ =~= seq![e]);
        }
    }
    r
}

/// Whether a character is a hexadecimal digit, either case.
pub open spec fn is_hex_digit(c: char) -> bool {
    ('0' <= c && c <= '9') || ('a' <= c && c <= 'f') || ('A' <= c && c <= 'F')
}

/// The value of one hexadecimal digit character.
pub open spec fn spec_hex_val(c: char) -> int {
    if '0' <= c && c <= '9' {
        c as int - '0' as int
    } else if 'a' <= c && c <= 'f' {
        c as int - 'a' as int + 10
    } else {
        c as int - 'A' as int + 10
    }
}

/// The value of four hexadecimal digits at `i`, when they stand there.
pub open spec fn spec_four_hex(s: Seq<char>, i: int) -> Option<int> {
    if 0 <= i && i + 4 <= s.len() && is_hex_digit(s[i]) && is_hex_digit(s[i + 1]) && is_hex_digit(
        s[i + 2],
    ) && is_hex_digit(s[i + 3]) {
        Some(
            spec_hex_val(s[i]) * 4096 + spec_hex_val(s[i + 1]) * 256 + spec_hex_val(s[i + 2]) * 16
                + spec_hex_val(s[i + 3]),
        )
    } else {
        None
    }
}

/// The decoded content of a string literal whose opening quote stands before
/// `i`, accumulated on `acc`, together with the position after the closing
/// quote. A `\uXXXX` escape stands for the character with that code; a high
/// surrogate must be followed by a `\uXXXX` low surrogate, the pair standing
/// for one character beyond the basic plane, and a lone surrogate fails.
pub open spec fn spec_string_chars(s: Seq<char>, i: int, acc: Seq<char>) -> Option<(Seq<char>, int)>
    decreases s.len() - i,
{
    if !(0 <= i < s.len()) {
        None
    } else if s[i] == '"' {
        Some((acc, i + 1))
    } else if s[i] == '\\' {
        if i + 1 >= s.len() {
            None
        } else if s[i + 1] == 'u' {
            match spec_four_hex(s, i + 2) {
                None => None,
                Some(v) => {
                    if 0xD800 <= v < 0xDC00 {
                        if i + 7 < s.len() && s[i + 6] == '\\' && s[i + 7] == 'u' {
                            match spec_four_hex(s, i + 8) {
                                None => None,
                                Some(w) => {
                                    if 0xDC00 <= w < 0xE000 {
                                        spec_string_chars(
                                            s,
                                            i + 12,
                                            acc.push(
                                                ((0x10000 + (v - 0xD800) * 0x400 + (w
                                                    - 0xDC00)) as u32) as char,
                                            ),
                                        )
                                    } else {
                                        None
                                    }
                                },
                            }
                        } else {
                            None
                        }
                    } else if 0xDC00 <= v < 0xE000 {
                        None
                    } else {
                        spec_string_chars(s, i + 6, acc.push((v as u32) as char))
                    }
                },
            }
        } else {
            match spec_escape_char(s[i + 1]) {
                Some(c) => spec_string_chars(s, i + 2, acc.push(c)),
                None => None,
            }
        }
    } else if (s[i] as int) < 0x20 {
        None
    } else {
        spec_string_chars(s, i + 1, acc.push(s[i]))
    }
}

/// Relies on char::from_u32: its documentation states that it returns the
/// character with the given code for every Unicode scalar value, and `None`
/// for a surrogate or out-of-range value.
pub assume_specification[ char::from_u32 ](i: u32) -> (r: Option<char>)
    ensures
        r is Some <==> is_scalar(i),
        r matches Some(c) ==> c as u32 == i,
;

/// Relies on String::push: its documentation states that it appends the
/// given character to the end of the string.
#[verifier::external_body]
fn push_char(s: &mut String, c: char)
    ensures
        final(s)@ == old(s)@.push(c),
{
    s.push(c);
}

fn hex_digit(c: char) -> (b: bool)
    ensures
        b == is_hex_digit(c),
{
    ('0' <= c && c <= '9') || ('a' <= c && c <= 'f') || ('A' <= c && c <= 'F')
}

fn hex_digit_val(c: char) -> (v: u32)
    requires
        is_hex_digit(c),
    ensures
        v as int == spec_hex_val(c),
        v < 16,
{
    if '0' <= c && c <= '9' {
        (c as u32) - ('0' as u32)
    } else if 'a' <= c && c <= 'f' {
        (c as u32) - ('a' as u32) + 10
    } else {
        (c as u32) - ('A' as u32) + 10
    }
}

fn parse_four_hex(s: &str, i: usize) -> (r: Option<u32>)
    requires
        i <= s@.len(),
    ensures
        match r {
            Some(v) => spec_four_hex(s@, i as int) == Some(v as int) && v < 0x10000 && i + 4
                <= s@.len(),
            None => spec_four_hex(s@, i as int) is None,
        },
{
    if s.unicode_len() - i < 4 {
        None
    } else {
        let c1 = s.get_char(i);
        let c2 = s.get_char(i + 1);
        let c3 = s.get_char(i + 2);
        let c4 = s.get_char(i + 3);
        if hex_digit(c1) && hex_digit(c2) && hex_digit(c3) && hex_digit(c4) {
            Some(
                hex_digit_val(c1) * 4096 + hex_digit_val(c2) * 256 + hex_digit_val(c3) * 16
                    + hex_digit_val(c4),
            )
        } else {
            None
        }
    }
}

fn push_code(acc: String, v: u32) -> (r: String)
    requires
        is_scalar(v),
    ensures
        r@ == acc@.push(v as char),
{
    match char::from_u32(v) {
        Some(c0) => {
            let mut acc2 = acc;
            push_char(&mut acc2, c0);
            proof {
                vstd::utf8::char_u32_cast(c0, v);
            }
            acc2
        },
        None => {
            proof {
                assert(false);
            }
            acc
        },
    }
}

/// A string literal at `i`: a quote, content, a quote.
pub open spec fn spec_parse_string(s: Seq<char>, i: int) -> Option<(Seq<char>, int)> {
    if 0 <= i < s.len() && s[i] == '"' {
        spec_string_chars(s, i + 1, Seq::empty())
    } else {
        None
    }
}

fn string_chars(s: &str, i: usize, acc: String) -> (r: Option<(String, usize)>)
    requires
        i <= s@.len(),
    ensures
        ({
            let t = spec_string_chars(s@, i as int, acc@);
            match r {
                Some(p) => t == Some((p.0@, p.1 as int)) && i < p.1 <= s@.len(),
                None => t is None,
            }
        }),
    decreases s@.len() - i,
{
    if i == s.unicode_len() {
        None
    } else {
        let c = s.get_char(i);
        if c == '"' {
            Some((acc, i + 1))
        } else if c == '\\' {
            if i + 1 == s.unicode_len() {
                None
            } else {
                let e = s.get_char(i + 1);
                if e == 'u' {
                    match parse_four_hex(s, i + 2) {
                        None => None,
                        Some(v) => {
                            if 0xD800 <= v && v < 0xDC00 {
                                if s.unicode_len() - (i + 6) >= 2 && s.get_char(i + 6) == '\\'
                                    && s.get_char(i + 7) == 'u' {
                                    match parse_four_hex(s, i + 8) {
                                        None => None,
                                        Some(w) => {
                                            if 0xDC00 <= w && w < 0xE000 {
                                                let combined: u32 = 0x10000 + (v - 0xD800) * 0x400
                                                    + (w - 0xDC00);
                                                string_chars(s, i + 12, push_code(acc, combined))
                                            } else {
                                                None
                                            }
                                        },
                                    }
                                } else {
                                    None
                                }
                            } else if 0xDC00 <= v && v < 0xE000 {
                                None
                            } else {
                                string_chars(s, i + 6, push_code(acc, v))
                            }
                        },
                    }
                } else {
                    match escape_str(e) {
                        Some(t) => {
                            let mut acc2 = acc;
                            let ghost old_acc = acc2@;
                            acc2.append(t);
                            proof {
                                if let Some(c0) = spec_escape_char(e) {
                                    assert(acc2@ =~= old_acc.push(c0));
                                }
                            }
                            string_chars(s, i + 2, acc2)
                        },
                        None => None,
                    }
                }
            }
        } else if (c as u32) < 0x20 {
            None
        } else {
            let piece = s.substring_char(i, i + 1);
            let mut acc2 = acc;
            acc2.append(piece);
            proof {
                assert(piece@ =~= seq![s@[i as int]]);
                assert(acc2@ =~= acc@.push(s@[i as int]));
            }
            string_chars(s, i + 1, acc2)
        }
    }
}

fn parse_string(s: &str, i: usize) -> (r: Option<(String, usize)>)
    requires
        i <= s@.len(),
    ensures
        ({
            let t = spec_parse_string(s@, i as int);
            match r {
                Some(p) => t == Some((p.0@, p.1 as int)) && i < p.1 <= s@.len(),
                None => t is None,
            }
        }),
{
    if i < s.unicode_len() && s.get_char(i) == '"' {
        string_chars(s, i + 1, String::new())
    } else {
        None
    }
}

/// The value of a run of digits starting at `i`, accumulated on `acc`,
/// together with the position after the run; `None` when the value leaves
/// `u32`.
pub open spec fn spec_number_digits(s: Seq<char>, i: int, acc: u32) -> Option<(u32, int)>
    decreases s.len() - i,
{
    if !(0 <= i < s.len()) || !is_digit(s[i]) {
        Some((acc, i))
    } else if acc as int * 10 + spec_digit_val(s[i]) > u32::MAX {
        None
    } else {
        spec_number_digits(s, i + 1, (acc as int * 10 + spec_digit_val(s[i])) as u32)
    }
}

/// A JSON unsigned integer at `i`: digits only, no leading zero unless the
/// number is zero itself, value within `u32`.
pub open spec fn spec_parse_number(s: Seq<char>, i: int) -> Option<(u32, int)> {
    if !(0 <= i < s.len()) || !is_digit(s[i]) {
        None
    } else if s[i] == '0' {
        if i + 1 < s.len() && is_digit(s[i + 1]) {
            None
        } else {
            Some((0, i + 1))
        }
    } else {
        spec_number_digits(s, i, 0)
    }
}

fn number_digits(s: &str, i: usize, acc: u32) -> (r: Option<(u32, usize)>)
    requires
        i <= s@.len(),
    ensures
        ({
            let t = spec_number_digits(s@, i as int, acc);
            match r {
                Some(p) => t == Some((p.0, p.1 as int)) && i <= p.1 <= s@.len() && (0 <= i
                    < s@.len() && is_digit(s@[i as int]) ==> i < p.1),
                None => t is None,
            }
        }),
    decreases s@.len() - i,
{
    if i == s.unicode_len() {
        Some((acc, i))
    } else {
        let c = s.get_char(i);
        if c < '0' || c > '9' {
            Some((acc, i))
        } else {
            let d: u32 = (c as u32) - ('0' as u32);
            if acc > (u32::MAX - d) / 10 {
                None
            } else {
                number_digits(s, i + 1, acc * 10 + d)
            }
        }
    }
}

fn parse_number(s: &str, i: usize) -> (r: Option<(u32, usize)>)
    requires
        i <= s@.len(),
    ensures
        ({
            let t = spec_parse_number(s@, i as int);
            match r {
                Some(p) => t == Some((p.0, p.1 as int)) && i < p.1 <= s@.len(),
                None => t is None,
            }
        }),
{
    if i == s.unicode_len() {
        None
    } else {
        let c = s.get_char(i);
        if c < '0' || c > '9' {
            None
        } else if c == '0' {
            if i + 1 < s.unicode_len() {
                let c2 = s.get_char(i + 1);
                if '0' <= c2 && c2 <= '9' {
                    None
                } else {
                    Some((0, i + 1))
                }
            } else {
                Some((0, i + 1))
            }
        } else {
            number_digits(s, i, 0)
        }
    }
}

/// Stores a just-parsed member of a skill object into the right slot; `None`
/// for an unknown member name or a member that was already present.
pub open spec fn spec_set_skill_field(
    key: Seq<char>,
    v: Seq<char>,
    id: Option<Seq<char>>,
    name: Option<Seq<char>>,
    description: Option<Seq<char>>,
    category: Option<Seq<char>>,
    author: Option<Seq<char>>,
) -> Option<(Option<Seq<char>>, Option<Seq<char>>, Option<Seq<char>>, Option<Seq<char>>, Option<Seq<char>>)> {
    if key == "id"@ {
        if id is Some { None } else { Some((Some(v), name, description, category, author)) }
    } else if key == "name"@ {
        if name is Some { None } else { Some((id, Some(v), description, category, author)) }
    } else if key == "description"@ {
        if description is Some { None } else { Some((id, name, Some(v), category, author)) }
    } else if key == "category"@ {
        if category is Some { None } else { Some((id, name, description, Some(v), author)) }
    } else if key == "author"@ {
        if author is Some { None } else { Some((id, name, description, category, Some(v))) }
    } else {
        None
    }
}

fn set_skill_field(
    key: &String,
    v: String,
    id: Option<String>,
    name: Option<String>,
    description: Option<String>,
    category: Option<String>,
    author: Option<String>,
) -> (r: Option<(Option<String>, Option<String>, Option<String>, Option<String>, Option<String>)>)
    ensures
        ({
            let t = spec_set_skill_field(
                key@,
                v@,
                opt_view(id),
                opt_view(name),
                opt_view(description),
                opt_view(category),
                opt_view(author),
            );
            match r {
                Some(p) => t == Some(
                    (opt_view(p.0), opt_view(p.1), opt_view(p.2), opt_view(p.3), opt_view(p.4)),
                ),
                None => t is None,
            }
        }),
{
    if *key == String::from_str("id") {
        if id.is_some() { None } else { Some((Some(v), name, description, category, author)) }
    } else if *key == String::from_str("name") {
        if name.is_some() { None } else { Some((id, Some(v), description, category, author)) }
    } else if *key == String::from_str("description") {
        if description.is_some() { None } else { Some((id, name, Some(v), category, author)) }
    } else if *key == String::from_str("category") {
        if category.is_some() { None } else { Some((id, name, description, Some(v), author)) }
    } else if *key == String::from_str("author") {
        if author.is_some() { None } else { Some((id, name, description, category, Some(v))) }
    } else {
        None
    }
}

/// The members of a skill object from `i` on (positioned at a member name),
/// given the slots filled so far, up to and including the closing brace.
pub open spec fn spec_skill_members(
    s: Seq<char>,
    i: int,
    fuel: nat,
    id: Option<Seq<char>>,
    name: Option<Seq<char>>,
    description: Option<Seq<char>>,
    category: Option<Seq<char>>,
    author: Option<Seq<char>>,
) -> Option<(SkillData, int)>
    decreases fuel,
{
    match spec_parse_string(s, i) {
        None => None,
        Some((key, j)) => {
            let j1 = spec_skip_ws(s, j);
            if !(0 <= j1 < s.len()) || s[j1] != ':' {
                None
            } else {
                let j2 = spec_skip_ws(s, j1 + 1);
                match spec_parse_string(s, j2) {
                    None => None,
                    Some((v, j3)) => {
                        match spec_set_skill_field(key, v, id, name, description, category, author) {
                            None => None,
                            Some(t) => {
                                let j4 = spec_skip_ws(s, j3);
                                if !(0 <= j4 < s.len()) {
                                    None
                                } else if s[j4] == ',' {
                                    let j5 = spec_skip_ws(s, j4 + 1);
                                    if fuel == 0 {
                                        None
                                    } else {
                                        spec_skill_members(
                                            s,
                                            j5,
                                            (fuel - 1) as nat,
                                            t.0,
                                            t.1,
                                            t.2,
                                            t.3,
                                            t.4,
                                        )
                                    }
                                } else if s[j4] == '}' {
                                    match (t.0, t.1, t.2, t.3, t.4) {
                                        (
                                            Some(id2),
                                            Some(name2),
                                            Some(description2),
                                            Some(category2),
                                            Some(author2),
                                        ) => Some(
                                            (
                                                SkillData {
                                                    id: id2,
                                                    name: name2,
                                                    description: description2,
                                                    category: category2,
                                                    author: author2,
                                                },
                                                j4 + 1,
                                            ),
                                        ),
                                        _ => None,
                                    }
                                } else {
                                    None
                                }
                            },
                        }
                    },
                }
            }
        },
    }
}

fn skill_members(
    s: &str,
    i: usize,
    fuel: usize,
    id: Option<String>,
    name: Option<String>,
    description: Option<String>,
    category: Option<String>,
    author: Option<String>,
) -> (r: Option<(SkillResult, usize)>)
    requires
        i <= s@.len(),
    ensures
        ({
            let t = spec_skill_members(
                s@,
                i as int,
                fuel as nat,
                opt_view(id),
                opt_view(name),
                opt_view(description),
                opt_view(category),
                opt_view(author),
            );
            match r {
                Some(p) => t == Some((p.0@, p.1 as int)) && p.1 <= s@.len(),
                None => t is None,
            }
        }),
    decreases fuel,
{
    match parse_string(s, i) {
        None => None,
        Some((key, j)) => {
            let j1 = skip_ws(s, j);
            if j1 == s.unicode_len() || s.get_char(j1) != ':' {
                None
            } else {
                let j2 = skip_ws(s, j1 + 1);
                match parse_string(s, j2) {
                    None => None,
                    Some((v, j3)) => {
                        match set_skill_field(&key, v, id, name, description, category, author) {
                            None => None,
                            Some(t) => {
                                let j4 = skip_ws(s, j3);
                                if j4 == s.unicode_len() {
                                    None
                                } else if s.get_char(j4) == ',' {
                                    let j5 = skip_ws(s, j4 + 1);
                                    if fuel == 0 {
                                        None
                                    } else {
                                        skill_members(s, j5, fuel - 1, t.0, t.1, t.2, t.3, t.4)
                                    }
                                } else if s.get_char(j4) == '}' {
                                    match (t.0, t.1, t.2, t.3, t.4) {
                                        (
                                            Some(id2),
                                            Some(name2),
                                            Some(description2),
                                            Some(category2),
                                            Some(author2),
                                        ) => Some(
                                            (
                                                SkillResult {
                                                    id: id2,
                                                    name: name2,
                                                    description: description2,
                                                    category: category2,
                                                    author: author2,
                                                },
                                                j4 + 1,
                                            ),
                                        ),
                                        _ => None,
                                    }
                                } else {
                                    None
                                }
                            },
                        }
                    },
                }
            }
        },
    }
}

/// A skill object at `i`: braces around the five required members.
pub open spec fn spec_parse_skill(s: Seq<char>, i: int, fuel: nat) -> Option<(SkillData, int)> {
    if !(0 <= i < s.len()) || s[i] != '{' {
        None
    } else {
        let j = spec_skip_ws(s, i + 1);
        if !(0 <= j < s.len()) || s[j] == '}' {
            None
        } else {
            spec_skill_members(s, j, fuel, None, None, None, None, None)
        }
    }
}

fn parse_skill(s: &str, i: usize, fuel: usize) -> (r: Option<(SkillResult, usize)>)
    requires
        i <= s@.len(),
    ensures
        ({
            let t = spec_parse_skill(s@, i as int, fuel as nat);
            match r {
                Some(p) => t == Some((p.0@, p.1 as int)) && p.1 <= s@.len(),
                None => t is None,
            }
        }),
{
    if i == s.unicode_len() || s.get_char(i) != '{' {
        None
    } else {
        let j = skip_ws(s, i + 1);
        if j == s.unicode_len() || s.get_char(j) == '}' {
            None
        } else {
            skill_members(s, j, fuel, None, None, None, None, None)
        }
    }
}

/// The items of a non-empty skill array from `i` on (positioned at an item),
/// accumulated on `acc`, up to and including the closing bracket.
pub open spec fn spec_skill_items(s: Seq<char>, i: int, fuel: nat, acc: Seq<SkillData>) -> Option<
    (Seq<SkillData>, int),
>
    decreases fuel,
{
    match spec_parse_skill(s, i, fuel) {
        None => None,
        Some((sk, j)) => {
            let j1 = spec_skip_ws(s, j);
            if !(0 <= j1 < s.len()) {
                None
            } else if s[j1] == ',' {
                let j2 = spec_skip_ws(s, j1 + 1);
                if fuel == 0 {
                    None
                } else {
                    spec_skill_items(s, j2, (fuel - 1) as nat, acc.push(sk))
                }
            } else if s[j1] == ']' {
                Some((acc.push(sk), j1 + 1))
            } else {
                None
            }
        },
    }
}

/// A skill array at `i`.
pub open spec fn spec_parse_skills(s: Seq<char>, i: int, fuel: nat) -> Option<(Seq<SkillData>, int)> {
    if !(0 <= i < s.len()) || s[i] != '[' {
        None
    } else {
        let j = spec_skip_ws(s, i + 1);
        if !(0 <= j < s.len()) {
            None
        } else if s[j] == ']' {
            Some((Seq::empty(), j + 1))
        } else {
            spec_skill_items(s, j, fuel, Seq::empty())
        }
    }
}

fn skill_items(s: &str, i: usize, fuel: usize, acc: Vec<SkillResult>) -> (r: Option<
    (Vec<SkillResult>, usize),
>)
    requires
        i <= s@.len(),
    ensures
        ({
            let t = spec_skill_items(s@, i as int, fuel as nat, skills_view(acc@));
            match r {
                Some(p) => t == Some((skills_view(p.0@), p.1 as int)) && p.1 <= s@.len(),
                None => t is None,
            }
        }),
    decreases fuel,
{
    match parse_skill(s, i, fuel) {
        None => None,
        Some((sk, j)) => {
            let j1 = skip_ws(s, j);
            if j1 == s.unicode_len() {
                None
            } else if s.get_char(j1) == ',' {
                let j2 = skip_ws(s, j1 + 1);
                if fuel == 0 {
                    None
                } else {
                    let ghost old_acc = acc@;
                    let mut acc2 = acc;
                    acc2.push(sk);
                    proof {
                        assert(skills_view(acc2@) =~= skills_view(old_acc).push(sk@));
                    }
                    skill_items(s, j2, fuel - 1, acc2)
                }
            } else if s.get_char(j1) == ']' {
                let ghost old_acc = acc@;
                let mut acc2 = acc;
                acc2.push(sk);
                proof {
                    assert(skills_view(acc2@) =~= skills_view(old_acc).push(sk@));
                }
                Some((acc2, j1 + 1))
            } else {
                None
            }
        },
    }
}

fn parse_skills(s: &str, i: usize, fuel: usize) -> (r: Option<(Vec<SkillResult>, usize)>)
    requires
        i <= s@.len(),
    ensures
        ({
            let t = spec_parse_skills(s@, i as int, fuel as nat);
            match r {
                Some(p) => t == Some((skills_view(p.0@), p.1 as int)) && p.1 <= s@.len(),
                None => t is None,
            }
        }),
{
    if i == s.unicode_len() || s.get_char(i) != '[' {
        None
    } else {
        let j = skip_ws(s, i + 1);
        if j == s.unicode_len() {
            None
        } else if s.get_char(j) == ']' {
            let empty: Vec<SkillResult> = Vec::new();
            proof {
                assert(skills_view(empty@) =~= Seq::<SkillData>::empty());
            }
            Some((empty, j + 1))
        } else {
            let acc0: Vec<SkillResult> = Vec::new();
            proof {
                assert(skills_view(acc0@) =~= Seq::<SkillData>::empty());
            }
            skill_items(s, j, fuel, acc0)
        }
    }
}

/// The members of the top-level object from `i` on (positioned at a member
/// name), given the slots filled so far, up to and including the closing
/// brace.
pub open spec fn spec_top_members(
    s: Seq<char>,
    i: int,
    fuel: nat,
    total: Option<u32>,
    skills: Option<Seq<SkillData>>,
) -> Option<(SearchData, int)>
    decreases fuel, 1int,
{
    match spec_parse_string(s, i) {
        None => None,
        Some((key, j)) => {
            let j1 = spec_skip_ws(s, j);
            if !(0 <= j1 < s.len()) || s[j1] != ':' {
                None
            } else {
                let j2 = spec_skip_ws(s, j1 + 1);
                if key == "total"@ {
                    if total is Some {
                        None
                    } else {
                        match spec_parse_number(s, j2) {
                            None => None,
                            Some((n, j3)) => spec_top_after_member(s, j3, fuel, Some(n), skills),
                        }
                    }
                } else if key == "skills"@ {
                    if skills is Some {
                        None
                    } else {
                        match spec_parse_skills(s, j2, fuel) {
                            None => None,
                            Some((ss, j3)) => spec_top_after_member(s, j3, fuel, total, Some(ss)),
                        }
                    }
                } else {
                    None
                }
            }
        },
    }
}

/// After one member of the top-level object: a comma and further members, or
/// the closing brace, which requires both members present.
pub open spec fn spec_top_after_member(
    s: Seq<char>,
    i: int,
    fuel: nat,
    total: Option<u32>,
    skills: Option<Seq<SkillData>>,
) -> Option<(SearchData, int)>
    decreases fuel, 0int,
{
    let j = spec_skip_ws(s, i);
    if !(0 <= j < s.len()) {
        None
    } else if s[j] == ',' {
        let j1 = spec_skip_ws(s, j + 1);
        if fuel == 0 {
            None
        } else {
            spec_top_members(s, j1, (fuel - 1) as nat, total, skills)
        }
    } else if s[j] == '}' {
        match (total, skills) {
            (Some(t), Some(ss)) => Some((SearchData { total: t, skills: ss }, j + 1)),
            _ => None,
        }
    } else {
        None
    }
}

fn top_members(
    s: &str,
    i: usize,
    fuel: usize,
    total: Option<u32>,
    skills: Option<Vec<SkillResult>>,
) -> (r: Option<(SearchResponse, usize)>)
    requires
        i <= s@.len(),
    ensures
        ({
            let t = spec_top_members(
                s@,
                i as int,
                fuel as nat,
                total,
                match skills {
                    Some(ss) => Some(skills_view(ss@)),
                    None => None,
                },
            );
            match r {
                Some(p) => t == Some((p.0@, p.1 as int)) && p.1 <= s@.len(),
                None => t is None,
            }
        }),
    decreases fuel, 1int,
{
    match parse_string(s, i) {
        None => None,
        Some((key, j)) => {
            let j1 = skip_ws(s, j);
            if j1 == s.unicode_len() || s.get_char(j1) != ':' {
                None
            } else {
                let j2 = skip_ws(s, j1 + 1);
                if key == String::from_str("total") {
                    if total.is_some() {
                        None
                    } else {
                        match parse_number(s, j2) {
                            None => None,
                            Some((n, j3)) => top_after_member(s, j3, fuel, Some(n), skills),
                        }
                    }
                } else if key == String::from_str("skills") {
                    if skills.is_some() {
                        None
                    } else {
                        match parse_skills(s, j2, fuel) {
                            None => None,
                            Some((ss, j3)) => top_after_member(s, j3, fuel, total, Some(ss)),
                        }
                    }
                } else {
                    None
                }
            }
        },
    }
}

fn top_after_member(
    s: &str,
    i: usize,
    fuel: usize,
    total: Option<u32>,
    skills: Option<Vec<SkillResult>>,
) -> (r: Option<(SearchResponse, usize)>)
    requires
        i <= s@.len(),
    ensures
        ({
            let t = spec_top_after_member(
                s@,
                i as int,
                fuel as nat,
                total,
                match skills {
                    Some(ss) => Some(skills_view(ss@)),
                    None => None,
                },
            );
            match r {
                Some(p) => t == Some((p.0@, p.1 as int)) && p.1 <= s@.len(),
                None => t is None,
            }
        }),
    decreases fuel, 0int,
{
    let j = skip_ws(s, i);
    if j == s.unicode_len() {
        None
    } else if s.get_char(j) == ',' {
        let j1 = skip_ws(s, j + 1);
        if fuel == 0 {
            None
        } else {
            top_members(s, j1, fuel - 1, total, skills)
        }
    } else if s.get_char(j) == '}' {
        match (total, skills) {
            (Some(t), Some(ss)) => Some((SearchResponse { total: t, skills: ss }, j + 1)),
            _ => None,
        }
    } else {
        None
    }
}

/// A whole response body: the top-level object and nothing but whitespace
/// around it, decoded to its model; `None` on any deviation from the shape.
pub open spec fn spec_parse_response(s: Seq<char>) -> Option<SearchData> {
    let i = spec_skip_ws(s, 0);
    if !(0 <= i < s.len()) || s[i] != '{' {
        None
    } else {
        let j = spec_skip_ws(s, i + 1);
        if !(0 <= j < s.len()) || s[j] == '}' {
            None
        } else {
            match spec_top_members(s, j, s.len() as nat, None, None) {
                None => None,
                Some((resp, k)) => {
                    let k1 = spec_skip_ws(s, k);
                    if k1 == s.len() {
                        Some(resp)
                    } else {
                        None
                    }
                },
            }
        }
    }
}

/// Decodes a response body, returning exactly what the reference reading of
/// the grammar says.
pub fn parse_search_response(s: &str) -> (r: Option<SearchResponse>)
    ensures
        match r {
            Some(resp) => spec_parse_response(s@) == Some(resp@),
            None => spec_parse_response(s@) is None,
        },
{
    let i = skip_ws(s, 0);
    if i == s.unicode_len() || s.get_char(i) != '{' {
        None
    } else {
        let j = skip_ws(s, i + 1);
        if j == s.unicode_len() || s.get_char(j) == '}' {
            None
        } else {
            match top_members(s, j, s.unicode_len(), None, None) {
                None => None,
                Some((resp, k)) => {
                    let k1 = skip_ws(s, k);
                    if k1 == s.unicode_len() {
                        Some(resp)
                    } else {
                        None
                    }
                },
            }
        }
    }
}

} // verus!
