//! A JSON document model.
//!
//! The remote endpoint speaks JSON twice over: the response envelope is a
//! JSON object, and the model's own answer inside it is asked to be JSON as
//! well. Both are read through this module. Numbers are kept as their
//! literal text: no field the library reads is numeric, and the model stays
//! free of floating point.
//!
//! The recursive grammar functions test the positions their recursive
//! calls advance to before recursing. Those tests never fail, since every
//! token consumes at least one character, but they make the recursion
//! visibly well-founded.

use crate::text::push_char;
use vstd::prelude::*;

verus! {

broadcast use vstd::std_specs::vec::axiom_vec_index_decreases;

/// A parsed JSON value.
///
/// `Num` holds the number's source text (sign, digits, fraction and
/// exponent) unconverted. `Obj` keeps its members in source order;
/// [`Json::get`] takes the first member with a given key.
pub enum Json {
    Null,
    Bool(bool),
    Num(String),
    Str(String),
    Arr(Vec<Json>),
    Obj(Vec<JsonMember>),
}

/// The mathematical shape of a [`Json`] value: strings as character
/// sequences, collections as sequences.
pub enum JsonV {
    Null,
    Bool(bool),
    Num(Seq<char>),
    Str(Seq<char>),
    Arr(Seq<JsonV>),
    Obj(Seq<JsonMemberV>),
}

/// One member of a JSON object.
pub struct JsonMember {
    pub key: String,
    pub value: Json,
}

/// The mathematical shape of a [`JsonMember`].
pub struct JsonMemberV {
    pub key: Seq<char>,
    pub value: JsonV,
}

impl View for JsonMember {
    type V = JsonMemberV;

    open spec fn view(&self) -> JsonMemberV {
        JsonMemberV { key: self.key@, value: self.value@ }
    }
}

impl View for Json {
    type V = JsonV;

    open spec fn view(&self) -> JsonV
        decreases self,
    {
        match self {
            Json::Null => JsonV::Null,
            Json::Bool(b) => JsonV::Bool(*b),
            Json::Num(t) => JsonV::Num(t@),
            Json::Str(s) => JsonV::Str(s@),
            Json::Arr(items) => JsonV::Arr(
                Seq::new(
                    items@.len(),
                    |i: int|
                        if 0 <= i < items.len() {
                            items[i]@
                        } else {
                            JsonV::Null
                        },
                ),
            ),
            Json::Obj(members) => JsonV::Obj(
                Seq::new(
                    members@.len(),
                    |i: int|
                        if 0 <= i < members.len() {
                            JsonMemberV { key: members[i].key@, value: members[i].value@ }
                        } else {
                            (JsonMemberV { key: Seq::empty(), value: JsonV::Null })
                        },
                ),
            ),
        }
    }
}

/// The element-wise views of a sequence of parsed values.
pub open spec fn jsons_view(v: Seq<Json>) -> Seq<JsonV> {
    Seq::new(v.len(), |i: int| v[i]@)
}

/// The element-wise views of a sequence of parsed members.
pub open spec fn members_view(v: Seq<JsonMember>) -> Seq<JsonMemberV> {
    Seq::new(v.len(), |i: int| v[i]@)
}

/// Relies on `char::from_u32`: `Some` exactly for Unicode scalar values,
/// in other words for every `u32` below `0x110000` that is not a
/// surrogate, and the returned `char` has that value.
pub assume_specification[ char::from_u32 ](v: u32) -> (r: Option<char>)
    ensures
        r == (if v < 0xD800 || (0xE000 <= v && v <= 0x10FFFF) {
            Some(v as char)
        } else {
            None::<char>
        }),
;

/// The whitespace JSON allows between tokens.
pub open spec fn is_json_ws(c: char) -> bool {
    c == ' ' || c == '\t' || c == '\n' || c == '\r'
}

/// A decimal digit.
pub open spec fn is_digit(c: char) -> bool {
    '0' <= c && c <= '9'
}

/// The first index at or after `i` holding no JSON whitespace.
pub open spec fn sp_ws(s: Seq<char>, i: int) -> int
    decreases s.len() - i,
{
    if 0 <= i < s.len() && is_json_ws(s[i]) {
        sp_ws(s, i + 1)
    } else {
        i
    }
}

/// The first index at or after `i` holding no decimal digit.
pub open spec fn sp_digits(s: Seq<char>, i: int) -> int
    decreases s.len() - i,
{
    if 0 <= i < s.len() && is_digit(s[i]) {
        sp_digits(s, i + 1)
    } else {
        i
    }
}

proof fn lemma_sp_digits(s: Seq<char>, i: int)
    ensures
        i <= sp_digits(s, i),
        i <= s.len() ==> sp_digits(s, i) <= s.len(),
    decreases s.len() - i,
{
    if 0 <= i < s.len() && is_digit(s[i]) {
        lemma_sp_digits(s, i + 1);
    }
}

/// The numeric value of one hexadecimal digit, if `c` is one.
pub open spec fn hex_val(c: char) -> Option<u32> {
    let u = c as u32;
    if 0x30 <= u && u <= 0x39 {
        Some((u - 0x30) as u32)
    } else if 0x61 <= u && u <= 0x66 {
        Some((u - 0x61 + 10) as u32)
    } else if 0x41 <= u && u <= 0x46 {
        Some((u - 0x41 + 10) as u32)
    } else {
        None
    }
}

/// The value of the four hexadecimal digits at `i`, if they are there.
pub open spec fn sp_hex4(s: Seq<char>, i: int) -> Option<u32> {
    if 0 <= i && i + 4 <= s.len() {
        match (hex_val(s[i]), hex_val(s[i + 1]), hex_val(s[i + 2]), hex_val(s[i + 3])) {
            (Some(a), Some(b), Some(c), Some(d)) => Some(
                (a * 0x1000 + b * 0x100 + c * 0x10 + d) as u32,
            ),
            _ => None,
        }
    } else {
        None
    }
}

/// The scalar value a surrogate pair encodes.
pub open spec fn surrogate_scalar(hi: u32, lo: u32) -> u32 {
    (0x10000 + (hi - 0xD800) * 0x400 + (lo - 0xDC00)) as u32
}

/// The decoded character and next position of the escape sequence whose
/// backslash stands at `i`; `None` for a malformed escape, an unpaired
/// surrogate included.
pub open spec fn sp_escape(s: Seq<char>, i: int) -> Option<(char, int)> {
    if i + 1 < s.len() {
        let e = s[i + 1];
        if e == '"' || e == '\\' || e == '/' {
            Some((e, i + 2))
        } else if e == 'b' {
            Some(('\u{8}', i + 2))
        } else if e == 'f' {
            Some(('\u{c}', i + 2))
        } else if e == 'n' {
            Some(('\n', i + 2))
        } else if e == 'r' {
            Some(('\r', i + 2))
        } else if e == 't' {
            Some(('\t', i + 2))
        } else if e == 'u' {
            match sp_hex4(s, i + 2) {
                Some(v) => {
                    if 0xD800 <= v && v <= 0xDBFF {
                        if i + 8 <= s.len() && s[i + 6] == '\\' && s[i + 7] == 'u' {
                            match sp_hex4(s, i + 8) {
                                Some(w) => {
                                    if 0xDC00 <= w && w <= 0xDFFF {
                                        Some((surrogate_scalar(v, w) as char, i + 12))
                                    } else {
                                        None
                                    }
                                },
                                None => None,
                            }
                        } else {
                            None
                        }
                    } else if 0xDC00 <= v && v <= 0xDFFF {
                        None
                    } else {
                        Some((v as char, i + 6))
                    }
                },
                None => None,
            }
        } else {
            None
        }
    } else {
        None
    }
}

/// The decoded content of a JSON string whose opening quote stands just
/// before `i`, with the index one past the closing quote.
pub open spec fn sp_str_chars(s: Seq<char>, i: int) -> Option<(Seq<char>, int)>
    decreases s.len() - i,
{
    if !(0 <= i < s.len()) {
        None
    } else {
        let c = s[i];
        if c == '"' {
            Some((Seq::empty(), i + 1))
        } else {
            let step: Option<(char, int)> = if c == '\\' {
                sp_escape(s, i)
            } else if (c as u32) < 0x20 {
                None
            } else {
                Some((c, i + 1))
            };
            match step {
                Some((ch, j)) => {
                    if i < j && j <= s.len() {
                        match sp_str_chars(s, j) {
                            Some((rest, end)) => Some((seq![ch] + rest, end)),
                            None => None,
                        }
                    } else {
                        None
                    }
                },
                None => None,
            }
        }
    }
}

/// The index one past the number token starting at `i`, which must open
/// with a minus sign or a digit; `None` when the token is malformed.
pub open spec fn sp_number_end(s: Seq<char>, i: int) -> Option<int> {
    if !(0 <= i < s.len()) {
        None
    } else {
        let j = if s[i] == '-' {
            i + 1
        } else {
            i
        };
        if j < s.len() && is_digit(s[j]) {
            let k = if s[j] == '0' {
                j + 1
            } else {
                sp_digits(s, j)
            };
            let k2 = if k < s.len() && s[k] == '.' {
                let m = sp_digits(s, k + 1);
                if m == k + 1 {
                    -1
                } else {
                    m
                }
            } else {
                k
            };
            if k2 < 0 {
                None
            } else {
                let k3 = if k2 < s.len() && (s[k2] == 'e' || s[k2] == 'E') {
                    let e0 = if k2 + 1 < s.len() && (s[k2 + 1] == '+' || s[k2 + 1] == '-') {
                        k2 + 2
                    } else {
                        k2 + 1
                    };
                    let m = sp_digits(s, e0);
                    if m == e0 {
                        -1
                    } else {
                        m
                    }
                } else {
                    k2
                };
                if k3 < 0 {
                    None
                } else {
                    Some(k3)
                }
            }
        } else {
            None
        }
    }
}

/// The JSON value starting at `i` (no leading whitespace), with the index
/// one past it.
pub open spec fn sp_value(s: Seq<char>, i: int) -> Option<(JsonV, int)>
    decreases s.len() - i, 0int,
{
    if !(0 <= i < s.len()) {
        None
    } else {
        let c = s[i];
        if c == 'n' {
            if i + 4 <= s.len() && s[i + 1] == 'u' && s[i + 2] == 'l' && s[i + 3] == 'l' {
                Some((JsonV::Null, i + 4))
            } else {
                None
            }
        } else if c == 't' {
            if i + 4 <= s.len() && s[i + 1] == 'r' && s[i + 2] == 'u' && s[i + 3] == 'e' {
                Some((JsonV::Bool(true), i + 4))
            } else {
                None
            }
        } else if c == 'f' {
            if i + 5 <= s.len() && s[i + 1] == 'a' && s[i + 2] == 'l' && s[i + 3] == 's' && s[i
                + 4] == 'e' {
                Some((JsonV::Bool(false), i + 5))
            } else {
                None
            }
        } else if c == '"' {
            match sp_str_chars(s, i + 1) {
                Some((content, end)) => Some((JsonV::Str(content), end)),
                None => None,
            }
        } else if c == '[' {
            match sp_arr_rest(s, i + 1) {
                Some((items, end)) => Some((JsonV::Arr(items), end)),
                None => None,
            }
        } else if c == '{' {
            match sp_obj_rest(s, i + 1) {
                Some((members, end)) => Some((JsonV::Obj(members), end)),
                None => None,
            }
        } else if c == '-' || is_digit(c) {
            match sp_number_end(s, i) {
                Some(k) => Some((JsonV::Num(s.subrange(i, k)), k)),
                None => None,
            }
        } else {
            None
        }
    }
}

/// The items of an array whose opening bracket stands just before `i`,
/// with the index one past the closing bracket.
pub open spec fn sp_arr_rest(s: Seq<char>, i: int) -> Option<(Seq<JsonV>, int)>
    decreases s.len() - i, 2int,
{
    if !(0 <= i && i <= s.len()) {
        None
    } else {
        let j = sp_ws(s, i);
        if j < s.len() && s[j] == ']' {
            Some((Seq::empty(), j + 1))
        } else {
            sp_elems(s, i)
        }
    }
}

/// One or more comma-separated array items starting at `i` (whitespace
/// allowed), ending with the closing bracket.
pub open spec fn sp_elems(s: Seq<char>, i: int) -> Option<(Seq<JsonV>, int)>
    decreases s.len() - i, 1int,
{
    if !(0 <= i && i <= s.len()) {
        None
    } else {
        let j = sp_ws(s, i);
        if !(i <= j && j <= s.len()) {
            None
        } else {
        match sp_value(s, j) {
            Some((v, k)) => {
                if j < k && k <= s.len() {
                    let k2 = sp_ws(s, k);
                    if !(k <= k2 && k2 <= s.len()) {
                        None
                    } else if k2 < s.len() && s[k2] == ',' {
                        match sp_elems(s, k2 + 1) {
                            Some((rest, end)) => Some((seq![v] + rest, end)),
                            None => None,
                        }
                    } else if k2 < s.len() && s[k2] == ']' {
                        Some((seq![v], k2 + 1))
                    } else {
                        None
                    }
                } else {
                    None
                }
            },
            None => None,
        }
        }
    }
}

/// The members of an object whose opening brace stands just before `i`,
/// with the index one past the closing brace.
pub open spec fn sp_obj_rest(s: Seq<char>, i: int) -> Option<(Seq<JsonMemberV>, int)>
    decreases s.len() - i, 2int,
{
    if !(0 <= i && i <= s.len()) {
        None
    } else {
        let j = sp_ws(s, i);
        if j < s.len() && s[j] == '}' {
            Some((Seq::empty(), j + 1))
        } else {
            sp_members(s, i)
        }
    }
}

/// One or more comma-separated object members starting at `i` (whitespace
/// allowed), ending with the closing brace.
pub open spec fn sp_members(s: Seq<char>, i: int) -> Option<(Seq<JsonMemberV>, int)>
    decreases s.len() - i, 1int,
{
    if !(0 <= i && i <= s.len()) {
        None
    } else {
        let j = sp_ws(s, i);
        if !(i <= j && j <= s.len()) {
            None
        } else if j < s.len() && s[j] == '"' {
            match sp_str_chars(s, j + 1) {
                Some((key, k)) => {
                    if j + 1 < k && k <= s.len() {
                        let k2 = sp_ws(s, k);
                        if !(k <= k2 && k2 <= s.len()) {
                            None
                        } else if k2 < s.len() && s[k2] == ':' {
                            let m0 = sp_ws(s, k2 + 1);
                            if !(k2 + 1 <= m0 && m0 <= s.len()) {
                                None
                            } else {
                            match sp_value(s, m0) {
                                Some((v, m)) => {
                                    if k2 < m && m <= s.len() {
                                        let m2 = sp_ws(s, m);
                                        if !(m <= m2 && m2 <= s.len()) {
                                            None
                                        } else if m2 < s.len() && s[m2] == ',' {
                                            match sp_members(s, m2 + 1) {
                                                Some((rest, end)) => Some(
                                                    (
                                                        seq![JsonMemberV { key: key, value: v }]
                                                            + rest,
                                                        end,
                                                    ),
                                                ),
                                                None => None,
                                            }
                                        } else if m2 < s.len() && s[m2] == '}' {
                                            Some((seq![JsonMemberV { key: key, value: v }], m2 + 1))
                                        } else {
                                            None
                                        }
                                    } else {
                                        None
                                    }
                                },
                                None => None,
                            }
                            }
                        } else {
                            None
                        }
                    } else {
                        None
                    }
                },
                None => None,
            }
        } else {
            None
        }
    }
}

/// The single JSON document `s` holds, surrounded by nothing but
/// whitespace; `None` when `s` is not such a document.
pub open spec fn sp_json(s: Seq<char>) -> Option<JsonV> {
    let i = sp_ws(s, 0);
    match sp_value(s, i) {
        Some((v, k)) => {
            if 0 <= k <= s.len() && sp_ws(s, k) == s.len() {
                Some(v)
            } else {
                None
            }
        },
        None => None,
    }
}

/// `o` with `pre` prepended to its content on success.
spec fn sp_prepend(pre: Seq<char>, o: Option<(Seq<char>, int)>) -> Option<(Seq<char>, int)> {
    match o {
        Some((rest, end)) => Some((pre + rest, end)),
        None => None,
    }
}

/// Skips JSON whitespace.
fn ws_from(s: &Vec<char>, i: usize) -> (r: usize)
    requires
        i <= s@.len(),
    ensures
        r == sp_ws(s@, i as int),
        i <= r <= s@.len(),
{
    let n = s.len();
    let mut cur = i;
    while cur < n && (s[cur] == ' ' || s[cur] == '\t' || s[cur] == '\n' || s[cur] == '\r')
        invariant
            i <= cur <= n,
            n == s@.len(),
            sp_ws(s@, i as int) == sp_ws(s@, cur as int),
        decreases n - cur,
    {
        cur = cur + 1;
    }
    cur
}

/// Skips decimal digits.
fn digits_from(s: &Vec<char>, i: usize) -> (r: usize)
    requires
        i <= s@.len(),
    ensures
        r == sp_digits(s@, i as int),
        i <= r <= s@.len(),
{
    let n = s.len();
    let mut cur = i;
    while cur < n && '0' <= s[cur] && s[cur] <= '9'
        invariant
            i <= cur <= n,
            n == s@.len(),
            sp_digits(s@, i as int) == sp_digits(s@, cur as int),
        decreases n - cur,
    {
        cur = cur + 1;
    }
    cur
}

/// The value of one hexadecimal digit.
fn hex_digit(c: char) -> (r: Option<u32>)
    ensures
        r == hex_val(c),
{
    let u = c as u32;
    if 0x30 <= u && u <= 0x39 {
        Some(u - 0x30)
    } else if 0x61 <= u && u <= 0x66 {
        Some(u - 0x61 + 10)
    } else if 0x41 <= u && u <= 0x46 {
        Some(u - 0x41 + 10)
    } else {
        None
    }
}

/// The value of the four hexadecimal digits at `i`.
fn hex4_at(s: &Vec<char>, i: usize) -> (r: Option<u32>)
    requires
        i <= s@.len(),
    ensures
        r == sp_hex4(s@, i as int),
        r matches Some(v) ==> v <= 0xFFFF && i + 4 <= s@.len(),
{
    if s.len() - i < 4 {
        return None;
    }
    let a = hex_digit(s[i]);
    let b = hex_digit(s[i + 1]);
    let c = hex_digit(s[i + 2]);
    let d = hex_digit(s[i + 3]);
    match (a, b, c, d) {
        (Some(a), Some(b), Some(c), Some(d)) => Some(a * 0x1000 + b * 0x100 + c * 0x10 + d),
        _ => None,
    }
}

/// Decodes the escape sequence whose backslash stands at `i`.
fn parse_escape(s: &Vec<char>, i: usize) -> (r: Option<(char, usize)>)
    requires
        i <= s@.len(),
    ensures
        match sp_escape(s@, i as int) {
            Some((ch, j)) => r matches Some(p) && p.0 == ch && p.1 == j && i < p.1 <= s@.len(),
            None => r is None,
        },
{
    let n = s.len();
    if n - i < 2 {
        return None;
    }
    let e = s[i + 1];
    if e == '"' || e == '\\' || e == '/' {
        Some((e, i + 2))
    } else if e == 'b' {
        Some(('\u{8}', i + 2))
    } else if e == 'f' {
        Some(('\u{c}', i + 2))
    } else if e == 'n' {
        Some(('\n', i + 2))
    } else if e == 'r' {
        Some(('\r', i + 2))
    } else if e == 't' {
        Some(('\t', i + 2))
    } else if e == 'u' {
        match hex4_at(s, i + 2) {
            Some(v) => {
                if 0xD800 <= v && v <= 0xDBFF {
                    if n - i >= 8 && s[i + 6] == '\\' && s[i + 7] == 'u' {
                        match hex4_at(s, i + 8) {
                            Some(w) => {
                                if 0xDC00 <= w && w <= 0xDFFF {
                                    let scalar = 0x10000 + (v - 0xD800) * 0x400 + (w - 0xDC00);
                                    match char::from_u32(scalar) {
                                        Some(ch) => Some((ch, i + 12)),
                                        None => {
                                            proof {
                                                assert(false);
                                            }
                                            None
                                        },
                                    }
                                } else {
                                    None
                                }
                            },
                            None => None,
                        }
                    } else {
                        None
                    }
                } else if 0xDC00 <= v && v <= 0xDFFF {
                    None
                } else {
                    match char::from_u32(v) {
                        Some(ch) => Some((ch, i + 6)),
                        None => {
                            proof {
                                assert(false);
                            }
                            None
                        },
                    }
                }
            },
            None => None,
        }
    } else {
        None
    }
}

/// Decodes the content of a JSON string whose opening quote stands just
/// before `i`.
fn parse_str_chars(s: &Vec<char>, i: usize) -> (r: Option<(String, usize)>)
    requires
        i <= s@.len(),
    ensures
        match sp_str_chars(s@, i as int) {
            Some((content, end)) => r matches Some(p) && p.0@ == content && p.1 == end && i
                < p.1 <= s@.len(),
            None => r is None,
        },
{
    let n = s.len();
    let mut acc = String::new();
    let mut cur = i;
    loop
        invariant
            i <= cur <= n,
            n == s@.len(),
            sp_str_chars(s@, i as int) == sp_prepend(acc@, sp_str_chars(s@, cur as int)),
        decreases n - cur,
    {
        if cur == n {
            return None;
        }
        let c = s[cur];
        if c == '"' {
            proof {
                assert(acc@ + Seq::<char>::empty() =~= acc@);
            }
            return Some((acc, cur + 1));
        }
        if c == '\\' {
            match parse_escape(s, cur) {
                None => {
                    return None;
                },
                Some((ch, j)) => {
                    proof {
                        let o = sp_str_chars(s@, j as int);
                        if o is Some {
                            let (rest, end) = o.unwrap();
                            assert(acc@ + (seq![ch] + rest) =~= (acc@ + seq![ch]) + rest);
                        }
                    }
                    push_char(&mut acc, ch);
                    cur = j;
                },
            }
        } else if (c as u32) < 0x20 {
            return None;
        } else {
            proof {
                let o = sp_str_chars(s@, cur + 1);
                if o is Some {
                    let (rest, end) = o.unwrap();
                    assert(acc@ + (seq![c] + rest) =~= (acc@ + seq![c]) + rest);
                }
            }
            push_char(&mut acc, c);
            cur = cur + 1;
        }
    }
}

/// Finds the end of the number token starting at `i`.
fn parse_number_end(s: &Vec<char>, i: usize) -> (r: Option<usize>)
    requires
        i <= s@.len(),
    ensures
        match sp_number_end(s@, i as int) {
            Some(k) => r matches Some(p) && p == k && i < p <= s@.len(),
            None => r is None,
        },
{
    let n = s.len();
    if i >= n {
        return None;
    }
    let j = if s[i] == '-' {
        i + 1
    } else {
        i
    };
    if !(j < n && '0' <= s[j] && s[j] <= '9') {
        return None;
    }
    let k = if s[j] == '0' {
        j + 1
    } else {
        digits_from(s, j)
    };
    proof {
        lemma_sp_digits(s@, j + 1);
    }
    let k2 = if k < n && s[k] == '.' {
        let m = digits_from(s, k + 1);
        if m == k + 1 {
            return None;
        }
        m
    } else {
        k
    };
    if k2 < n && (s[k2] == 'e' || s[k2] == 'E') {
        let e0 = if k2 + 1 < n && (s[k2 + 1] == '+' || s[k2 + 1] == '-') {
            k2 + 2
        } else {
            k2 + 1
        };
        let m = digits_from(s, e0);
        if m == e0 {
            return None;
        }
        Some(m)
    } else {
        Some(k2)
    }
}

/// Parses the JSON value starting at `i`.
fn parse_value(s: &Vec<char>, i: usize) -> (r: Option<(Json, usize)>)
    requires
        i <= s@.len(),
    ensures
        match sp_value(s@, i as int) {
            Some((v, k)) => r matches Some(p) && p.0@ == v && p.1 == k && i < p.1 <= s@.len(),
            None => r is None,
        },
    decreases s@.len() - i, 0int,
{
    let n = s.len();
    if i >= n {
        return None;
    }
    let c = s[i];
    if c == 'n' {
        if n - i >= 4 && s[i + 1] == 'u' && s[i + 2] == 'l' && s[i + 3] == 'l' {
            Some((Json::Null, i + 4))
        } else {
            None
        }
    } else if c == 't' {
        if n - i >= 4 && s[i + 1] == 'r' && s[i + 2] == 'u' && s[i + 3] == 'e' {
            Some((Json::Bool(true), i + 4))
        } else {
            None
        }
    } else if c == 'f' {
        if n - i >= 5 && s[i + 1] == 'a' && s[i + 2] == 'l' && s[i + 3] == 's' && s[i + 4]
            == 'e' {
            Some((Json::Bool(false), i + 5))
        } else {
            None
        }
    } else if c == '"' {
        match parse_str_chars(s, i + 1) {
            Some((content, end)) => Some((Json::Str(content), end)),
            None => None,
        }
    } else if c == '[' {
        match parse_arr_rest(s, i + 1) {
            Some((items, end)) => {
                proof {
                    assert(Json::Arr(items)@ matches JsonV::Arr(a) && a =~= jsons_view(
                        items@,
                    ));
                }
                Some((Json::Arr(items), end))
            },
            None => None,
        }
    } else if c == '{' {
        match parse_obj_rest(s, i + 1) {
            Some((members, end)) => {
                proof {
                    assert(Json::Obj(members)@ matches JsonV::Obj(a) && a =~= members_view(
                        members@,
                    ));
                }
                Some((Json::Obj(members), end))
            },
            None => None,
        }
    } else if c == '-' || ('0' <= c && c <= '9') {
        match parse_number_end(s, i) {
            Some(k) => Some((Json::Num(crate::text::string_from_range(s, i, k)), k)),
            None => None,
        }
    } else {
        None
    }
}

/// Parses the items of an array whose opening bracket stands just before
/// `i`.
fn parse_arr_rest(s: &Vec<char>, i: usize) -> (r: Option<(Vec<Json>, usize)>)
    requires
        i <= s@.len(),
    ensures
        match sp_arr_rest(s@, i as int) {
            Some((items, end)) => r matches Some(p) && jsons_view(p.0@) == items && p.1 == end
                && i <= p.1 <= s@.len(),
            None => r is None,
        },
    decreases s@.len() - i, 2int,
{
    let j = ws_from(s, i);
    if j < s.len() && s[j] == ']' {
        let items: Vec<Json> = Vec::new();
        proof {
            assert(jsons_view(items@) =~= Seq::<JsonV>::empty());
        }
        Some((items, j + 1))
    } else {
        parse_elems(s, i)
    }
}

/// Parses one or more comma-separated array items.
fn parse_elems(s: &Vec<char>, i: usize) -> (r: Option<(Vec<Json>, usize)>)
    requires
        i <= s@.len(),
    ensures
        match sp_elems(s@, i as int) {
            Some((items, end)) => r matches Some(p) && jsons_view(p.0@) == items && p.1 == end
                && i <= p.1 <= s@.len(),
            None => r is None,
        },
    decreases s@.len() - i, 1int,
{
    let j = ws_from(s, i);
    match parse_value(s, j) {
        None => None,
        Some((v, k)) => {
            let k2 = ws_from(s, k);
            if k2 < s.len() && s[k2] == ',' {
                match parse_elems(s, k2 + 1) {
                    None => None,
                    Some((mut rest, end)) => {
                        let ghost tail = jsons_view(rest@);
                        rest.insert(0, v);
                        proof {
                            assert(jsons_view(rest@) =~= seq![v@] + tail);
                        }
                        Some((rest, end))
                    },
                }
            } else if k2 < s.len() && s[k2] == ']' {
                let mut items: Vec<Json> = Vec::new();
                items.push(v);
                proof {
                    assert(jsons_view(items@) =~= seq![v@]);
                }
                Some((items, k2 + 1))
            } else {
                None
            }
        },
    }
}

/// Parses the members of an object whose opening brace stands just before
/// `i`.
fn parse_obj_rest(s: &Vec<char>, i: usize) -> (r: Option<(Vec<JsonMember>, usize)>)
    requires
        i <= s@.len(),
    ensures
        match sp_obj_rest(s@, i as int) {
            Some((members, end)) => r matches Some(p) && members_view(p.0@) == members && p.1
                == end && i <= p.1 <= s@.len(),
            None => r is None,
        },
    decreases s@.len() - i, 2int,
{
    let j = ws_from(s, i);
    if j < s.len() && s[j] == '}' {
        let members: Vec<JsonMember> = Vec::new();
        proof {
            assert(members_view(members@) =~= Seq::<JsonMemberV>::empty());
        }
        Some((members, j + 1))
    } else {
        parse_members(s, i)
    }
}

/// Parses one or more comma-separated object members.
fn parse_members(s: &Vec<char>, i: usize) -> (r: Option<(Vec<JsonMember>, usize)>)
    requires
        i <= s@.len(),
    ensures
        match sp_members(s@, i as int) {
            Some((members, end)) => r matches Some(p) && members_view(p.0@) == members && p.1
                == end && i <= p.1 <= s@.len(),
            None => r is None,
        },
    decreases s@.len() - i, 1int,
{
    let j = ws_from(s, i);
    if !(j < s.len() && s[j] == '"') {
        return None;
    }
    match parse_str_chars(s, j + 1) {
        None => None,
        Some((key, k)) => {
            let k2 = ws_from(s, k);
            if !(k2 < s.len() && s[k2] == ':') {
                return None;
            }
            let m0 = ws_from(s, k2 + 1);
            match parse_value(s, m0) {
                None => None,
                Some((v, m)) => {
                    let m2 = ws_from(s, m);
                    if m2 < s.len() && s[m2] == ',' {
                        match parse_members(s, m2 + 1) {
                            None => None,
                            Some((mut rest, end)) => {
                                let ghost tail = members_view(rest@);
                                let ghost kv = (JsonMemberV { key: key@, value: v@ });
                                rest.insert(0, JsonMember { key, value: v });
                                proof {
                                    assert(members_view(rest@) =~= seq![kv] + tail);
                                }
                                Some((rest, end))
                            },
                        }
                    } else if m2 < s.len() && s[m2] == '}' {
                        let ghost kv = (JsonMemberV { key: key@, value: v@ });
                        let mut members: Vec<JsonMember> = Vec::new();
                        members.push(JsonMember { key, value: v });
                        proof {
                            assert(members_view(members@) =~= seq![kv]);
                        }
                        Some((members, m2 + 1))
                    } else {
                        None
                    }
                },
            }
        },
    }
}

/// Parses `text` as a single JSON document surrounded by nothing but
/// whitespace.
pub fn parse_json(text: &str) -> (r: Option<Json>)
    ensures
        match sp_json(text@) {
            Some(v) => r matches Some(p) && p@ == v,
            None => r is None,
        },
{
    let cs = crate::text::chars_of(text);
    let i = ws_from(&cs, 0);
    match parse_value(&cs, i) {
        None => None,
        Some((v, k)) => {
            let k2 = ws_from(&cs, k);
            if k2 == cs.len() {
                Some(v)
            } else {
                None
            }
        },
    }
}

/// The first value under `key` among `members`, if any.
pub open spec fn spec_member(members: Seq<JsonMemberV>, key: Seq<char>) -> Option<JsonV>
    decreases members.len(),
{
    if members.len() == 0 {
        None
    } else if members[0].key == key {
        Some(members[0].value)
    } else {
        spec_member(members.drop_first(), key)
    }
}

impl Json {
    /// Looks `key` up in an object; `None` when `self` is not an object or
    /// has no such member.
    pub fn get<'a>(&'a self, key: &str) -> (r: Option<&'a Json>)
        ensures
            match self@ {
                JsonV::Obj(members) => match spec_member(members, key@) {
                    Some(v) => r matches Some(rv) && rv@ == v,
                    None => r is None,
                },
                _ => r is None,
            },
    {
        match self {
            Json::Obj(members) => {
                let ghost ms = members_view(members@);
                proof {
                    assert(self@ matches JsonV::Obj(inner) && inner =~= ms);
                    assert(self@ == JsonV::Obj(ms));
                    assert(ms.skip(0) =~= ms);
                }
                let n = members.len();
                let mut i: usize = 0;
                while i < n
                    invariant
                        n == members@.len(),
                        i <= n,
                        ms == members_view(members@),
                        self@ == JsonV::Obj(ms),
                        spec_member(ms, key@) == spec_member(ms.skip(i as int), key@),
                    decreases n - i,
                {
                    if crate::text::str_eq(members[i].key.as_str(), key) {
                        proof {
                            assert(ms.skip(i as int)[0] == members@[i as int]@);
                        }
                        return Some(&members[i].value);
                    }
                    i = i + 1;
                    proof {
                        assert(ms.skip(i - 1)[0] == members@[i - 1]@);
                        assert(ms.skip(i - 1).drop_first() =~= ms.skip(i as int));
                    }
                }
                proof {
                    assert(ms.skip(n as int) =~= Seq::<JsonMemberV>::empty());
                }
                None
            },
            _ => None,
        }
    }
}

} // verus!
