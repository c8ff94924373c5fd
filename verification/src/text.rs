//! Character-level helpers shared by the prompt builder, the response
//! extractor and the renderers: conversion between `&str` and `Vec<char>`,
//! whitespace classification, substring tests and decimal rendering.

use vstd::prelude::*;
use vstd::string::{StrSliceExecFns, StringExecFns};

verus! {

/// Appends one character to a `String`.
///
/// Relies on `String::push`: appends the given `char` to the end of this
/// `String`.
#[verifier::external_body]
pub fn push_char(s: &mut String, c: char)
    ensures
        final(s)@ == old(s)@ + seq![c],
{
    s.push(c);
}

/// The characters of `s`, in order, as a vector.
pub fn chars_of(s: &str) -> (r: Vec<char>)
    ensures
        r@ == s@,
{
    let n: usize = s.unicode_len();
    let mut r: Vec<char> = Vec::new();
    let mut i: usize = 0;
    while i < n
        invariant
            n == s@.len(),
            i <= n,
            r@ == s@.take(i as int),
        decreases n - i,
    {
        r.push(s.get_char(i));
        i = i + 1;
        proof {
            assert(s@.take(i as int) =~= s@.take(i - 1) + seq![s@[i - 1]]);
        }
    }
    proof {
        assert(s@.take(n as int) =~= s@);
    }
    r
}

/// The characters `chars[from..to]`, joined into an owned `String`.
pub fn string_from_range(chars: &Vec<char>, from: usize, to: usize) -> (r: String)
    requires
        from <= to <= chars@.len(),
    ensures
        r@ == chars@.subrange(from as int, to as int),
{
    let mut r = String::new();
    let mut i: usize = from;
    while i < to
        invariant
            from <= i <= to <= chars@.len(),
            r@ == chars@.subrange(from as int, i as int),
        decreases to - i,
    {
        push_char(&mut r, chars[i]);
        i = i + 1;
        proof {
            assert(chars@.subrange(from as int, i as int) =~= chars@.subrange(
                from as int,
                i - 1,
            ) + seq![chars@[i - 1]]);
        }
    }
    r
}

/// Character-for-character equality of two string slices.
pub fn str_eq(a: &str, b: &str) -> (r: bool)
    ensures
        r == (a@ == b@),
{
    let na: usize = a.unicode_len();
    let nb: usize = b.unicode_len();
    if na != nb {
        proof {
            assert(a@ != b@);
        }
        return false;
    }
    let mut i: usize = 0;
    while i < na
        invariant
            na == a@.len(),
            na == b@.len(),
            i <= na,
            forall|j: int| 0 <= j < i ==> a@[j] == b@[j],
        decreases na - i,
    {
        if a.get_char(i) != b.get_char(i) {
            proof {
                assert(a@ != b@);
            }
            return false;
        }
        i = i + 1;
    }
    proof {
        assert(a@ =~= b@);
    }
    true
}

/// Whether `c` has the Unicode `White_Space` property, the class that
/// `str::trim` removes.
pub open spec fn is_space(c: char) -> bool {
    ||| c == ' '
    ||| c == '\t'
    ||| c == '\n'
    ||| c == '\u{b}'
    ||| c == '\u{c}'
    ||| c == '\r'
    ||| c == '\u{85}'
    ||| c == '\u{a0}'
    ||| c == '\u{1680}'
    ||| ('\u{2000}' <= c && c <= '\u{200a}')
    ||| c == '\u{2028}'
    ||| c == '\u{2029}'
    ||| c == '\u{202f}'
    ||| c == '\u{205f}'
    ||| c == '\u{3000}'
}

/// Executable test for [`is_space`].
pub fn is_space_char(c: char) -> (r: bool)
    ensures
        r == is_space(c),
{
    c == ' ' || c == '\t' || c == '\n' || c == '\u{b}' || c == '\u{c}' || c == '\r' || c
        == '\u{85}' || c == '\u{a0}' || c == '\u{1680}' || ('\u{2000}' <= c && c <= '\u{200a}') || c
        == '\u{2028}' || c == '\u{2029}' || c == '\u{202f}' || c == '\u{205f}' || c == '\u{3000}'
}

/// Whether every character of `s` is whitespace; the test behind "blank
/// after trimming".
pub open spec fn is_blank(s: Seq<char>) -> bool {
    forall|i: int| 0 <= i < s.len() ==> is_space(s[i])
}

/// Executable test for [`is_blank`].
pub fn is_blank_str(s: &str) -> (r: bool)
    ensures
        r == is_blank(s@),
{
    let n: usize = s.unicode_len();
    let mut i: usize = 0;
    while i < n
        invariant
            n == s@.len(),
            i <= n,
            forall|j: int| 0 <= j < i ==> is_space(s@[j]),
        decreases n - i,
    {
        if !is_space_char(s.get_char(i)) {
            return false;
        }
        i = i + 1;
    }
    true
}

/// Whether `sub` occurs in `s` starting at index `i`.
pub open spec fn occurs_at(s: Seq<char>, sub: Seq<char>, i: int) -> bool {
    0 <= i && i + sub.len() <= s.len() && s.subrange(i, i + sub.len()) == sub
}

/// Whether `s` ends with `suffix`.
pub open spec fn ends_with(s: Seq<char>, suffix: Seq<char>) -> bool {
    suffix.len() <= s.len() && s.subrange(s.len() - suffix.len(), s.len() as int) == suffix
}

/// Whether `s` starts with `prefix`.
pub open spec fn starts_with(s: Seq<char>, prefix: Seq<char>) -> bool {
    occurs_at(s, prefix, 0)
}

/// `s` with every non-overlapping occurrence of `pat`, found left to
/// right, replaced by `to`.
pub open spec fn spec_replace(s: Seq<char>, pat: Seq<char>, to: Seq<char>) -> Seq<char>
    decreases s.len(),
{
    if pat.len() == 0 || s.len() == 0 {
        s
    } else if starts_with(s, pat) {
        to + spec_replace(s.skip(pat.len() as int), pat, to)
    } else {
        seq![s[0]] + spec_replace(s.drop_first(), pat, to)
    }
}

/// Whether `pat` occurs in `cs` at `i`.
fn occurs_here(cs: &Vec<char>, i: usize, pat: &Vec<char>) -> (r: bool)
    requires
        i <= cs@.len(),
    ensures
        r == occurs_at(cs@, pat@, i as int),
{
    let plen = pat.len();
    let n = cs.len();
    if n - i < plen {
        return false;
    }
    let mut k: usize = 0;
    while k < plen
        invariant
            n == cs@.len(),
            i + plen <= n,
            plen == pat@.len(),
            k <= plen,
            forall|j: int| 0 <= j < k ==> cs@[i + j] == pat@[j],
        decreases plen - k,
    {
        if cs[i + k] != pat[k] {
            proof {
                assert(cs@.subrange(i as int, i + plen)[k as int] != pat@[k as int]);
            }
            return false;
        }
        k = k + 1;
    }
    proof {
        assert(cs@.subrange(i as int, i + plen) =~= pat@);
    }
    true
}

/// Replaces every occurrence of `pat` in `s` by `to`, left to right.
pub fn replace_all(s: &str, pat: &str, to: &str) -> (r: String)
    requires
        pat@.len() > 0,
    ensures
        r@ == spec_replace(s@, pat@, to@),
{
    let cs = chars_of(s);
    let pv = chars_of(pat);
    let n = cs.len();
    let plen = pv.len();
    let mut out = String::new();
    let mut i: usize = 0;
    proof {
        assert(s@.skip(0) =~= s@);
    }
    while i < n
        invariant
            i <= n,
            n == s@.len(),
            cs@ == s@,
            pv@ == pat@,
            plen == pat@.len(),
            plen > 0,
            spec_replace(s@, pat@, to@) == out@ + spec_replace(s@.skip(i as int), pat@, to@),
        decreases n - i,
    {
        let ghost rest = s@.skip(i as int);
        if occurs_here(&cs, i, &pv) {
            proof {
                assert(rest.subrange(0, plen as int) =~= s@.subrange(i as int, i + plen));
                assert(starts_with(rest, pat@));
                assert(rest.skip(plen as int) =~= s@.skip(i + plen));
            }
            out.append(to);
            i = i + plen;
        } else {
            proof {
                if plen <= rest.len() {
                    assert(rest.subrange(0, plen as int) =~= s@.subrange(i as int, i + plen));
                }
                assert(!starts_with(rest, pat@));
                assert(rest[0] == s@[i as int]);
                assert(rest.drop_first() =~= s@.skip(i + 1));
            }
            push_char(&mut out, cs[i]);
            i = i + 1;
        }
    }
    proof {
        assert(s@.skip(n as int) =~= Seq::<char>::empty());
        assert(out@ + Seq::<char>::empty() =~= out@);
    }
    out
}

/// The decimal digits of `n`, most significant first.
pub open spec fn dec_digits(n: nat) -> Seq<char>
    decreases n,
{
    let last = seq![dec_digit_char(n % 10)];
    if n < 10 {
        last
    } else {
        dec_digits(n / 10) + last
    }
}

/// The character for one decimal digit.
pub open spec fn dec_digit_char(d: nat) -> char {
    if d == 0 {
        '0'
    } else if d == 1 {
        '1'
    } else if d == 2 {
        '2'
    } else if d == 3 {
        '3'
    } else if d == 4 {
        '4'
    } else if d == 5 {
        '5'
    } else if d == 6 {
        '6'
    } else if d == 7 {
        '7'
    } else if d == 8 {
        '8'
    } else {
        '9'
    }
}

/// Renders `n` in decimal.
pub fn fmt_u64(n: u64) -> (r: String)
    ensures
        r@ == dec_digits(n as nat),
    decreases n,
{
    let d: u64 = n % 10;
    let c: char = if d == 0 {
        '0'
    } else if d == 1 {
        '1'
    } else if d == 2 {
        '2'
    } else if d == 3 {
        '3'
    } else if d == 4 {
        '4'
    } else if d == 5 {
        '5'
    } else if d == 6 {
        '6'
    } else if d == 7 {
        '7'
    } else if d == 8 {
        '8'
    } else {
        '9'
    };
    if n < 10 {
        let mut r = String::new();
        push_char(&mut r, c);
        r
    } else {
        let mut r = fmt_u64(n / 10);
        push_char(&mut r, c);
        r
    }
}

} // verus!
