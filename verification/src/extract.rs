//! Extraction of a JSON payload from a raw model answer.
//!
//! The model is instructed to answer with raw JSON, but it sometimes wraps
//! the payload in a markdown code fence. The extractor trims surrounding
//! whitespace and, when the answer opens with a fence marker (tagged
//! `json` or bare), strips the opening and closing markers and trims again.
//! It is a heuristic cleanup only: whether the remainder really is JSON is
//! decided later, by the decode step.

use crate::text::{chars_of, ends_with, is_space, is_space_char, starts_with, string_from_range};
use vstd::prelude::*;

verus! {

/// The bare code-fence marker.
pub open spec fn fence() -> Seq<char> {
    seq!['`', '`', '`']
}

/// The `json`-tagged opening fence marker.
pub open spec fn fence_json() -> Seq<char> {
    seq!['`', '`', '`', 'j', 's', 'o', 'n']
}

/// `s` with leading whitespace removed.
pub open spec fn trim_start(s: Seq<char>) -> Seq<char>
    decreases s.len(),
{
    if s.len() > 0 && is_space(s[0]) {
        trim_start(s.drop_first())
    } else {
        s
    }
}

/// `s` with trailing whitespace removed.
pub open spec fn trim_end(s: Seq<char>) -> Seq<char>
    decreases s.len(),
{
    if s.len() > 0 && is_space(s.last()) {
        trim_end(s.drop_last())
    } else {
        s
    }
}

/// `s` with leading and trailing whitespace removed.
pub open spec fn trim(s: Seq<char>) -> Seq<char> {
    trim_end(trim_start(s))
}

/// `s` with every successive copy of the prefix `p` removed from the front.
pub open spec fn strip_prefix_all(s: Seq<char>, p: Seq<char>) -> Seq<char>
    decreases s.len(),
{
    if p.len() > 0 && starts_with(s, p) {
        strip_prefix_all(s.skip(p.len() as int), p)
    } else {
        s
    }
}

/// `s` with every successive copy of the suffix `p` removed from the back.
pub open spec fn strip_suffix_all(s: Seq<char>, p: Seq<char>) -> Seq<char>
    decreases s.len(),
{
    if p.len() > 0 && ends_with(s, p) {
        strip_suffix_all(s.take(s.len() - p.len()), p)
    } else {
        s
    }
}

/// What [`extract_json`] returns: the trimmed text, unwrapped from a
/// leading `json`-tagged or bare code fence if one is present.
pub open spec fn spec_extract_json(s: Seq<char>) -> Seq<char> {
    let t = trim(s);
    if starts_with(t, fence_json()) {
        trim(strip_suffix_all(strip_prefix_all(t, fence_json()), fence()))
    } else if starts_with(t, fence()) {
        trim(strip_suffix_all(strip_prefix_all(t, fence()), fence()))
    } else {
        t
    }
}

proof fn lemma_trim_start_head(s: Seq<char>)
    ensures
        trim_start(s).len() == 0 || !is_space(trim_start(s)[0]),
        trim_start(s).len() <= s.len(),
    decreases s.len(),
{
    if s.len() > 0 && is_space(s[0]) {
        lemma_trim_start_head(s.drop_first());
    }
}

proof fn lemma_trim_end_is_prefix(s: Seq<char>)
    ensures
        trim_end(s).len() <= s.len(),
        trim_end(s).len() > 0 ==> trim_end(s)[0] == s[0],
        trim_end(s).len() == 0 || !is_space(trim_end(s).last()),
    decreases s.len(),
{
    if s.len() > 0 && is_space(s.last()) {
        lemma_trim_end_is_prefix(s.drop_last());
    }
}

proof fn lemma_trim_idempotent(s: Seq<char>)
    ensures
        trim(trim(s)) == trim(s),
{
    let a = trim_start(s);
    let b = trim_end(a);
    lemma_trim_start_head(s);
    lemma_trim_end_is_prefix(a);
    if b.len() == 0 {
        assert(trim_start(b) == b);
        assert(trim_end(b) == b);
    } else {
        assert(!is_space(b[0]));
        assert(trim_start(b) == b);
        assert(!is_space(b.last()));
        assert(trim_end(b) == b);
    }
}

proof fn lemma_fence_json_has_fence_prefix(t: Seq<char>)
    requires
        starts_with(t, fence_json()),
    ensures
        starts_with(t, fence()),
{
    assert(t.subrange(0, 3) =~= fence()) by {
        assert(t.subrange(0, 7) == fence_json());
        assert(forall|i: int|
            0 <= i < 7 ==> t.subrange(0, 7)[i] == fence_json()[i]);
    }
}

/// Stripping an already-stripped answer is a no-op: applying
/// [`extract_json`] twice gives what one application gives, provided the
/// first application does not itself expose a new leading fence marker
/// (as in an answer that opens with two fence markers in a row).
pub proof fn lemma_extract_json_idempotent(s: Seq<char>)
    requires
        !starts_with(spec_extract_json(s), fence()),
    ensures
        spec_extract_json(spec_extract_json(s)) == spec_extract_json(s),
{
    let t = spec_extract_json(s);
    let t0 = trim(s);
    if starts_with(t0, fence_json()) {
        lemma_trim_idempotent(strip_suffix_all(strip_prefix_all(t0, fence_json()), fence()));
    } else if starts_with(t0, fence()) {
        lemma_trim_idempotent(strip_suffix_all(strip_prefix_all(t0, fence()), fence()));
    } else {
        lemma_trim_idempotent(s);
    }
    assert(trim(t) == t);
    if starts_with(t, fence_json()) {
        lemma_fence_json_has_fence_prefix(t);
        assert(false);
    }
}

/// Whether `cs[lo..hi]` starts with `p`.
fn range_has_prefix(cs: &Vec<char>, lo: usize, hi: usize, p: &Vec<char>) -> (r: bool)
    requires
        lo <= hi <= cs@.len(),
    ensures
        r == starts_with(cs@.subrange(lo as int, hi as int), p@),
{
    let ghost sub = cs@.subrange(lo as int, hi as int);
    let plen = p.len();
    if hi - lo < plen {
        return false;
    }
    let mut i: usize = 0;
    while i < plen
        invariant
            lo <= hi <= cs@.len(),
            plen == p@.len(),
            plen <= hi - lo,
            i <= plen,
            sub == cs@.subrange(lo as int, hi as int),
            forall|j: int| 0 <= j < i ==> sub[j] == p@[j],
        decreases plen - i,
    {
        if cs[lo + i] != p[i] {
            proof {
                assert(sub.subrange(0, plen as int)[i as int] != p@[i as int]);
            }
            return false;
        }
        i = i + 1;
    }
    proof {
        assert(sub.subrange(0, plen as int) =~= p@);
    }
    true
}

/// Whether `cs[lo..hi]` ends with `p`.
fn range_ends_with(cs: &Vec<char>, lo: usize, hi: usize, p: &Vec<char>) -> (r: bool)
    requires
        lo <= hi <= cs@.len(),
    ensures
        r == ends_with(cs@.subrange(lo as int, hi as int), p@),
{
    let ghost sub = cs@.subrange(lo as int, hi as int);
    let plen = p.len();
    if hi - lo < plen {
        return false;
    }
    let base = hi - plen;
    let mut i: usize = 0;
    while i < plen
        invariant
            lo <= hi <= cs@.len(),
            plen == p@.len(),
            plen <= hi - lo,
            base == hi - plen,
            i <= plen,
            sub == cs@.subrange(lo as int, hi as int),
            forall|j: int| 0 <= j < i ==> sub[sub.len() - plen + j] == p@[j],
        decreases plen - i,
    {
        if cs[base + i] != p[i] {
            proof {
                assert(sub.subrange(sub.len() - plen, sub.len() as int)[i as int] != p@[
                    i as int
                ]);
            }
            return false;
        }
        i = i + 1;
    }
    proof {
        assert(sub.subrange(sub.len() - plen, sub.len() as int) =~= p@);
    }
    true
}

/// The bare fence marker as a character vector.
fn fence_vec() -> (r: Vec<char>)
    ensures
        r@ == fence(),
{
    let mut r: Vec<char> = Vec::new();
    r.push('`');
    r.push('`');
    r.push('`');
    proof {
        assert(r@ =~= fence());
    }
    r
}

/// The `json`-tagged fence marker as a character vector.
fn fence_json_vec() -> (r: Vec<char>)
    ensures
        r@ == fence_json(),
{
    let mut r: Vec<char> = Vec::new();
    r.push('`');
    r.push('`');
    r.push('`');
    r.push('j');
    r.push('s');
    r.push('o');
    r.push('n');
    proof {
        assert(r@ =~= fence_json());
    }
    r
}

/// Trims whitespace from both sides of `cs[lo..hi]`, returning the bounds
/// of the trimmed region.
fn trim_range(cs: &Vec<char>, lo: usize, hi: usize) -> (r: (usize, usize))
    requires
        lo <= hi <= cs@.len(),
    ensures
        lo <= r.0 <= r.1 <= hi,
        cs@.subrange(r.0 as int, r.1 as int) == trim(cs@.subrange(lo as int, hi as int)),
{
    let mut a = lo;
    while a < hi && is_space_char(cs[a])
        invariant
            lo <= a <= hi <= cs@.len(),
            trim_start(cs@.subrange(lo as int, hi as int)) == trim_start(
                cs@.subrange(a as int, hi as int),
            ),
        decreases hi - a,
    {
        proof {
            let sub = cs@.subrange(a as int, hi as int);
            assert(sub[0] == cs@[a as int]);
            assert(sub.drop_first() =~= cs@.subrange(a + 1, hi as int));
        }
        a = a + 1;
    }
    proof {
        let sub = cs@.subrange(a as int, hi as int);
        assert(trim_start(sub) == sub);
    }
    let mut b = hi;
    while b > a && is_space_char(cs[b - 1])
        invariant
            lo <= a <= b <= hi <= cs@.len(),
            trim_start(cs@.subrange(lo as int, hi as int)) == cs@.subrange(a as int, hi as int),
            trim_end(cs@.subrange(a as int, hi as int)) == trim_end(
                cs@.subrange(a as int, b as int),
            ),
        decreases b,
    {
        proof {
            let sub = cs@.subrange(a as int, b as int);
            assert(sub.last() == cs@[b - 1]);
            assert(sub.drop_last() =~= cs@.subrange(a as int, b - 1));
        }
        b = b - 1;
    }
    proof {
        let sub = cs@.subrange(a as int, b as int);
        assert(trim_end(sub) == sub);
    }
    (a, b)
}

/// Strips every leading copy of `p` from `cs[lo..hi]`, returning the new
/// lower bound.
fn strip_prefix_range(cs: &Vec<char>, lo: usize, hi: usize, p: &Vec<char>) -> (r: usize)
    requires
        lo <= hi <= cs@.len(),
        p@.len() > 0,
    ensures
        lo <= r <= hi,
        cs@.subrange(r as int, hi as int) == strip_prefix_all(
            cs@.subrange(lo as int, hi as int),
            p@,
        ),
{
    let plen = p.len();
    let mut a = lo;
    loop
        invariant
            lo <= a <= hi <= cs@.len(),
            plen == p@.len(),
            plen > 0,
            strip_prefix_all(cs@.subrange(lo as int, hi as int), p@) == strip_prefix_all(
                cs@.subrange(a as int, hi as int),
                p@,
            ),
        ensures
            lo <= a <= hi,
            strip_prefix_all(cs@.subrange(lo as int, hi as int), p@) == cs@.subrange(
                a as int,
                hi as int,
            ),
        decreases hi - a,
    {
        if range_has_prefix(cs, a, hi, p) {
            proof {
                let sub = cs@.subrange(a as int, hi as int);
                assert(sub.skip(plen as int) =~= cs@.subrange(a + plen, hi as int));
            }
            a = a + plen;
        } else {
            proof {
                let sub = cs@.subrange(a as int, hi as int);
                assert(strip_prefix_all(sub, p@) == sub);
            }
            break;
        }
    }
    a
}

/// Strips every trailing copy of `p` from `cs[lo..hi]`, returning the new
/// upper bound.
fn strip_suffix_range(cs: &Vec<char>, lo: usize, hi: usize, p: &Vec<char>) -> (r: usize)
    requires
        lo <= hi <= cs@.len(),
        p@.len() > 0,
    ensures
        lo <= r <= hi,
        cs@.subrange(lo as int, r as int) == strip_suffix_all(
            cs@.subrange(lo as int, hi as int),
            p@,
        ),
{
    let plen = p.len();
    let mut b = hi;
    loop
        invariant
            lo <= b <= hi <= cs@.len(),
            plen == p@.len(),
            plen > 0,
            strip_suffix_all(cs@.subrange(lo as int, hi as int), p@) == strip_suffix_all(
                cs@.subrange(lo as int, b as int),
                p@,
            ),
        ensures
            lo <= b <= hi,
            strip_suffix_all(cs@.subrange(lo as int, hi as int), p@) == cs@.subrange(
                lo as int,
                b as int,
            ),
        decreases b,
    {
        if range_ends_with(cs, lo, b, p) {
            proof {
                let sub = cs@.subrange(lo as int, b as int);
                assert(sub.take(sub.len() - plen) =~= cs@.subrange(lo as int, b - plen));
            }
            b = b - plen;
        } else {
            proof {
                let sub = cs@.subrange(lo as int, b as int);
                assert(strip_suffix_all(sub, p@) == sub);
            }
            break;
        }
    }
    b
}

/// Extracts the JSON payload from a raw model answer: trims whitespace and
/// unwraps one level of markdown code fencing, tagged `json` or bare, if
/// the answer opens with one.
pub fn extract_json(raw: &str) -> (r: String)
    ensures
        r@ == spec_extract_json(raw@),
{
    let cs = chars_of(raw);
    let n = cs.len();
    proof {
        assert(cs@.subrange(0, n as int) =~= raw@);
    }
    let (lo, hi) = trim_range(&cs, 0, n);
    let fj = fence_json_vec();
    let f = fence_vec();
    if range_has_prefix(&cs, lo, hi, &fj) {
        let lo2 = strip_prefix_range(&cs, lo, hi, &fj);
        let hi2 = strip_suffix_range(&cs, lo2, hi, &f);
        let (lo3, hi3) = trim_range(&cs, lo2, hi2);
        string_from_range(&cs, lo3, hi3)
    } else if range_has_prefix(&cs, lo, hi, &f) {
        let lo2 = strip_prefix_range(&cs, lo, hi, &f);
        let hi2 = strip_suffix_range(&cs, lo2, hi, &f);
        let (lo3, hi3) = trim_range(&cs, lo2, hi2);
        string_from_range(&cs, lo3, hi3)
    } else {
        string_from_range(&cs, lo, hi)
    }
}

} // verus!
