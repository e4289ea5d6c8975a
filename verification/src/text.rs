//! Byte-level text utilities shared by the locators and the output cleanup.
//!
//! All source buffers are handled as raw bytes, because the syntax trees
//! report byte-accurate spans.  Whitespace here means ASCII whitespace.
use vstd::prelude::*;

verus! {

/// ASCII whitespace: space, tab, line feed, vertical tab, form feed,
/// carriage return.
pub open spec fn spec_is_ws(b: u8) -> bool {
    b == 32 || b == 9 || b == 10 || b == 11 || b == 12 || b == 13
}

pub open spec fn spec_is_ws_or_brace(b: u8) -> bool {
    spec_is_ws(b) || b == 123 || b == 125
}

/// Every byte of `s` is whitespace or a brace.
pub open spec fn spec_all_ws_or_brace(s: Seq<u8>) -> bool {
    forall|i: int| 0 <= i < s.len() ==> spec_is_ws_or_brace(#[trigger] s[i])
}

/// `s` with leading and trailing ASCII whitespace removed.
pub open spec fn spec_trim(s: Seq<u8>) -> Seq<u8>
    decreases s.len(),
{
    if s.len() > 0 && spec_is_ws(s[0]) {
        spec_trim(s.subrange(1, s.len() as int))
    } else if s.len() > 0 && spec_is_ws(s[s.len() - 1]) {
        spec_trim(s.subrange(0, s.len() - 1))
    } else {
        s
    }
}

pub open spec fn spec_starts_with(s: Seq<u8>, p: Seq<u8>) -> bool {
    p.len() <= s.len() && s.subrange(0, p.len() as int) == p
}

pub open spec fn spec_ends_with(s: Seq<u8>, p: Seq<u8>) -> bool {
    p.len() <= s.len() && s.subrange(s.len() - p.len(), s.len() as int) == p
}

/// `s` with every leading repetition of `p` removed.
pub open spec fn spec_strip_prefix_all(s: Seq<u8>, p: Seq<u8>) -> Seq<u8>
    decreases s.len(),
{
    if p.len() > 0 && spec_starts_with(s, p) {
        spec_strip_prefix_all(s.subrange(p.len() as int, s.len() as int), p)
    } else {
        s
    }
}

/// `s` with every trailing repetition of `p` removed.
pub open spec fn spec_strip_suffix_all(s: Seq<u8>, p: Seq<u8>) -> Seq<u8>
    decreases s.len(),
{
    if p.len() > 0 && spec_ends_with(s, p) {
        spec_strip_suffix_all(s.subrange(0, s.len() - p.len()), p)
    } else {
        s
    }
}

/// Index of the first occurrence of `b` in `s` at or after `i`.
pub open spec fn spec_find_byte_from(s: Seq<u8>, b: u8, i: int) -> Option<int>
    decreases s.len() - i,
{
    if i < 0 || i >= s.len() {
        None
    } else if s[i] == b {
        Some(i)
    } else {
        spec_find_byte_from(s, b, i + 1)
    }
}

pub open spec fn spec_find_byte(s: Seq<u8>, b: u8) -> Option<int> {
    spec_find_byte_from(s, b, 0)
}

/// `s` split at every line feed; the separators are not kept.
pub open spec fn spec_split_lines(s: Seq<u8>) -> Seq<Seq<u8>>
    decreases s.len(),
{
    let found = spec_find_byte(s, 10);
    if found is Some && 0 <= found->Some_0 < s.len() {
        let i = found->Some_0;
        seq![s.subrange(0, i)] + spec_split_lines(s.subrange(i + 1, s.len() as int))
    } else {
        seq![s]
    }
}

/// A found index really is an in-range first occurrence.
pub proof fn lemma_find_byte_from_bounds(s: Seq<u8>, b: u8, i: int)
    requires
        0 <= i,
    ensures
        match spec_find_byte_from(s, b, i) {
            Some(j) => i <= j < s.len() && s[j] == b && forall|k: int|
                i <= k < j ==> s[k] != b,
            None => forall|k: int| i <= k < s.len() ==> s[k] != b,
        },
    decreases s.len() - i,
{
    if i < s.len() && s[i] != b {
        lemma_find_byte_from_bounds(s, b, i + 1);
    }
}

/// The elements of `parts` from index `i` on, joined with `sep` between them.
pub open spec fn spec_join_from(parts: Seq<Seq<u8>>, sep: Seq<u8>, i: int) -> Seq<u8>
    decreases parts.len() - i,
{
    if i < 0 || i >= parts.len() {
        Seq::empty()
    } else if i == parts.len() - 1 {
        parts[i]
    } else {
        parts[i] + sep + spec_join_from(parts, sep, i + 1)
    }
}

pub open spec fn spec_join(parts: Seq<Seq<u8>>, sep: Seq<u8>) -> Seq<u8> {
    spec_join_from(parts, sep, 0)
}

pub fn is_ws_byte(b: u8) -> (r: bool)
    ensures
        r == spec_is_ws(b),
{
    b == 32 || b == 9 || b == 10 || b == 11 || b == 12 || b == 13
}

pub fn bytes_eq(a: &[u8], b: &[u8]) -> (r: bool)
    ensures
        r == (a@ == b@),
{
    if a.len() != b.len() {
        proof {
            assert(a@.len() != b@.len());
        }
        return false;
    }
    let mut i: usize = 0;
    while i < a.len()
        invariant
            0 <= i <= a@.len(),
            a@.len() == b@.len(),
            forall|j: int| 0 <= j < i ==> a@[j] == b@[j],
        decreases a@.len() - i,
    {
        if a[i] != b[i] {
            proof {
                assert(a@[i as int] != b@[i as int]);
            }
            return false;
        }
        i += 1;
    }
    proof {
        assert(a@ =~= b@);
    }
    true
}

pub fn starts_with(s: &[u8], p: &[u8]) -> (r: bool)
    ensures
        r == spec_starts_with(s@, p@),
{
    if p.len() > s.len() {
        return false;
    }
    let head = vstd::slice::slice_subrange(s, 0, p.len());
    bytes_eq(head, p)
}

pub fn ends_with(s: &[u8], p: &[u8]) -> (r: bool)
    ensures
        r == spec_ends_with(s@, p@),
{
    if p.len() > s.len() {
        return false;
    }
    let tail = vstd::slice::slice_subrange(s, s.len() - p.len(), s.len());
    bytes_eq(tail, p)
}

/// Trimming strips exactly the whitespace margins: if everything
/// before `i` and everything from `j` on is whitespace, and the ends
/// of `[i, j)` are not, the trim of `s` is `s[i..j]`.
pub proof fn lemma_trim_range(s: Seq<u8>, i: int, j: int)
    requires
        0 <= i <= j <= s.len(),
        forall|k: int| 0 <= k < i ==> spec_is_ws(#[trigger] s[k]),
        forall|k: int| j <= k < s.len() ==> spec_is_ws(#[trigger] s[k]),
        i < j ==> !spec_is_ws(s[i]) && !spec_is_ws(s[j - 1]),
    ensures
        spec_trim(s) == s.subrange(i, j),
    decreases s.len(),
{
    if s.len() == 0 {
        assert(spec_trim(s) =~= s.subrange(i, j));
    } else if i == j {
        // everything is whitespace
        assert(spec_is_ws(s[0]));
        let t = s.subrange(1, s.len() as int);
        lemma_trim_range(t, 0, 0);
        assert(s.subrange(i, j) =~= t.subrange(0, 0));
    } else if i > 0 {
        let t = s.subrange(1, s.len() as int);
        lemma_trim_range(t, i - 1, j - 1);
        assert(t.subrange(i - 1, j - 1) =~= s.subrange(i, j));
    } else if j < s.len() {
        // i == 0, so s[0] is not whitespace, and the last byte is whitespace
        assert(spec_is_ws(s[s.len() - 1]));
        let t = s.subrange(0, s.len() - 1);
        lemma_trim_range(t, i, j);
        assert(t.subrange(i, j) =~= s.subrange(i, j));
    } else {
        // i == 0 and j == s.len(): nothing to strip
        assert(spec_trim(s) == s);
        assert(s.subrange(i, j) =~= s);
    }
}

/// `s` with leading and trailing ASCII whitespace removed.
pub fn trim_slice(s: &[u8]) -> (r: &[u8])
    ensures
        r@ == spec_trim(s@),
{
    let mut i: usize = 0;
    let mut j: usize = s.len();
    while i < j && is_ws_byte(s[i])
        invariant
            0 <= i <= j <= s@.len(),
            forall|k: int| 0 <= k < i ==> spec_is_ws(#[trigger] s@[k]),
            forall|k: int| j <= k < s@.len() ==> spec_is_ws(#[trigger] s@[k]),
        decreases j - i,
    {
        i += 1;
    }
    while i < j && is_ws_byte(s[j - 1])
        invariant
            0 <= i <= j <= s@.len(),
            forall|k: int| 0 <= k < i ==> spec_is_ws(#[trigger] s@[k]),
            forall|k: int| j <= k < s@.len() ==> spec_is_ws(#[trigger] s@[k]),
            i < j ==> !spec_is_ws(s@[i as int]),
        decreases j - i,
    {
        j -= 1;
    }
    proof {
        lemma_trim_range(s@, i as int, j as int);
    }
    vstd::slice::slice_subrange(s, i, j)
}

pub fn find_byte(s: &[u8], b: u8) -> (r: Option<usize>)
    ensures
        match r {
            Some(i) => spec_find_byte(s@, b) == Some(i as int),
            None => spec_find_byte(s@, b) is None,
        },
{
    let mut i: usize = 0;
    while i < s.len()
        invariant
            0 <= i <= s@.len(),
            spec_find_byte_from(s@, b, i as int) == spec_find_byte(s@, b),
        decreases s@.len() - i,
    {
        if s[i] == b {
            return Some(i);
        }
        i += 1;
    }
    None
}

/// `s` with every leading repetition of `p` removed.
pub fn strip_prefix_all<'a>(s: &'a [u8], p: &[u8]) -> (r: &'a [u8])
    ensures
        r@ == spec_strip_prefix_all(s@, p@),
{
    let mut t: &[u8] = s;
    while p.len() > 0 && starts_with(t, p)
        invariant
            spec_strip_prefix_all(t@, p@) == spec_strip_prefix_all(s@, p@),
        decreases t@.len(),
    {
        t = vstd::slice::slice_subrange(t, p.len(), t.len());
    }
    t
}

/// `s` with every trailing repetition of `p` removed.
pub fn strip_suffix_all<'a>(s: &'a [u8], p: &[u8]) -> (r: &'a [u8])
    ensures
        r@ == spec_strip_suffix_all(s@, p@),
{
    let mut t: &[u8] = s;
    while p.len() > 0 && ends_with(t, p)
        invariant
            spec_strip_suffix_all(t@, p@) == spec_strip_suffix_all(s@, p@),
        decreases t@.len(),
    {
        t = vstd::slice::slice_subrange(t, 0, t.len() - p.len());
    }
    t
}

/// `s` split at every line feed; the separators are not kept.
pub fn split_lines(s: &[u8]) -> (r: Vec<Vec<u8>>)
    ensures
        r.deep_view() == spec_split_lines(s@),
{
    let mut parts: Vec<Vec<u8>> = Vec::new();
    let mut rest: &[u8] = s;
    proof {
        assert(parts.deep_view() + spec_split_lines(rest@) =~= spec_split_lines(s@));
    }
    loop
        invariant
            spec_split_lines(s@) == parts.deep_view() + spec_split_lines(rest@),
        decreases rest@.len(),
    {
        proof {
            lemma_find_byte_from_bounds(rest@, 10, 0);
        }
        let ghost pre = parts.deep_view();
        let ghost before = rest@;
        match find_byte(rest, 10) {
            Some(i) => {
                proof {
                    assert(spec_find_byte(before, 10) == Some(i as int));
                    assert((i as int) < before.len());
                }
                let n = rest.len();
                let head = vstd::slice::slice_subrange(rest, 0, i);
                parts.push(vstd::slice::slice_to_vec(head));
                let tail = vstd::slice::slice_subrange(rest, i + 1, n);
                rest = tail;
                proof {
                    assert(parts.deep_view() =~~= pre + seq![head@]);
                    assert(spec_split_lines(before) == seq![head@] + spec_split_lines(rest@));
                    assert(parts.deep_view() + spec_split_lines(rest@) =~= spec_split_lines(s@));
                }
            },
            None => {
                parts.push(vstd::slice::slice_to_vec(rest));
                proof {
                    assert(parts.deep_view() =~~= pre + seq![before]);
                    assert(spec_split_lines(before) == seq![before]);
                    assert(parts.deep_view() =~= spec_split_lines(s@));
                }
                return parts;
            },
        }
    }
}

/// The elements of `parts`, joined with `sep` between them.
pub fn join_with(parts: &Vec<Vec<u8>>, sep: &[u8]) -> (r: Vec<u8>)
    ensures
        r@ == spec_join(parts.deep_view(), sep@),
{
    let ghost d = parts.deep_view();
    let mut acc: Vec<u8> = Vec::new();
    let mut i: usize = 0;
    while i < parts.len()
        invariant
            0 <= i <= parts@.len(),
            d == parts.deep_view(),
            d.len() == parts@.len(),
            i == 0 ==> acc@ =~= Seq::<u8>::empty(),
            0 < i < d.len() ==> spec_join(d, sep@) == acc@ + sep@ + spec_join_from(d, sep@, i as int),
            i > 0 && i >= d.len() ==> spec_join(d, sep@) == acc@,
        decreases parts@.len() - i,
    {
        if i > 0 {
            acc.extend_from_slice(sep);
        }
        acc.extend_from_slice(parts[i].as_slice());
        proof {
            assert(parts@[i as int]@ == d[i as int]);
            if i == 0 {
                assert(acc@ =~= d[0]);
                if d.len() > 1 {
                    assert(spec_join(d, sep@) == d[0] + sep@ + spec_join_from(d, sep@, 1));
                    assert(acc@ + sep@ + spec_join_from(d, sep@, 1) =~= spec_join(d, sep@));
                }
            } else if (i as int) < d.len() - 1 {
                assert(spec_join_from(d, sep@, i as int) == d[i as int] + sep@ + spec_join_from(
                    d,
                    sep@,
                    i as int + 1,
                ));
                assert(acc@ + sep@ + spec_join_from(d, sep@, i as int + 1) =~= spec_join(d, sep@));
            } else {
                assert(spec_join_from(d, sep@, i as int) == d[i as int]);
                assert(acc@ =~= spec_join(d, sep@));
            }
        }
        i += 1;
    }
    acc
}

} // verus!
