//! Cleanup of raw vendor output before it is spliced into a buffer.
use vstd::prelude::*;

use crate::text::{
    ends_with, find_byte, lemma_find_byte_from_bounds, spec_ends_with, spec_find_byte,
    spec_starts_with, spec_strip_prefix_all, spec_strip_suffix_all, spec_trim, starts_with,
    strip_prefix_all, strip_suffix_all, trim_slice,
};

verus! {

/// A markdown code fence: three backticks.
pub open spec fn spec_fence() -> Seq<u8> {
    seq![96u8, 96u8, 96u8]
}

fn fence_bytes() -> (r: Vec<u8>)
    ensures
        r@ == spec_fence(),
{
    let mut v: Vec<u8> = Vec::new();
    v.push(96);
    v.push(96);
    v.push(96);
    proof {
        assert(v@ =~= spec_fence());
    }
    v
}

/// The trimmed output with a leading code fence removed: everything
/// from the line-feed after the fence's info line on, if there is one.
pub open spec fn spec_without_leading_fence(t: Seq<u8>) -> Seq<u8> {
    if spec_starts_with(t, spec_fence()) {
        let u = spec_strip_prefix_all(t, spec_fence());
        let found = spec_find_byte(u, 10);
        if found is Some && 0 <= found->Some_0 < u.len() {
            u.subrange(found->Some_0, u.len() as int)
        } else {
            u
        }
    } else {
        t
    }
}

/// The result of cleaning one raw vendor output: trimmed, leading and
/// trailing markdown code fences removed, trimmed again.
pub open spec fn spec_clean_output(s: Seq<u8>) -> Seq<u8> {
    let t = spec_without_leading_fence(spec_trim(s));
    let u = if spec_ends_with(t, spec_fence()) {
        spec_strip_suffix_all(t, spec_fence())
    } else {
        t
    };
    spec_trim(u)
}

/// Cleanup of markdown/code fences, extra text.
pub fn clean_output(output: &[u8]) -> (r: Vec<u8>)
    ensures
        r@ == spec_clean_output(output@),
{
    let fence = fence_bytes();
    let mut out: &[u8] = trim_slice(output);
    if starts_with(out, fence.as_slice()) {
        out = strip_prefix_all(out, fence.as_slice());
        proof {
            lemma_find_byte_from_bounds(out@, 10, 0);
        }
        match find_byte(out, 10) {
            Some(idx) => {
                out = vstd::slice::slice_subrange(out, idx, out.len());
            },
            None => {},
        }
    }
    if ends_with(out, fence.as_slice()) {
        out = strip_suffix_all(out, fence.as_slice());
    }
    vstd::slice::slice_to_vec(trim_slice(out))
}

} // verus!
