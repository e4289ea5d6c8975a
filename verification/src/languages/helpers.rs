//! Shared locator helpers: body lookup, emptiness, signature and
//! doc-comment extraction over the plain syntax-tree model.
use vstd::prelude::*;

use crate::languages::language_standard::SyntaxNode;
use crate::text::{
    join_with, spec_all_ws_or_brace, spec_is_ws_or_brace, spec_join, spec_split_lines,
    spec_starts_with, spec_strip_prefix_all, spec_strip_suffix_all, spec_trim, split_lines,
    starts_with, strip_prefix_all, strip_suffix_all, trim_slice,
};

verus! {

pub open spec fn spec_is_body_field(n: SyntaxNode) -> bool {
    match n.field {
        Some(f) => f@ == "body"@,
        None => false,
    }
}

/// First direct child at or after index `i` that fills the "body" field.
pub open spec fn spec_body_child_from(s: Seq<SyntaxNode>, i: int) -> Option<SyntaxNode>
    decreases s.len() - i,
{
    if i < 0 || i >= s.len() {
        None
    } else if spec_is_body_field(s[i]) {
        Some(s[i])
    } else {
        spec_body_child_from(s, i + 1)
    }
}

pub open spec fn spec_body_child(s: Seq<SyntaxNode>) -> Option<SyntaxNode> {
    spec_body_child_from(s, 0)
}

/// Depth-first search: the body field among `n`'s direct children, else
/// the first body field found inside `n`'s children, in order.
pub open spec fn spec_find_body(n: SyntaxNode) -> Option<SyntaxNode>
    decreases n, 0int,
{
    match spec_body_child(n.children@) {
        Some(b) => Some(b),
        None => spec_find_body_from(n.children@, 0),
    }
}

pub open spec fn spec_find_body_from(s: Seq<SyntaxNode>, i: int) -> Option<SyntaxNode>
    decreases s, s.len() - i,
{
    if i < 0 || i >= s.len() {
        None
    } else {
        match spec_find_body(s[i]) {
            Some(b) => Some(b),
            None => spec_find_body_from(s, i + 1),
        }
    }
}

fn node_is_body_field(n: &SyntaxNode) -> (r: bool)
    ensures
        r == spec_is_body_field(*n),
{
    match &n.field {
        Some(f) => *f == "body".to_owned(),
        None => false,
    }
}

/// First direct child filling the "body" field.
pub fn body_child(children: &Vec<SyntaxNode>) -> (r: Option<&SyntaxNode>)
    ensures
        match r {
            Some(b) => spec_body_child(children@) == Some(*b),
            None => spec_body_child(children@) is None,
        },
{
    let mut i: usize = 0;
    while i < children.len()
        invariant
            0 <= i <= children@.len(),
            spec_body_child_from(children@, i as int) == spec_body_child(children@),
        decreases children@.len() - i,
    {
        if node_is_body_field(&children[i]) {
            return Some(&children[i]);
        }
        i += 1;
    }
    None
}

/// Finds a "body" field anywhere inside a node: the node's own body
/// field if it has one, else the first one found by depth-first search
/// of its children.
pub fn find_body_recursive(n: &SyntaxNode) -> (r: Option<&SyntaxNode>)
    ensures
        match r {
            Some(b) => spec_find_body(*n) == Some(*b),
            None => spec_find_body(*n) is None,
        },
    decreases *n,
{
    match body_child(&n.children) {
        Some(b) => {
            return Some(b);
        },
        None => {},
    }
    let mut i: usize = 0;
    while i < n.children.len()
        invariant
            0 <= i <= n.children@.len(),
            spec_body_child(n.children@) is None,
            spec_find_body_from(n.children@, i as int) == spec_find_body_from(n.children@, 0),
        decreases n.children@.len() - i,
    {
        match find_body_recursive(&n.children[i]) {
            Some(b) => {
                return Some(b);
            },
            None => {},
        }
        i += 1;
    }
    None
}

/// The span of `n` lies inside a buffer of length `len`.
pub open spec fn spec_span_ok(n: SyntaxNode, len: nat) -> bool {
    n.start_byte <= n.end_byte && n.end_byte <= len
}

/// The text content of a node: the bytes of its span.
pub open spec fn spec_text_for(source: Seq<u8>, n: SyntaxNode) -> Seq<u8> {
    source.subrange(n.start_byte as int, n.end_byte as int)
}

/// Extracts the text content for a given syntax-tree node.
pub fn text_for<'a>(source: &'a [u8], node: &SyntaxNode) -> (r: &'a [u8])
    requires
        spec_span_ok(*node, source@.len()),
    ensures
        r@ == spec_text_for(source@, *node),
{
    vstd::slice::slice_subrange(source, node.start_byte, node.end_byte)
}

/// Where the signature of `n` ends: the start of its body node, or the
/// end of `n` itself if no body node exists.
pub open spec fn spec_sig_end(n: SyntaxNode) -> nat {
    match spec_find_body(n) {
        Some(b) => b.start_byte as nat,
        None => n.end_byte as nat,
    }
}

/// The signature range of `n` lies inside a buffer of length `len`.
pub open spec fn spec_sig_ok(n: SyntaxNode, len: nat) -> bool {
    n.start_byte <= spec_sig_end(n) && spec_sig_end(n) <= len
}

/// The signature of `n`: the trimmed source slice from the start of `n`
/// to the start of its body, delimiters excluded.
pub open spec fn spec_signature(n: SyntaxNode, source: Seq<u8>) -> Seq<u8> {
    spec_trim(source.subrange(n.start_byte as int, spec_sig_end(n) as int))
}

/// Extracts the function signature: everything before the body.
pub fn extract_signature(node: &SyntaxNode, source: &[u8]) -> (r: Vec<u8>)
    requires
        spec_sig_ok(*node, source@.len()),
    ensures
        r@ == spec_signature(*node, source@),
{
    let end: usize = match find_body_recursive(node) {
        Some(b) => b.start_byte,
        None => node.end_byte,
    };
    let sig = trim_slice(vstd::slice::slice_subrange(source, node.start_byte, end));
    vstd::slice::slice_to_vec(sig)
}

/// Checks if a function body contains only whitespace and braces.
pub fn is_empty_body(body_text: &[u8]) -> (r: bool)
    ensures
        r == spec_all_ws_or_brace(body_text@),
{
    let mut i: usize = 0;
    while i < body_text.len()
        invariant
            0 <= i <= body_text@.len(),
            forall|j: int| 0 <= j < i ==> spec_is_ws_or_brace(#[trigger] body_text@[j]),
        decreases body_text@.len() - i,
    {
        let b = body_text[i];
        if !(crate::text::is_ws_byte(b) || b == 123 || b == 125) {
            return false;
        }
        i += 1;
    }
    true
}

/// The opening delimiter of a block doc comment: `/**`.
pub open spec fn spec_jsdoc_open() -> Seq<u8> {
    seq![47u8, 42u8, 42u8]
}

/// The closing delimiter of a block doc comment: `*/`.
pub open spec fn spec_jsdoc_close() -> Seq<u8> {
    seq![42u8, 47u8]
}

/// A single leading star, stripped from block-comment lines.
pub open spec fn spec_star() -> Seq<u8> {
    seq![42u8]
}

/// A line feed, the separator for joined doc-comment lines.
pub open spec fn spec_nl() -> Seq<u8> {
    seq![10u8]
}

fn jsdoc_open() -> (r: Vec<u8>)
    ensures
        r@ == spec_jsdoc_open(),
{
    let mut v: Vec<u8> = Vec::new();
    v.push(47);
    v.push(42);
    v.push(42);
    proof {
        assert(v@ =~= spec_jsdoc_open());
    }
    v
}

fn jsdoc_close() -> (r: Vec<u8>)
    ensures
        r@ == spec_jsdoc_close(),
{
    let mut v: Vec<u8> = Vec::new();
    v.push(42);
    v.push(47);
    proof {
        assert(v@ =~= spec_jsdoc_close());
    }
    v
}

fn star_bytes() -> (r: Vec<u8>)
    ensures
        r@ == spec_star(),
{
    let mut v: Vec<u8> = Vec::new();
    v.push(42);
    proof {
        assert(v@ =~= spec_star());
    }
    v
}

fn nl_bytes() -> (r: Vec<u8>)
    ensures
        r@ == spec_nl(),
{
    let mut v: Vec<u8> = Vec::new();
    v.push(10);
    proof {
        assert(v@ =~= spec_nl());
    }
    v
}

/// One block-comment line, cleaned: trimmed, leading stars stripped,
/// trimmed again.
pub open spec fn spec_clean_jsdoc_line(l: Seq<u8>) -> Seq<u8> {
    spec_trim(spec_strip_prefix_all(spec_trim(l), spec_star()))
}

/// The cleaned lines from index `i` on, empty ones dropped.
pub open spec fn spec_clean_lines_from(lines: Seq<Seq<u8>>, i: int) -> Seq<Seq<u8>>
    decreases lines.len() - i,
{
    if i < 0 || i >= lines.len() {
        Seq::empty()
    } else {
        let c = spec_clean_jsdoc_line(lines[i]);
        let rest = spec_clean_lines_from(lines, i + 1);
        if c.len() == 0 {
            rest
        } else {
            seq![c] + rest
        }
    }
}

/// A block doc comment, reflowed: delimiters stripped, each line
/// cleaned, empty lines dropped, the rest joined with line feeds.
pub open spec fn spec_clean_jsdoc(text: Seq<u8>) -> Seq<u8> {
    let inner = spec_strip_suffix_all(
        spec_strip_prefix_all(text, spec_jsdoc_open()),
        spec_jsdoc_close(),
    );
    spec_join(spec_clean_lines_from(spec_split_lines(inner), 0), spec_nl())
}

/// Reflows a block doc comment into plain lines.
pub fn clean_jsdoc(text: &[u8]) -> (r: Vec<u8>)
    ensures
        r@ == spec_clean_jsdoc(text@),
{
    let open = jsdoc_open();
    let close = jsdoc_close();
    let star = star_bytes();
    let nl = nl_bytes();
    let inner = strip_suffix_all(strip_prefix_all(text, open.as_slice()), close.as_slice());
    let lines = split_lines(inner);
    let ghost d = lines.deep_view();
    let mut kept: Vec<Vec<u8>> = Vec::new();
    let mut i: usize = 0;
    while i < lines.len()
        invariant
            0 <= i <= lines@.len(),
            d == lines.deep_view(),
            d.len() == lines@.len(),
            star@ == spec_star(),
            kept.deep_view() + spec_clean_lines_from(d, i as int) =~= spec_clean_lines_from(d, 0),
        decreases lines@.len() - i,
    {
        let ghost pre = kept.deep_view();
        let cleaned = trim_slice(strip_prefix_all(trim_slice(lines[i].as_slice()), star.as_slice()));
        proof {
            assert(d[i as int] =~= lines@[i as int]@);
            assert(cleaned@ == spec_clean_jsdoc_line(d[i as int]));
        }
        if cleaned.len() > 0 {
            kept.push(vstd::slice::slice_to_vec(cleaned));
            proof {
                assert(kept.deep_view() =~~= pre + seq![cleaned@]);
                assert(kept.deep_view() + spec_clean_lines_from(d, i as int + 1) =~= spec_clean_lines_from(d, 0));
            }
        } else {
            proof {
                assert(spec_clean_lines_from(d, i as int) == spec_clean_lines_from(d, i as int + 1));
            }
        }
        i += 1;
    }
    proof {
        assert(kept.deep_view() + Seq::<Seq<u8>>::empty() =~= kept.deep_view());
    }
    join_with(&kept, nl.as_slice())
}

pub open spec fn spec_is_comment_kind(n: SyntaxNode) -> bool {
    n.kind@ == "line_comment"@ || n.kind@ == "comment"@
}

/// The trimmed text of a comment node.
pub open spec fn spec_comment_text(n: SyntaxNode, source: Seq<u8>) -> Seq<u8> {
    spec_trim(spec_text_for(source, n))
}

/// `n` is a doc comment for the given prefix: a comment node with a
/// valid span whose trimmed text starts with the prefix.
pub open spec fn spec_is_doc(n: SyntaxNode, source: Seq<u8>, prefix: Seq<u8>) -> bool {
    spec_is_comment_kind(n) && spec_span_ok(n, source.len()) && spec_starts_with(
        spec_comment_text(n, source),
        prefix,
    )
}

/// The cleaned text of one doc comment: block comments are reflowed,
/// line comments have the prefix stripped and are trimmed.
pub open spec fn spec_cleaned_comment(n: SyntaxNode, source: Seq<u8>, prefix: Seq<u8>) -> Seq<u8> {
    let t = spec_comment_text(n, source);
    if spec_starts_with(t, spec_jsdoc_open()) {
        spec_clean_jsdoc(t)
    } else {
        spec_trim(spec_strip_prefix_all(t, prefix))
    }
}

/// The cleaned texts, in source order, of the contiguous run of doc
/// comments that ends at index `j`.
pub open spec fn spec_doc_run(siblings: Seq<SyntaxNode>, j: int, source: Seq<u8>, prefix: Seq<u8>) -> Seq<
    Seq<u8>,
>
    decreases j + 1,
{
    if j < 0 || j >= siblings.len() || !spec_is_doc(siblings[j], source, prefix) {
        Seq::empty()
    } else {
        spec_doc_run(siblings, j - 1, source, prefix) + seq![
            spec_cleaned_comment(siblings[j], source, prefix),
        ]
    }
}

/// The doc comment attached to the node at index `idx`: the contiguous
/// run of doc comments directly above it, joined with line feeds, or
/// nothing if there is no such run.
pub open spec fn spec_doc_comment(
    siblings: Seq<SyntaxNode>,
    idx: int,
    source: Seq<u8>,
    prefix: Seq<u8>,
) -> Option<Seq<u8>> {
    let run = spec_doc_run(siblings, idx - 1, source, prefix);
    if run.len() == 0 {
        None
    } else {
        Some(spec_join(run, spec_nl()))
    }
}

fn is_comment_kind(n: &SyntaxNode) -> (r: bool)
    ensures
        r == spec_is_comment_kind(*n),
{
    n.kind == "line_comment".to_owned() || n.kind == "comment".to_owned()
}

fn is_doc_exec(n: &SyntaxNode, source: &[u8], prefix: &[u8]) -> (r: bool)
    ensures
        r == spec_is_doc(*n, source@, prefix@),
{
    if !is_comment_kind(n) {
        return false;
    }
    if !(n.start_byte <= n.end_byte && n.end_byte <= source.len()) {
        return false;
    }
    let t = trim_slice(text_for(source, n));
    starts_with(t, prefix)
}

fn cleaned_comment(n: &SyntaxNode, source: &[u8], prefix: &[u8]) -> (r: Vec<u8>)
    requires
        spec_span_ok(*n, source@.len()),
    ensures
        r@ == spec_cleaned_comment(*n, source@, prefix@),
{
    let t = trim_slice(text_for(source, n));
    let open = jsdoc_open();
    if starts_with(t, open.as_slice()) {
        clean_jsdoc(t)
    } else {
        vstd::slice::slice_to_vec(trim_slice(strip_prefix_all(t, prefix)))
    }
}

/// A contiguous run of doc comments is collected element by element.
proof fn lemma_doc_run(siblings: Seq<SyntaxNode>, source: Seq<u8>, prefix: Seq<u8>, lo: int, hi: int)
    requires
        0 <= lo <= hi,
        lo < hi ==> hi <= siblings.len(),
        forall|k: int| lo <= k < hi ==> spec_is_doc(#[trigger] siblings[k], source, prefix),
        lo > 0 ==> lo - 1 >= siblings.len() || !spec_is_doc(siblings[lo - 1], source, prefix),
    ensures
        spec_doc_run(siblings, hi - 1, source, prefix) == Seq::new(
            (hi - lo) as nat,
            |i: int| spec_cleaned_comment(siblings[lo + i], source, prefix),
        ),
    decreases hi - lo,
{
    let target = Seq::new(
        (hi - lo) as nat,
        |i: int| spec_cleaned_comment(siblings[lo + i], source, prefix),
    );
    if hi == lo {
        assert(spec_doc_run(siblings, hi - 1, source, prefix) =~= target);
    } else {
        assert(spec_is_doc(siblings[hi - 1], source, prefix));
        lemma_doc_run(siblings, source, prefix, lo, hi - 1);
        assert(spec_doc_run(siblings, hi - 1, source, prefix) =~= target);
    }
}

/// Doc-comment collection is order-preserving and prefix-gated: when
/// the siblings at indices `lo` up to (excluding) `idx` are all doc
/// comments and the sibling just below `lo` (if any) is not, the doc
/// comment of the node at `idx` is exactly those comments' cleaned
/// texts, in source order, joined with line feeds — and nothing if the
/// run is empty.
pub proof fn lemma_doc_collection_order_and_gate(
    siblings: Seq<SyntaxNode>,
    idx: int,
    lo: int,
    source: Seq<u8>,
    prefix: Seq<u8>,
)
    requires
        0 <= lo <= idx <= siblings.len(),
        forall|k: int| lo <= k < idx ==> spec_is_doc(#[trigger] siblings[k], source, prefix),
        lo > 0 ==> !spec_is_doc(siblings[lo - 1], source, prefix),
    ensures
        idx > lo ==> spec_doc_comment(siblings, idx, source, prefix) == Some(
            spec_join(
                Seq::new(
                    (idx - lo) as nat,
                    |i: int| spec_cleaned_comment(siblings[lo + i], source, prefix),
                ),
                spec_nl(),
            ),
        ),
        idx == lo ==> spec_doc_comment(siblings, idx, source, prefix) is None,
{
    lemma_doc_run(siblings, source, prefix, lo, idx);
}

/// Extracts the documentation comment for the node at index `idx` among
/// `siblings`: the contiguous run of comments directly above it whose
/// trimmed text starts with `comment_prefix`, cleaned and joined in
/// source order.
pub fn extract_doc_comment(
    siblings: &Vec<SyntaxNode>,
    idx: usize,
    source: &[u8],
    comment_prefix: &[u8],
) -> (r: Option<Vec<u8>>)
    ensures
        match r {
            Some(d) => spec_doc_comment(siblings@, idx as int, source@, comment_prefix@) == Some(
                d@,
            ),
            None => spec_doc_comment(siblings@, idx as int, source@, comment_prefix@) is None,
        },
{
    let mut lo: usize = idx;
    loop
        invariant
            0 <= lo <= idx,
            lo < idx ==> idx <= siblings@.len(),
            forall|k: int|
                lo <= k < idx ==> spec_is_doc(#[trigger] siblings@[k], source@, comment_prefix@),
        ensures
            0 <= lo <= idx,
            lo < idx ==> idx <= siblings@.len(),
            forall|k: int|
                lo <= k < idx ==> spec_is_doc(#[trigger] siblings@[k], source@, comment_prefix@),
            lo > 0 ==> lo - 1 >= siblings@.len() || !spec_is_doc(
                siblings@[lo as int - 1],
                source@,
                comment_prefix@,
            ),
        decreases lo,
    {
        if lo == 0 {
            break;
        }
        if lo - 1 >= siblings.len() {
            break;
        }
        let doc = is_doc_exec(&siblings[lo - 1], source, comment_prefix);
        if !doc {
            break;
        }
        lo -= 1;
    }
    proof {
        lemma_doc_run(siblings@, source@, comment_prefix@, lo as int, idx as int);
    }
    if lo == idx {
        return None;
    }
    let ghost target = Seq::new(
        (idx - lo) as nat,
        |i: int| spec_cleaned_comment(siblings@[lo + i], source@, comment_prefix@),
    );
    let mut parts: Vec<Vec<u8>> = Vec::new();
    let mut k: usize = lo;
    while k < idx
        invariant
            lo <= k <= idx,
            idx <= siblings@.len(),
            target == Seq::new(
                (idx - lo) as nat,
                |i: int| spec_cleaned_comment(siblings@[lo + i], source@, comment_prefix@),
            ),
            forall|j: int|
                lo <= j < idx ==> spec_is_doc(#[trigger] siblings@[j], source@, comment_prefix@),
            parts.deep_view() =~= target.subrange(0, (k - lo) as int),
        decreases idx - k,
    {
        let ghost pre = parts.deep_view();
        parts.push(cleaned_comment(&siblings[k], source, comment_prefix));
        proof {
            assert(parts.deep_view() =~~= pre + seq![
                spec_cleaned_comment(siblings@[k as int], source@, comment_prefix@),
            ]);
            assert(parts.deep_view() =~= target.subrange(0, (k + 1 - lo) as int));
        }
        k += 1;
    }
    proof {
        assert(parts.deep_view() =~= target);
    }
    let nl = nl_bytes();
    Some(join_with(&parts, nl.as_slice()))
}

} // verus!
