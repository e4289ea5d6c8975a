//! The grammar-neutral locator engine.
//!
//! Every language backend runs the same algorithm over its parse tree:
//! scan the top-level children of the root in source order, resolve
//! each to a candidate function node (directly by kind, or by searching
//! export/const bindings for an arrow function), keep only candidates
//! whose body text is nothing but whitespace and braces, and return the
//! extracted information of the first candidate that qualifies (or, for
//! batch enumeration, of every one).  What differs per language is held
//! in a `LangProfile`.
use vstd::prelude::*;

use crate::languages::helpers::{
    body_child, extract_doc_comment, extract_signature, find_body_recursive, is_empty_body,
    spec_body_child, spec_doc_comment, spec_find_body, spec_sig_end, spec_sig_ok, spec_signature,
    spec_span_ok, spec_text_for, text_for,
};
use crate::languages::language_standard::{
    FunctionInfo, FunctionInfoV, SyntaxNode, info_opt_matches, info_seq_matches,
};
use crate::text::{spec_all_ws_or_brace, spec_is_ws_or_brace};

verus! {

/// What distinguishes one grammar's locator from another's: the node
/// kinds that count as function declarations, the doc-comment prefix,
/// and whether export/const bindings are searched for arrow functions.
pub struct LangProfile {
    pub kinds: Vec<String>,
    pub doc_prefix: Vec<u8>,
    pub arrow_bindings: bool,
}

/// Mathematical model of a `LangProfile`.
pub struct ProfileV {
    pub kinds: Seq<Seq<char>>,
    pub doc_prefix: Seq<u8>,
    pub arrow_bindings: bool,
}

impl View for LangProfile {
    type V = ProfileV;

    open spec fn view(&self) -> ProfileV {
        ProfileV {
            kinds: self.kinds.deep_view(),
            doc_prefix: self.doc_prefix@,
            arrow_bindings: self.arrow_bindings,
        }
    }
}

pub open spec fn spec_kind_in(kind: Seq<char>, kinds: Seq<Seq<char>>) -> bool {
    exists|i: int| 0 <= i < kinds.len() && kinds[i] == kind
}

/// Export statements and const/let bindings may wrap an arrow function.
pub open spec fn spec_is_binding_kind(k: Seq<char>) -> bool {
    k == "export_statement"@ || k == "lexical_declaration"@
}

/// First arrow-function node in the subtree of `n`, depth first.
pub open spec fn spec_find_arrow(n: SyntaxNode) -> Option<SyntaxNode>
    decreases n, 0int,
{
    if n.kind@ == "arrow_function"@ {
        Some(n)
    } else {
        spec_find_arrow_from(n.children@, 0)
    }
}

pub open spec fn spec_find_arrow_from(s: Seq<SyntaxNode>, i: int) -> Option<SyntaxNode>
    decreases s, s.len() - i,
{
    if i < 0 || i >= s.len() {
        None
    } else {
        match spec_find_arrow(s[i]) {
            Some(a) => Some(a),
            None => spec_find_arrow_from(s, i + 1),
        }
    }
}

/// The function node that a top-level candidate resolves to.
pub open spec fn spec_target(n: SyntaxNode, p: ProfileV) -> Option<SyntaxNode> {
    if spec_kind_in(n.kind@, p.kinds) {
        Some(n)
    } else if p.arrow_bindings && spec_is_binding_kind(n.kind@) {
        spec_find_arrow(n)
    } else {
        None
    }
}

/// The body node's span is inside the buffer and its text is nothing
/// but whitespace and braces.
pub open spec fn spec_body_empty_ok(b: SyntaxNode, source: Seq<u8>) -> bool {
    spec_span_ok(b, source.len()) && spec_all_ws_or_brace(spec_text_for(source, b))
}

/// The body node of the qualifying candidate `n`, under the cursor
/// rule: the cursor must fall within the candidate's span (both ends
/// inclusive), the body must be empty, wide enough to have an interior,
/// and the signature range must be sliceable.
pub open spec fn spec_located(n: SyntaxNode, source: Seq<u8>, cursor: nat, p: ProfileV) -> Option<
    SyntaxNode,
> {
    if n.start_byte <= cursor && cursor <= n.end_byte {
        match spec_target(n, p) {
            Some(t) => match spec_body_child(t.children@) {
                Some(b) => if spec_body_empty_ok(b, source) && b.start_byte + 2 <= b.end_byte
                    && spec_sig_ok(n, source.len()) {
                    Some(b)
                } else {
                    None
                },
                None => None,
            },
            None => None,
        }
    } else {
        None
    }
}

/// The information reported for a located candidate: signature and doc
/// comment of the top-level node, interior byte range of the body.
pub open spec fn spec_info_at(
    n: SyntaxNode,
    b: SyntaxNode,
    siblings: Seq<SyntaxNode>,
    idx: int,
    source: Seq<u8>,
    p: ProfileV,
) -> FunctionInfoV {
    FunctionInfoV {
        signature: spec_signature(n, source),
        doc_comment: spec_doc_comment(siblings, idx, source, p.doc_prefix),
        start_byte: (b.start_byte + 1) as nat,
        end_byte: (b.end_byte - 1) as nat,
    }
}

/// The first qualifying candidate at or after index `i`, located.
pub open spec fn spec_locate_from(
    children: Seq<SyntaxNode>,
    i: int,
    source: Seq<u8>,
    cursor: nat,
    p: ProfileV,
) -> Option<FunctionInfoV>
    decreases children.len() - i,
{
    if i < 0 || i >= children.len() {
        None
    } else {
        match spec_located(children[i], source, cursor, p) {
            Some(b) => Some(spec_info_at(children[i], b, children, i, source, p)),
            None => spec_locate_from(children, i + 1, source, cursor, p),
        }
    }
}

pub open spec fn spec_locate(root: SyntaxNode, source: Seq<u8>, cursor: nat, p: ProfileV) -> Option<
    FunctionInfoV,
> {
    spec_locate_from(root.children@, 0, source, cursor, p)
}

/// The locate result over an optional tree: a buffer that did not parse
/// locates nothing.
pub open spec fn spec_locate_opt(
    tree: Option<SyntaxNode>,
    source: Seq<u8>,
    cursor: nat,
    p: ProfileV,
) -> Option<FunctionInfoV> {
    match tree {
        Some(root) => spec_locate(root, source, cursor, p),
        None => None,
    }
}

/// The body node of a batch-qualifying candidate: as at the cursor, but
/// with no cursor rule and no interior requirement.
pub open spec fn spec_batch_body(n: SyntaxNode, source: Seq<u8>, p: ProfileV) -> Option<
    SyntaxNode,
> {
    match spec_target(n, p) {
        Some(t) => match spec_body_child(t.children@) {
            Some(b) => if spec_body_empty_ok(b, source) && spec_sig_ok(n, source.len()) {
                Some(b)
            } else {
                None
            },
            None => None,
        },
        None => None,
    }
}

/// The information reported for a batch candidate: the span is the
/// whole candidate node, not the body interior.
pub open spec fn spec_batch_info(
    n: SyntaxNode,
    siblings: Seq<SyntaxNode>,
    idx: int,
    source: Seq<u8>,
    p: ProfileV,
) -> FunctionInfoV {
    FunctionInfoV {
        signature: spec_signature(n, source),
        doc_comment: spec_doc_comment(siblings, idx, source, p.doc_prefix),
        start_byte: n.start_byte as nat,
        end_byte: n.end_byte as nat,
    }
}

/// Every batch-qualifying candidate at or after index `i`, in order.
pub open spec fn spec_enumerate_from(
    children: Seq<SyntaxNode>,
    i: int,
    source: Seq<u8>,
    p: ProfileV,
) -> Seq<FunctionInfoV>
    decreases children.len() - i,
{
    if i < 0 || i >= children.len() {
        Seq::empty()
    } else {
        let rest = spec_enumerate_from(children, i + 1, source, p);
        if spec_batch_body(children[i], source, p) is Some {
            seq![spec_batch_info(children[i], children, i, source, p)] + rest
        } else {
            rest
        }
    }
}

pub open spec fn spec_enumerate(root: SyntaxNode, source: Seq<u8>, p: ProfileV) -> Seq<
    FunctionInfoV,
> {
    spec_enumerate_from(root.children@, 0, source, p)
}

pub open spec fn spec_enumerate_opt(tree: Option<SyntaxNode>, source: Seq<u8>, p: ProfileV) -> Seq<
    FunctionInfoV,
> {
    match tree {
        Some(root) => spec_enumerate(root, source, p),
        None => Seq::empty(),
    }
}

proof fn lemma_locate_first(
    children: Seq<SyntaxNode>,
    s: int,
    i: int,
    b: SyntaxNode,
    source: Seq<u8>,
    cursor: nat,
    p: ProfileV,
)
    requires
        0 <= s <= i < children.len(),
        forall|j: int|
            s <= j < i ==> spec_located(#[trigger] children[j], source, cursor, p) is None,
        spec_located(children[i], source, cursor, p) == Some(b),
    ensures
        spec_locate_from(children, s, source, cursor, p) == Some(
            spec_info_at(children[i], b, children, i, source, p),
        ),
    decreases i - s,
{
    if s < i {
        lemma_locate_first(children, s + 1, i, b, source, cursor, p);
    }
}

/// A buffer whose only qualifying declaration is an empty function
/// enclosing the cursor locates exactly that function: earlier
/// top-level nodes locate nothing, the candidate's kind is accepted,
/// the cursor lies in its span (both ends inclusive), and its body is
/// nothing but whitespace and braces — then the result is that
/// candidate's information, and every byte of the reported interior
/// range is whitespace or a brace.
pub proof fn lemma_lone_empty_function_is_located(
    root: SyntaxNode,
    i: int,
    b: SyntaxNode,
    source: Seq<u8>,
    cursor: nat,
    p: ProfileV,
)
    requires
        0 <= i < root.children@.len(),
        forall|j: int|
            0 <= j < i ==> spec_located(#[trigger] root.children@[j], source, cursor, p) is None,
        spec_kind_in(root.children@[i].kind@, p.kinds),
        root.children@[i].start_byte <= cursor <= root.children@[i].end_byte,
        spec_body_child(root.children@[i].children@) == Some(b),
        spec_span_ok(b, source.len()),
        spec_all_ws_or_brace(spec_text_for(source, b)),
        b.start_byte + 2 <= b.end_byte,
        spec_sig_ok(root.children@[i], source.len()),
    ensures
        spec_locate(root, source, cursor, p) == Some(
            spec_info_at(root.children@[i], b, root.children@, i, source, p),
        ),
        spec_locate(root, source, cursor, p)->Some_0.start_byte == b.start_byte + 1,
        spec_locate(root, source, cursor, p)->Some_0.end_byte == b.end_byte - 1,
        forall|k: int|
            b.start_byte + 1 <= k < b.end_byte - 1 ==> spec_is_ws_or_brace(#[trigger] source[k]),
{
    let n = root.children@[i];
    assert(spec_located(n, source, cursor, p) == Some(b));
    lemma_locate_first(root.children@, 0, i, b, source, cursor, p);
    assert forall|k: int|
        b.start_byte + 1 <= k < b.end_byte - 1 implies spec_is_ws_or_brace(
        #[trigger] source[k],
    ) by {
        let text = spec_text_for(source, b);
        assert(text[k - b.start_byte] == source[k]);
        assert(spec_is_ws_or_brace(text[k - b.start_byte]));
    }
}

/// A body holding nothing but whitespace between its delimiters has an
/// interior that trims to the empty string.
pub proof fn lemma_blank_interior_trims_empty(b: SyntaxNode, source: Seq<u8>)
    requires
        spec_span_ok(b, source.len()),
        b.start_byte + 2 <= b.end_byte,
        forall|k: int|
            b.start_byte + 1 <= k < b.end_byte - 1 ==> crate::text::spec_is_ws(
                #[trigger] source[k],
            ),
    ensures
        crate::text::spec_trim(
            source.subrange(b.start_byte + 1, b.end_byte - 1),
        ) == Seq::<u8>::empty(),
{
    let s = source.subrange(b.start_byte + 1, b.end_byte - 1);
    assert forall|k: int| 0 <= k < s.len() implies crate::text::spec_is_ws(#[trigger] s[k]) by {
        assert(s[k] == source[b.start_byte + 1 + k]);
    }
    crate::text::lemma_trim_range(s, 0, 0);
    assert(s.subrange(0, 0) =~= Seq::<u8>::empty());
}

/// A function whose body contains any byte that is neither whitespace
/// nor a brace is never located, wherever the cursor is: if the
/// candidate `n` resolves to target `t` whose body `b` holds such a
/// byte at position `k`, the candidate locates nothing.
pub proof fn lemma_nonblank_body_never_located(
    n: SyntaxNode,
    t: SyntaxNode,
    b: SyntaxNode,
    source: Seq<u8>,
    cursor: nat,
    p: ProfileV,
    k: int,
)
    requires
        spec_target(n, p) == Some(t),
        spec_body_child(t.children@) == Some(b),
        b.start_byte <= k < b.end_byte,
        b.end_byte <= source.len(),
        !spec_is_ws_or_brace(source[k]),
    ensures
        spec_located(n, source, cursor, p) is None,
{
    let text = spec_text_for(source, b);
    assert(text[k - b.start_byte] == source[k]);
}

/// Whatever a buffer locates is a well-formed interior range whose
/// bytes, at the time of location, are nothing but whitespace and
/// braces: a function whose body holds any other content is never the
/// result.
pub proof fn lemma_located_interior_is_blank(
    root: SyntaxNode,
    source: Seq<u8>,
    cursor: nat,
    p: ProfileV,
)
    ensures
        match spec_locate(root, source, cursor, p) {
            Some(info) => info.start_byte <= info.end_byte <= source.len() && forall|k: int|
                info.start_byte <= k < info.end_byte ==> spec_is_ws_or_brace(#[trigger] source[k]),
            None => true,
        },
{
    lemma_locate_from_interior_blank(root.children@, 0, source, cursor, p);
}

proof fn lemma_locate_from_interior_blank(
    children: Seq<SyntaxNode>,
    s: int,
    source: Seq<u8>,
    cursor: nat,
    p: ProfileV,
)
    ensures
        match spec_locate_from(children, s, source, cursor, p) {
            Some(info) => info.start_byte <= info.end_byte <= source.len() && forall|k: int|
                info.start_byte <= k < info.end_byte ==> spec_is_ws_or_brace(#[trigger] source[k]),
            None => true,
        },
    decreases children.len() - s,
{
    if 0 <= s < children.len() {
        match spec_located(children[s], source, cursor, p) {
            Some(b) => {
                let info = spec_info_at(children[s], b, children, s, source, p);
                let text = spec_text_for(source, b);
                assert forall|k: int|
                    info.start_byte <= k < info.end_byte implies spec_is_ws_or_brace(
                    #[trigger] source[k],
                ) by {
                    assert(text[k - b.start_byte] == source[k]);
                    assert(spec_is_ws_or_brace(text[k - b.start_byte]));
                }
            },
            None => {
                lemma_locate_from_interior_blank(children, s + 1, source, cursor, p);
            },
        }
    }
}

/// A buffer in which no top-level candidate qualifies locates nothing.
pub proof fn lemma_no_candidate_no_result(root: SyntaxNode, source: Seq<u8>, cursor: nat, p: ProfileV)
    requires
        forall|j: int|
            0 <= j < root.children@.len() ==> spec_located(
                #[trigger] root.children@[j],
                source,
                cursor,
                p,
            ) is None,
    ensures
        spec_locate(root, source, cursor, p) is None,
{
    lemma_locate_from_none(root.children@, 0, source, cursor, p);
}

proof fn lemma_locate_from_none(
    children: Seq<SyntaxNode>,
    s: int,
    source: Seq<u8>,
    cursor: nat,
    p: ProfileV,
)
    requires
        0 <= s,
        forall|j: int|
            0 <= j < children.len() ==> spec_located(#[trigger] children[j], source, cursor, p)
                is None,
    ensures
        spec_locate_from(children, s, source, cursor, p) is None,
    decreases children.len() - s,
{
    if s < children.len() {
        lemma_locate_from_none(children, s + 1, source, cursor, p);
    }
}

fn kind_in(kind: &String, kinds: &Vec<String>) -> (r: bool)
    ensures
        r == spec_kind_in(kind@, kinds.deep_view()),
{
    let ghost d = kinds.deep_view();
    let mut i: usize = 0;
    while i < kinds.len()
        invariant
            0 <= i <= kinds@.len(),
            d == kinds.deep_view(),
            d.len() == kinds@.len(),
            forall|j: int| 0 <= j < i ==> d[j] != kind@,
        decreases kinds@.len() - i,
    {
        proof {
            assert(d[i as int] == kinds@[i as int]@);
        }
        if *kind == kinds[i] {
            return true;
        }
        i += 1;
    }
    false
}

fn is_binding_kind(kind: &String) -> (r: bool)
    ensures
        r == spec_is_binding_kind(kind@),
{
    *kind == "export_statement".to_owned() || *kind == "lexical_declaration".to_owned()
}

/// Recursive helper to find an arrow-function node anywhere inside a
/// node.
pub fn find_arrow_recursive(n: &SyntaxNode) -> (r: Option<&SyntaxNode>)
    ensures
        match r {
            Some(a) => spec_find_arrow(*n) == Some(*a),
            None => spec_find_arrow(*n) is None,
        },
    decreases *n,
{
    if n.kind == "arrow_function".to_owned() {
        return Some(n);
    }
    let mut i: usize = 0;
    while i < n.children.len()
        invariant
            0 <= i <= n.children@.len(),
            n.kind@ != "arrow_function"@,
            spec_find_arrow_from(n.children@, i as int) == spec_find_arrow_from(n.children@, 0),
        decreases n.children@.len() - i,
    {
        match find_arrow_recursive(&n.children[i]) {
            Some(a) => {
                return Some(a);
            },
            None => {},
        }
        i += 1;
    }
    None
}

fn resolve_target<'a>(n: &'a SyntaxNode, profile: &LangProfile) -> (r: Option<&'a SyntaxNode>)
    ensures
        match r {
            Some(t) => spec_target(*n, profile@) == Some(*t),
            None => spec_target(*n, profile@) is None,
        },
{
    if kind_in(&n.kind, &profile.kinds) {
        Some(n)
    } else if profile.arrow_bindings && is_binding_kind(&n.kind) {
        find_arrow_recursive(n)
    } else {
        None
    }
}

/// The body node of candidate `n` if it qualifies under the cursor
/// rule, checked against the actual buffer.
fn locate_candidate<'a>(
    n: &'a SyntaxNode,
    source: &[u8],
    cursor: usize,
    profile: &LangProfile,
) -> (r: Option<&'a SyntaxNode>)
    ensures
        match r {
            Some(b) => spec_located(*n, source@, cursor as nat, profile@) == Some(*b),
            None => spec_located(*n, source@, cursor as nat, profile@) is None,
        },
{
    if cursor < n.start_byte || cursor > n.end_byte {
        return None;
    }
    let target = match resolve_target(n, profile) {
        Some(t) => t,
        None => {
            return None;
        },
    };
    let b = match body_child(&target.children) {
        Some(b) => b,
        None => {
            return None;
        },
    };
    if !(b.start_byte <= b.end_byte && b.end_byte <= source.len()) {
        return None;
    }
    if !is_empty_body(text_for(source, b)) {
        return None;
    }
    if b.end_byte - b.start_byte < 2 {
        return None;
    }
    let sig_end: usize = match find_body_recursive(n) {
        Some(fb) => fb.start_byte,
        None => n.end_byte,
    };
    if !(n.start_byte <= sig_end && sig_end <= source.len()) {
        return None;
    }
    Some(b)
}

/// Finds the first empty function enclosing the cursor among the
/// top-level children of `root` and extracts its information.
pub fn locate_at_cursor(
    root: &SyntaxNode,
    source: &[u8],
    cursor: usize,
    profile: &LangProfile,
) -> (r: Option<FunctionInfo>)
    ensures
        info_opt_matches(r, spec_locate(*root, source@, cursor as nat, profile@)),
{
    let mut i: usize = 0;
    while i < root.children.len()
        invariant
            0 <= i <= root.children@.len(),
            spec_locate_from(root.children@, i as int, source@, cursor as nat, profile@)
                == spec_locate_from(root.children@, 0, source@, cursor as nat, profile@),
        decreases root.children@.len() - i,
    {
        let n = &root.children[i];
        match locate_candidate(n, source, cursor, profile) {
            Some(b) => {
                let signature = extract_signature(n, source);
                let doc_comment = extract_doc_comment(
                    &root.children,
                    i,
                    source,
                    profile.doc_prefix.as_slice(),
                );
                let info = FunctionInfo {
                    signature,
                    doc_comment,
                    start_byte: b.start_byte + 1,
                    end_byte: b.end_byte - 1,
                };
                proof {
                    assert(info@ == spec_info_at(
                        root.children@[i as int],
                        *b,
                        root.children@,
                        i as int,
                        source@,
                        profile@,
                    ));
                }
                return Some(info);
            },
            None => {},
        }
        i += 1;
    }
    None
}

/// Finds every empty top-level function in the buffer, in source order.
pub fn enumerate_empty(root: &SyntaxNode, source: &[u8], profile: &LangProfile) -> (r: Vec<
    FunctionInfo,
>)
    ensures
        info_seq_matches(r@, spec_enumerate(*root, source@, profile@)),
{
    let mut infos: Vec<FunctionInfo> = Vec::new();
    let mut i: usize = 0;
    while i < root.children.len()
        invariant
            0 <= i <= root.children@.len(),
            infos@.map_values(|f: FunctionInfo| f@) + spec_enumerate_from(
                root.children@,
                i as int,
                source@,
                profile@,
            ) =~= spec_enumerate(*root, source@, profile@),
        decreases root.children@.len() - i,
    {
        let n = &root.children[i];
        let ghost pre = infos@.map_values(|f: FunctionInfo| f@);
        match batch_candidate(n, source, profile) {
            Some(_b) => {
                let signature = extract_signature(n, source);
                let doc_comment = extract_doc_comment(
                    &root.children,
                    i,
                    source,
                    profile.doc_prefix.as_slice(),
                );
                let info = FunctionInfo {
                    signature,
                    doc_comment,
                    start_byte: n.start_byte,
                    end_byte: n.end_byte,
                };
                proof {
                    assert(info@ == spec_batch_info(
                        root.children@[i as int],
                        root.children@,
                        i as int,
                        source@,
                        profile@,
                    ));
                }
                infos.push(info);
                proof {
                    assert(infos@.map_values(|f: FunctionInfo| f@) =~= pre + seq![info@]);
                }
            },
            None => {},
        }
        i += 1;
    }
    proof {
        assert(infos@.map_values(|f: FunctionInfo| f@) =~= spec_enumerate(
            *root,
            source@,
            profile@,
        ));
    }
    infos
}

/// The body node of candidate `n` if it qualifies for batch
/// enumeration.
fn batch_candidate<'a>(n: &'a SyntaxNode, source: &[u8], profile: &LangProfile) -> (r: Option<
    &'a SyntaxNode,
>)
    ensures
        match r {
            Some(b) => spec_batch_body(*n, source@, profile@) == Some(*b),
            None => spec_batch_body(*n, source@, profile@) is None,
        },
{
    let target = match resolve_target(n, profile) {
        Some(t) => t,
        None => {
            return None;
        },
    };
    let b = match body_child(&target.children) {
        Some(b) => b,
        None => {
            return None;
        },
    };
    if !(b.start_byte <= b.end_byte && b.end_byte <= source.len()) {
        return None;
    }
    if !is_empty_body(text_for(source, b)) {
        return None;
    }
    let sig_end: usize = match find_body_recursive(n) {
        Some(fb) => fb.start_byte,
        None => n.end_byte,
    };
    if !(n.start_byte <= sig_end && sig_end <= source.len()) {
        return None;
    }
    Some(b)
}

} // verus!
