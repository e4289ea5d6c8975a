//! The language-neutral data model: syntax-tree nodes, the information
//! extracted for one located function, and the locator interface that
//! every grammar-specific backend implements.
use vstd::prelude::*;

use crate::languages::locator;

verus! {

/// A syntax-tree node: kind label, byte span into the source buffer it
/// was parsed from, the grammar field this node fills in its parent (if
/// any), and its children in source order.
///
/// Byte offsets are meaningful only against the exact buffer the tree
/// was parsed from.
pub struct SyntaxNode {
    pub kind: String,
    pub start_byte: usize,
    pub end_byte: usize,
    pub field: Option<String>,
    pub children: Vec<SyntaxNode>,
}

/// Information about one empty function found in a source buffer.
///
/// `start_byte`/`end_byte` name the interior of the function body: one
/// byte past the opening delimiter up to one byte before the closing
/// delimiter.  The signature and doc comment are owned copies of the
/// relevant source bytes.
pub struct FunctionInfo {
    pub signature: Vec<u8>,
    pub doc_comment: Option<Vec<u8>>,
    pub start_byte: usize,
    pub end_byte: usize,
}

/// Mathematical model of a `FunctionInfo`.
pub struct FunctionInfoV {
    pub signature: Seq<u8>,
    pub doc_comment: Option<Seq<u8>>,
    pub start_byte: nat,
    pub end_byte: nat,
}

impl View for FunctionInfo {
    type V = FunctionInfoV;

    open spec fn view(&self) -> FunctionInfoV {
        FunctionInfoV {
            signature: self.signature@,
            doc_comment: match self.doc_comment {
                Some(d) => Some(d@),
                None => None,
            },
            start_byte: self.start_byte as nat,
            end_byte: self.end_byte as nat,
        }
    }
}

/// `r` holds exactly the value that the model `m` describes.
pub open spec fn info_opt_matches(r: Option<FunctionInfo>, m: Option<FunctionInfoV>) -> bool {
    match r {
        Some(info) => m == Some(info@),
        None => m is None,
    }
}

/// `r` holds exactly the values that the models `m` describe, in order.
pub open spec fn info_seq_matches(r: Seq<FunctionInfo>, m: Seq<FunctionInfoV>) -> bool {
    r.len() == m.len() && forall|i: int| 0 <= i < r.len() ==> m[i] == #[trigger] r[i]@
}

/// A grammar-specific locator for empty functions.
///
/// Each implementation fixes a parse model (which tree a buffer parses
/// to under its grammar) and a profile (which node kinds are function
/// candidates, which comment prefix marks a doc comment, and whether
/// arrow functions are searched inside export/const bindings).  Both
/// methods then run one shared algorithm over that tree and profile.
pub trait LanguageStandard {
    /// The tree that this grammar parses `source` to.
    spec fn spec_tree(&self, source: Seq<u8>) -> Option<SyntaxNode>;

    /// The candidate kinds, doc-comment prefix and traversal options of
    /// this grammar.
    spec fn spec_profile(&self) -> locator::ProfileV;

    /// Finds an empty function at the cursor position and returns its
    /// information.
    fn find_empty_function_at_cursor(&self, source_code: &[u8], cursor_byte: usize) -> (r: Option<
        FunctionInfo,
    >)
        ensures
            info_opt_matches(
                r,
                locator::spec_locate_opt(
                    self.spec_tree(source_code@),
                    source_code@,
                    cursor_byte as nat,
                    self.spec_profile(),
                ),
            ),
    ;

    /// Finds all empty top-level functions in the source code, in
    /// source order.
    fn find_empty_functions(&self, source_code: &[u8]) -> (r: Vec<FunctionInfo>)
        ensures
            info_seq_matches(
                r@,
                locator::spec_enumerate_opt(
                    self.spec_tree(source_code@),
                    source_code@,
                    self.spec_profile(),
                ),
            ),
    ;
}

} // verus!
