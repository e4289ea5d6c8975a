//! The JSX-flavored JavaScript locator: besides function declarations
//! and method definitions, export statements and const/let bindings
//! are searched for arrow functions.  `/**` block doc comments.
use vstd::prelude::*;

use crate::languages::grammar::{javascript_tree_of, parse_javascript};
use crate::languages::language_standard::{FunctionInfo, LanguageStandard, SyntaxNode};
use crate::languages::locator::{LangProfile, ProfileV, enumerate_empty, locate_at_cursor};

verus! {

pub struct JsxBackend;

/// `function_declaration` and `method_definition` candidates, `/**`
/// doc prefix, and arrow functions searched inside export/const
/// bindings.
pub open spec fn jsx_profile_spec() -> ProfileV {
    ProfileV {
        kinds: seq!["function_declaration"@, "method_definition"@],
        doc_prefix: seq![47u8, 42u8, 42u8],
        arrow_bindings: true,
    }
}

fn jsx_profile() -> (p: LangProfile)
    ensures
        p@ == jsx_profile_spec(),
{
    let mut kinds: Vec<String> = Vec::new();
    kinds.push("function_declaration".to_owned());
    kinds.push("method_definition".to_owned());
    let mut doc_prefix: Vec<u8> = Vec::new();
    doc_prefix.push(47);
    doc_prefix.push(42);
    doc_prefix.push(42);
    let p = LangProfile { kinds, doc_prefix, arrow_bindings: true };
    proof {
        assert(p@.kinds =~= jsx_profile_spec().kinds);
        assert(p@.doc_prefix =~= jsx_profile_spec().doc_prefix);
    }
    p
}

impl LanguageStandard for JsxBackend {
    open spec fn spec_tree(&self, source: Seq<u8>) -> Option<SyntaxNode> {
        javascript_tree_of(source)
    }

    open spec fn spec_profile(&self) -> ProfileV {
        jsx_profile_spec()
    }

    fn find_empty_function_at_cursor(&self, source_code: &[u8], cursor_byte: usize) -> (r: Option<
        FunctionInfo,
    >) {
        let profile = jsx_profile();
        match parse_javascript(source_code) {
            Some(root) => locate_at_cursor(&root, source_code, cursor_byte, &profile),
            None => None,
        }
    }

    fn find_empty_functions(&self, source_code: &[u8]) -> (r: Vec<FunctionInfo>) {
        let profile = jsx_profile();
        match parse_javascript(source_code) {
            Some(root) => enumerate_empty(&root, source_code, &profile),
            None => Vec::new(),
        }
    }
}

} // verus!
