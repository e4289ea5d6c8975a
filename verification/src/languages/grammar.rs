//! The trusted boundary to the tree-sitter parsers.
//!
//! Each supported grammar gets one parse function.  A parse is a pure
//! function of the source bytes: the same buffer always yields the same
//! tree, so the result of each grammar's parse is given a name that the
//! locator contracts are stated over.  Nothing structural is assumed
//! about the returned tree; the locators check every byte span against
//! the buffer before using it.
use vstd::prelude::*;

use crate::languages::language_standard::SyntaxNode;

verus! {

#[verifier::external_type_specification]
#[verifier::external_body]
pub struct ExNode<'a>(tree_sitter::Node<'a>);

/// The tree that the Rust grammar parses `source` to, if parsing and
/// grammar loading succeed.
pub uninterp spec fn rust_tree_of(source: Seq<u8>) -> Option<SyntaxNode>;

/// The tree that the TypeScript grammar parses `source` to.
pub uninterp spec fn typescript_tree_of(source: Seq<u8>) -> Option<SyntaxNode>;

/// The tree that the JavaScript grammar parses `source` to.
pub uninterp spec fn javascript_tree_of(source: Seq<u8>) -> Option<SyntaxNode>;

/// Relies on tree_sitter::TreeCursor traversal (goto_first_child,
/// goto_next_sibling) and on Node::kind, Node::start_byte,
/// Node::end_byte and TreeCursor::field_name: copies one node of the
/// parse tree, and its subtree, into plain values.
#[verifier::external_body]
fn convert_node(node: tree_sitter::Node<'_>) -> SyntaxNode {
    let (mut children, mut cursor) = (Vec::new(), node.walk());
    if cursor.goto_first_child() {
        loop {
            let mut child = convert_node(cursor.node());
            child.field = cursor.field_name().map(|f| f.to_string());
            children.push(child);
            if !cursor.goto_next_sibling() {
                break;
            }
        }
    }
    SyntaxNode { kind: node.kind().to_string(), start_byte: node.start_byte(),
        end_byte: node.end_byte(), field: None, children }
}

/// Relies on tree_sitter::Parser::parse with the grammar of
/// tree_sitter_rust::LANGUAGE: a deterministic, error-tolerant parse of
/// the buffer, with byte-accurate node spans.
#[verifier::external_body]
pub fn parse_rust(source: &[u8]) -> (t: Option<SyntaxNode>)
    ensures
        t == rust_tree_of(source@),
{
    let mut parser = tree_sitter::Parser::new();
    if parser.set_language(&tree_sitter_rust::LANGUAGE.into()).is_err() {
        return None;
    }
    match parser.parse(source, None) {
        Some(tree) => Some(convert_node(tree.root_node())),
        None => None,
    }
}

/// Relies on tree_sitter::Parser::parse with the grammar of
/// tree_sitter_typescript::LANGUAGE_TYPESCRIPT: a deterministic,
/// error-tolerant parse of the buffer, with byte-accurate node spans.
#[verifier::external_body]
pub fn parse_typescript(source: &[u8]) -> (t: Option<SyntaxNode>)
    ensures
        t == typescript_tree_of(source@),
{
    let mut parser = tree_sitter::Parser::new();
    if parser.set_language(&tree_sitter_typescript::LANGUAGE_TYPESCRIPT.into()).is_err() {
        return None;
    }
    match parser.parse(source, None) {
        Some(tree) => Some(convert_node(tree.root_node())),
        None => None,
    }
}

/// Relies on tree_sitter::Parser::parse with the grammar of
/// tree_sitter_javascript::LANGUAGE: a deterministic, error-tolerant
/// parse of the buffer, with byte-accurate node spans.
#[verifier::external_body]
pub fn parse_javascript(source: &[u8]) -> (t: Option<SyntaxNode>)
    ensures
        t == javascript_tree_of(source@),
{
    let mut parser = tree_sitter::Parser::new();
    if parser.set_language(&tree_sitter_javascript::LANGUAGE.into()).is_err() {
        return None;
    }
    match parser.parse(source, None) {
        Some(tree) => Some(convert_node(tree.root_node())),
        None => None,
    }
}

} // verus!
