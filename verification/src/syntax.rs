//! Syntax trees from the `tree-sitter` crate.
//!
//! A buffer keeps a parser and the last tree it produced. The contracts below
//! are taken on trust from tree-sitter's documentation: a new parser has no
//! language, and a parser without a language produces no tree.

use vstd::prelude::*;
use tree_sitter::{Language, Parser, Tree};

verus! {

#[verifier::external_type_specification]
#[verifier::external_body]
pub struct ExLanguage(Language);

#[verifier::external_type_specification]
#[verifier::external_body]
pub struct ExParser(Parser);

#[verifier::external_type_specification]
#[verifier::external_body]
pub struct ExTree(Tree);

/// Whether a language has been assigned to the parser, as
/// `Parser::language` reports it.
pub uninterp spec fn parser_has_language(p: Parser) -> bool;

/// `Parser::new`: a parser with no language assigned.
#[verifier::external_body]
pub fn parser_new() -> (p: Parser)
    ensures
        !parser_has_language(p),
{
    Parser::new()
}

/// `Parser::parse` of the whole text, with no earlier tree. Gives no tree
/// when the parser has no language; parsing leaves the language as it was.
/// What tree it gives otherwise is not stated.
#[verifier::external_body]
pub fn parser_parse(p: &mut Parser, text: String) -> (t: Option<Tree>)
    ensures
        parser_has_language(*final(p)) == parser_has_language(*old(p)),
        !parser_has_language(*old(p)) ==> t is None,
{
    p.parse(text, None)
}

/// `Tree::clone`: a new handle on the same syntax tree (tree-sitter's
/// `ts_tree_copy` shares the root and copies the language and the included
/// ranges), so the copy is the same tree as a value.
#[verifier::external_body]
pub fn tree_clone(t: &Tree) -> (c: Tree)
    ensures
        c == *t,
{
    t.clone()
}

} // verus!
