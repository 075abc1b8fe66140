//! The syntax trees and compiled patterns of the two parsed dialects.
//!
//! Parsing and pattern matching are done by `tree-sitter`, with the grammars
//! of `tree-sitter-bash` and `tree-sitter-powershell`. What this module states
//! of them is taken on trust; everything else in the library is proved from
//! what stands here.

use crate::capture::{Capture, Captures};
use crate::patterns::{
    Grammar, BASH_PIPELINE_QUERY, BASH_REDIRECT_QUERY, PWSH_PIPELINE_QUERY, PWSH_REDIRECT_QUERY,
};
use streaming_iterator::StreamingIterator;
use tree_sitter::{Language, LanguageError, Parser, Query, QueryCursor, QueryError, Tree};
use vstd::prelude::*;

verus! {

/// `tree_sitter::Language`: a grammar, as the parsing library takes it.
#[verifier::external_type_specification]
#[verifier::external_body]
pub struct ExLanguage(Language);

/// `tree_sitter::LanguageError`: a grammar of a version that the parsing
/// library does not take.
#[verifier::external_type_specification]
#[verifier::external_body]
pub struct ExLanguageError(LanguageError);

/// `tree_sitter::Parser`: a parser, which holds the grammar it was given.
#[verifier::external_type_specification]
#[verifier::external_body]
pub struct ExParser(Parser);

/// `tree_sitter::Tree`: the syntax tree of one text.
#[verifier::external_type_specification]
#[verifier::external_body]
pub struct ExTree(Tree);

/// `tree_sitter::Query`: a compiled structural pattern.
#[verifier::external_type_specification]
#[verifier::external_body]
pub struct ExQuery(Query);

/// `tree_sitter::QueryError`: why a structural pattern did not compile.
#[verifier::external_type_specification]
#[verifier::external_body]
pub struct ExQueryError(QueryError);

/// The dialect that a `Language` is the grammar of, for the two grammars of
/// this library; `None` for any other.
pub uninterp spec fn language_grammar(language: Language) -> Option<Grammar>;

/// The dialect of the grammar that a `Parser` holds. It is stated only of
/// parsers that were made by `Parser::new` and then given a grammar, with no
/// other setting changed.
pub uninterp spec fn parser_grammar(parser: Parser) -> Option<Grammar>;

/// The dialect of the grammar that a `Query` was compiled for.
pub uninterp spec fn query_grammar(query: Query) -> Option<Grammar>;

/// The text of the pattern that a `Query` was compiled from.
pub uninterp spec fn query_text(query: Query) -> Seq<char>;

/// The dialect in which a `Tree` was parsed.
pub uninterp spec fn tree_grammar(tree: Tree) -> Option<Grammar>;

/// The text that a `Tree` was parsed from.
pub uninterp spec fn tree_text(tree: Tree) -> Seq<char>;

/// Whether `Parser::set_language` takes the grammar of a dialect.
pub uninterp spec fn grammar_loads(grammar: Grammar) -> bool;

/// Whether `Query::new` compiles a pattern for the grammar of a dialect.
pub uninterp spec fn pattern_compiles(grammar: Grammar, pattern: Seq<char>) -> bool;

/// What `Query::capture_index_for_name` gives for a capture name, on a query
/// compiled from a pattern: the slot that the name stands for, if the
/// pattern has a capture of that name.
pub uninterp spec fn capture_slot(pattern: Seq<char>, name: Seq<char>) -> Option<u32>;

/// Whether `Parser::parse`, with the grammar of a dialect, gives a syntax
/// tree for a text.
pub uninterp spec fn parses(grammar: Grammar, text: Seq<char>) -> bool;

/// What `QueryCursor::matches` finds: the matches of a pattern in the syntax
/// tree of a text, in the order in which they are found, each with the
/// nodes that it bound.
pub uninterp spec fn pattern_matches(grammar: Grammar, pattern: Seq<char>, text: Seq<char>) -> Seq<
    Captures,
>;

/// Whether a text is one of the four patterns of the catalog.
pub open spec fn in_catalog(pattern: Seq<char>) -> bool {
    ||| pattern == BASH_REDIRECT_QUERY@
    ||| pattern == BASH_PIPELINE_QUERY@
    ||| pattern == PWSH_REDIRECT_QUERY@
    ||| pattern == PWSH_PIPELINE_QUERY@
}

/// `tree_sitter_bash::LANGUAGE`, as a `Language`: the grammar of the
/// POSIX-like shell.
#[verifier::external_body]
pub(crate) fn bash_language() -> (language: Language)
    ensures
        language_grammar(language) == Some(Grammar::Bash),
{
    tree_sitter_bash::LANGUAGE.into()
}

/// `tree_sitter_powershell::language`: the grammar of the typed scripting
/// shell.
#[verifier::external_body]
pub(crate) fn pwsh_language() -> (language: Language)
    ensures
        language_grammar(language) == Some(Grammar::PowerShell),
{
    tree_sitter_powershell::language()
}

/// `Parser::new`: a new parser. Nothing is stated of it until it is given a
/// grammar.
#[verifier::external_body]
pub(crate) fn new_parser() -> (parser: Parser) {
    Parser::new()
}

/// `Parser::set_language`. It takes a grammar of this library exactly when
/// `grammar_loads` holds of its dialect, and the parser holds that grammar
/// from then on.
#[verifier::external_body]
pub(crate) fn set_language(parser: &mut Parser, language: &Language) -> (outcome: Result<
    (),
    LanguageError,
>)
    requires
        language_grammar(*language) is Some,
    ensures
        outcome is Ok <==> grammar_loads(language_grammar(*language).unwrap()),
        outcome is Ok ==> parser_grammar(*final(parser)) == language_grammar(*language),
{
    parser.set_language(language)
}

/// `Query::new`, on a pattern of the catalog. It compiles the pattern exactly
/// when `pattern_compiles` holds of it and of the grammar's dialect; the
/// query then is one for that dialect, made from that text.
#[verifier::external_body]
pub(crate) fn compile_query(language: &Language, pattern: &str) -> (outcome: Result<
    Query,
    QueryError,
>)
    requires
        language_grammar(*language) is Some,
        in_catalog(pattern@),
    ensures
        outcome is Ok <==> pattern_compiles(language_grammar(*language).unwrap(), pattern@),
        outcome matches Ok(query) ==> query_grammar(query) == language_grammar(*language)
            && query_text(query) == pattern@,
{
    Query::new(language, pattern)
}

/// `Query::capture_index_for_name`: the slot of the capture of a given name,
/// if the query's pattern has one.
#[verifier::external_body]
pub(crate) fn capture_index_for_name(query: &Query, name: &str) -> (slot: Option<u32>)
    ensures
        slot == capture_slot(query_text(*query), name@),
{
    query.capture_index_for_name(name)
}

/// `Parser::parse`, on a whole text and with no earlier tree. A parser that
/// holds the grammar of a dialect gives a tree exactly when `parses` holds of
/// the dialect and the text; the tree then is that of the text in that
/// dialect. The parser holds the same grammar afterwards, and the call does
/// not unwind.
#[verifier::external_body]
pub(crate) fn parse(parser: &mut Parser, text: &str) -> (tree: Option<Tree>)
    requires
        parser_grammar(*old(parser)) is Some,
    ensures
        parser_grammar(*final(parser)) == parser_grammar(*old(parser)),
        tree is Some <==> parses(parser_grammar(*old(parser)).unwrap(), text@),
        tree matches Some(tree) ==> tree_grammar(tree) == parser_grammar(*old(parser))
            && tree_text(tree) == text@,
    no_unwind
{
    parser.parse(text, None)
}

/// `QueryCursor::matches`, with a new cursor, from the root of a tree and
/// over the text that the tree was parsed from: every match of the query, in
/// the order in which the cursor hands them out. Each node that a match
/// bound is handed out as a [`Capture`] of its slot, kind, text, byte range,
/// number of named children and first named child's kind.
#[verifier::external_body]
pub(crate) fn query(compiled: &Query, tree: &Tree, source: &str) -> (found: Vec<Vec<Capture>>)
    requires
        query_grammar(*compiled) is Some,
        query_grammar(*compiled) == tree_grammar(*tree),
        tree_text(*tree) == source@,
    ensures
        found.deep_view() == pattern_matches(
            query_grammar(*compiled).unwrap(),
            query_text(*compiled),
            source@,
        ),
{
    let mut cursor = QueryCursor::new();
    let mut matches = cursor.matches(compiled, tree.root_node(), source.as_bytes());
    let mut found = Vec::new();
    while let Some(hit) = matches.next() {
        found.push(hit.captures.iter().map(|c| Capture {
            index: c.index,
            kind: c.node.kind().to_string(),
            text: c.node.utf8_text(source.as_bytes()).ok().map(str::to_string),
            span: c.node.byte_range(),
            named_child_count: c.node.named_child_count(),
            first_named_child: c.node.named_child(0).map(|n| n.kind().to_string()),
        }).collect());
    }
    found
}

} // verus!
