//! The regular expression of the command interpreter's dialect.
//!
//! Expressions are compiled and run by `regex`. What this module states of it
//! is taken on trust.

use regex::Regex;
use vstd::prelude::*;

verus! {

/// `regex::Regex`: a compiled regular expression.
#[verifier::external_type_specification]
#[verifier::external_body]
pub struct ExRegex(Regex);

/// `regex::Error`: why an expression did not compile.
#[verifier::external_type_specification]
#[verifier::external_body]
pub struct ExRegexError(regex::Error);

/// The text that a `Regex` was compiled from, which `Regex::as_str` returns.
pub uninterp spec fn regex_text(expression: Regex) -> Seq<char>;

/// Whether `Regex::new` compiles a text.
pub uninterp spec fn expression_compiles(expression: Seq<char>) -> bool;

/// Whether `Regex::is_match` finds a match for an expression anywhere in a
/// text.
pub uninterp spec fn expression_matches(expression: Seq<char>, haystack: Seq<char>) -> bool;

/// `Regex::new`. It compiles a text exactly when `expression_compiles` holds
/// of it; the `Regex` then is one made from that text.
#[verifier::external_body]
pub(crate) fn compile_expression(expression: &str) -> (outcome: Result<Regex, regex::Error>)
    ensures
        outcome is Ok <==> expression_compiles(expression@),
        outcome matches Ok(compiled) ==> regex_text(compiled) == expression@,
{
    Regex::new(expression)
}

/// `Regex::is_match`: whether the expression that the `Regex` was made from
/// has a match anywhere in the text.
#[verifier::external_body]
pub(crate) fn is_match(expression: &Regex, haystack: &str) -> (found: bool)
    ensures
        found == expression_matches(regex_text(*expression), haystack@),
{
    expression.is_match(haystack)
}

} // verus!
