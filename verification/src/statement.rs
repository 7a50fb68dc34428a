//! The statements that are put to the store.
//!
//! Each statement is a fixed text with one placeholder, and one text that is
//! bound to the placeholder as data. What a request holds never becomes part
//! of the statement's text.

use vstd::prelude::*;
use crate::pattern::{fuzzy_pattern, lemma_pattern_of_pattern, like_pattern};

verus! {

/// The statement of the exact lookup: equality on the headword.
pub const EXACT_SQL: &'static str = "select * from stardict where word = ?";

/// The statement of the fuzzy lookup: a pattern match on the headword, capped
/// at [`FUZZY_LIMIT`] rows, in the order in which the store finds them.
pub const FUZZY_SQL: &'static str = "select * from stardict where word like ? limit 10";

/// The most rows that a fuzzy lookup answers with.
pub const FUZZY_LIMIT: usize = 10;

/// A statement for the store, with the text bound to its one placeholder.
#[derive(Debug, PartialEq, Eq)]
pub struct Statement {
    /// The text of the statement.
    pub sql: &'static str,
    /// The text that is bound to the placeholder.
    pub param: String,
}

/// The mathematical value of a [`Statement`].
pub struct StatementView {
    pub sql: Seq<char>,
    pub param: Seq<char>,
}

impl View for Statement {
    type V = StatementView;

    open spec fn view(&self) -> StatementView {
        StatementView { sql: self.sql@, param: self.param@ }
    }
}

/// The statement of the exact lookup of `word`: the word is bound as it was
/// given.
pub open spec fn exact_query(word: Seq<char>) -> StatementView {
    StatementView { sql: EXACT_SQL@, param: word }
}

/// The statement of the fuzzy lookup of `query`: the pattern of the query is
/// bound.
pub open spec fn fuzzy_query(query: Seq<char>) -> StatementView {
    StatementView { sql: FUZZY_SQL@, param: like_pattern(query) }
}

/// The statement that looks up `word`: the word is bound as it was given,
/// with no trimming and no change of case.
pub fn exact_statement(word: String) -> (statement: Statement)
    ensures
        statement@ == exact_query(word@),
{
    Statement { sql: EXACT_SQL, param: word }
}

/// The statement that looks up the words matching `query`: the pattern of
/// the query is bound.
pub fn fuzzy_statement(query: &str) -> (statement: Statement)
    ensures
        statement@ == fuzzy_query(query@),
{
    Statement { sql: FUZZY_SQL, param: fuzzy_pattern(query) }
}

/// Whatever two requests hold, their statements have the same text: a
/// request reaches the store as bound data only.
pub proof fn lemma_statement_text_is_fixed(one: Seq<char>, other: Seq<char>)
    ensures
        exact_query(one).sql == exact_query(other).sql,
        fuzzy_query(one).sql == fuzzy_query(other).sql,
        exact_query(one).param == one,
{
}

/// A query and the query with `%` written for each `.` are put to the store
/// as the same statement, so they match the same words.
pub proof fn lemma_query_and_its_pattern_agree(query: Seq<char>)
    ensures
        fuzzy_query(like_pattern(query)) == fuzzy_query(query),
{
    lemma_pattern_of_pattern(query);
}

} // verus!
