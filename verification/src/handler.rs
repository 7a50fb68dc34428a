//! The two lookups: what is sent for what the store answered.
//!
//! A lookup puts one statement to the store (see [`crate::statement`]) and is
//! handed the outcome: the row or rows, or the store's failure. The functions
//! here turn that outcome into the result of the lookup and into the
//! response. They hold no state, so the same outcome gives the same response
//! every time.

use vstd::prelude::*;
use crate::envelope::{
    error_envelope, error_frame, json_string, lemma_empty_list_envelope, lemma_envelopes_differ,
    list_envelope, word_envelope, word_frame,
};
use crate::error::{EcdictError, EcdictErrorView, StoreError, StoreErrorView};
use crate::response::{json_reply, words_response, ContentType, Response, ResponseView, STATUS_OK};
use crate::statement::FUZZY_LIMIT;
use crate::word::{Word, WordView, word_views};

verus! {

/// The rows that a fuzzy lookup answers with: the rows as the store gave
/// them, and only the first [`FUZZY_LIMIT`] of them should there be more.
pub open spec fn capped<T>(rows: Seq<T>) -> Seq<T> {
    if rows.len() <= FUZZY_LIMIT {
        rows
    } else {
        rows.take(FUZZY_LIMIT as int)
    }
}

/// The value of the outcome of a statement that yields one row.
pub open spec fn row_outcome(outcome: Result<Word, StoreError>) -> Result<
    WordView,
    StoreErrorView,
> {
    match outcome {
        Ok(row) => Ok(row@),
        Err(cause) => Err(cause@),
    }
}

/// The value of the outcome of a statement that yields any number of rows.
pub open spec fn rows_outcome(outcome: Result<Vec<Word>, StoreError>) -> Result<
    Seq<WordView>,
    StoreErrorView,
> {
    match outcome {
        Ok(rows) => Ok(word_views(rows@)),
        Err(cause) => Err(cause@),
    }
}

/// The response of the exact lookup: the entry where the store found the
/// row, the error where it found none or failed.
pub open spec fn exact_reply(outcome: Result<WordView, StoreErrorView>) -> ResponseView {
    match outcome {
        Ok(row) => json_reply(word_envelope(row)),
        Err(cause) => json_reply(error_envelope(EcdictErrorView::DBError(cause))),
    }
}

/// The response of the fuzzy lookup: the list of the rows, capped, where the
/// store answered, be the list empty; the error where the store failed.
pub open spec fn fuzzy_reply(outcome: Result<Seq<WordView>, StoreErrorView>) -> ResponseView {
    match outcome {
        Ok(rows) => json_reply(list_envelope(capped(rows))),
        Err(cause) => json_reply(error_envelope(EcdictErrorView::DBError(cause))),
    }
}

/// The result of the exact lookup, given what the store answered to
/// [`crate::statement::exact_statement`]: the row as it was read, or the
/// store's failure as an error. A lookup that found no row is an error, not
/// an empty answer.
pub fn handle_exact(outcome: Result<Word, StoreError>) -> (result: Result<Word, EcdictError>)
    ensures
        match outcome {
            Ok(row) => result == Ok::<Word, EcdictError>(row),
            Err(cause) => result == Err::<Word, EcdictError>(EcdictError::DBError(cause)),
        },
{
    match outcome {
        Ok(row) => Ok(row),
        Err(cause) => Err(EcdictError::from(cause)),
    }
}

/// The result of the fuzzy lookup, given what the store answered to
/// [`crate::statement::fuzzy_statement`]: the rows in the store's order, at
/// most [`FUZZY_LIMIT`] of them, or the store's failure as an error. No row
/// at all is an answer, not an error.
pub fn handle_fuzzy(outcome: Result<Vec<Word>, StoreError>) -> (result: Result<
    Vec<Word>,
    EcdictError,
>)
    ensures
        match outcome {
            Ok(rows) => result is Ok && result->Ok_0@ == capped(rows@),
            Err(cause) => result == Err::<Vec<Word>, EcdictError>(EcdictError::DBError(cause)),
        },
        result matches Ok(words) ==> words.len() <= FUZZY_LIMIT,
{
    match outcome {
        Ok(rows) => {
            let mut words = rows;
            words.truncate(FUZZY_LIMIT);
            Ok(words)
        },
        Err(cause) => Err(EcdictError::from(cause)),
    }
}

/// The response of the exact lookup, given what the store answered.
pub fn exact_response(outcome: Result<Word, StoreError>) -> (response: Response)
    ensures
        response@ == exact_reply(row_outcome(outcome)),
{
    match handle_exact(outcome) {
        Ok(word) => word.into_response(),
        Err(error) => error.into_response(),
    }
}

/// The response of the fuzzy lookup, given what the store answered.
pub fn fuzzy_response(outcome: Result<Vec<Word>, StoreError>) -> (response: Response)
    ensures
        response@ == fuzzy_reply(rows_outcome(outcome)),
{
    match handle_fuzzy(outcome) {
        Ok(words) => {
            assert(word_views(words@) =~= capped(word_views(outcome->Ok_0@)));
            words_response(&words)
        },
        Err(error) => error.into_response(),
    }
}

/// Where the store holds the row of a word and answers with it, the exact
/// lookup of that word is answered with status 200 and a JSON object that
/// begins with the field `word`, holding the word.
pub proof fn lemma_exact_hit(word: Seq<char>, row: WordView)
    requires
        row.word == word,
    ensures
        exact_reply(Ok(row)).status == STATUS_OK,
        exact_reply(Ok(row)).content_type == ContentType::Json,
        exact_reply(Ok(row)).body == word_frame(
            json_string(word),
            json_string(row.definition),
            json_string(row.translation),
            json_string(row.phonetic),
        ),
        ("{\"word\":"@ + json_string(word)).is_prefix_of(exact_reply(Ok(row)).body),
{
}

/// Where the store holds no row of a word, or fails, the exact lookup is
/// answered with the object of the error and never with the object of an
/// entry.
pub proof fn lemma_exact_miss(cause: StoreErrorView, any: WordView)
    ensures
        exact_reply(Err(cause)).status == STATUS_OK,
        exact_reply(Err(cause)).content_type == ContentType::Json,
        exact_reply(Err(cause)).body == error_frame(
            json_string("DBError("@ + cause.description() + ")"@),
        ),
        exact_reply(Err(cause)).body != word_envelope(any),
{
    lemma_envelopes_differ(EcdictErrorView::DBError(cause), any, Seq::empty());
}

/// Whatever rows the store gives, the fuzzy lookup is answered with the list
/// of at most [`FUZZY_LIMIT`] of them: all of them where they are no more
/// than that, else the first ones.
pub proof fn lemma_fuzzy_at_most_limit(rows: Seq<WordView>)
    ensures
        fuzzy_reply(Ok(rows)).status == STATUS_OK,
        fuzzy_reply(Ok(rows)).body == list_envelope(capped(rows)),
        capped(rows).len() <= FUZZY_LIMIT,
        capped(rows).is_prefix_of(rows),
        rows.len() <= FUZZY_LIMIT ==> capped(rows) == rows,
{
}

/// A fuzzy lookup that matches nothing is answered with status 200 and the
/// empty list, not with an error.
pub proof fn lemma_fuzzy_no_match()
    ensures
        fuzzy_reply(Ok(Seq::empty())) == json_reply("[]"@),
{
    lemma_empty_list_envelope();
    assert(capped(Seq::<WordView>::empty()) == Seq::<WordView>::empty());
}

/// A lookup that is repeated while the store answers with the same values
/// is answered with the same response, character by character. For the
/// fuzzy lookup the order of the rows is part of the answer.
pub proof fn lemma_same_outcome_same_response(
    one: Result<Word, StoreError>,
    other: Result<Word, StoreError>,
    many: Result<Vec<Word>, StoreError>,
    others: Result<Vec<Word>, StoreError>,
)
    ensures
        row_outcome(one) == row_outcome(other) ==> exact_reply(row_outcome(one)) == exact_reply(
            row_outcome(other),
        ),
        rows_outcome(many) == rows_outcome(others) ==> fuzzy_reply(rows_outcome(many))
            == fuzzy_reply(rows_outcome(others)),
{
}

} // verus!
