//! The wildcard syntax of fuzzy queries.
//!
//! A query writes `.` where the store's pattern language writes `%`. Nothing
//! else is changed and nothing is escaped: a `%` or `_` that the query
//! already holds keeps the meaning the store gives it.

use vstd::prelude::*;

verus! {

/// The character that a query uses as its wildcard.
pub const QUERY_WILDCARD: char = '.';

/// The character that the store's pattern language uses as its wildcard.
pub const STORE_WILDCARD: char = '%';

/// What one character of a query becomes in the pattern.
pub open spec fn pattern_char(c: char) -> char {
    if c == QUERY_WILDCARD {
        STORE_WILDCARD
    } else {
        c
    }
}

/// The pattern that stands for a query: the query with each `.` replaced by
/// `%`, every other character in its place.
pub open spec fn like_pattern(query: Seq<char>) -> Seq<char> {
    query.map_values(|c: char| pattern_char(c))
}

/// `String::push`: the string grows by the one character, at its end.
#[verifier::external_body]
fn push_char(text: &mut String, c: char)
    ensures
        final(text)@ == old(text)@.push(c),
{
    text.push(c);
}

/// Turns a query into the pattern that is bound to the fuzzy statement.
pub fn fuzzy_pattern(query: &str) -> (pattern: String)
    ensures
        pattern@ == like_pattern(query@),
{
    let mut pattern = String::new();
    for c in it: query.chars()
        invariant
            it.seq() == query@,
            pattern@ == like_pattern(query@.take(it.index() as int)),
    {
        let ghost before = it.index() as int;
        push_char(&mut pattern, if c == QUERY_WILDCARD { STORE_WILDCARD } else { c });
        assert(query@.take(before + 1) == query@.take(before).push(c));
        assert(pattern@ == like_pattern(query@.take(before + 1)));
    }
    assert(query@.take(query@.len() as int) == query@);
    pattern
}

/// No `.` is left in a pattern.
pub proof fn lemma_pattern_has_no_dot(query: Seq<char>)
    ensures
        !like_pattern(query).contains(QUERY_WILDCARD),
{
}

/// A pattern differs from its query only where the query holds a `.`, and
/// holds `%` there.
pub proof fn lemma_pattern_pointwise(query: Seq<char>, i: int)
    requires
        0 <= i < query.len(),
    ensures
        like_pattern(query).len() == query.len(),
        query[i] == QUERY_WILDCARD ==> like_pattern(query)[i] == STORE_WILDCARD,
        query[i] != QUERY_WILDCARD ==> like_pattern(query)[i] == query[i],
{
}

/// A query without `.` is bound as it stands.
pub proof fn lemma_dot_free_query_is_its_pattern(query: Seq<char>)
    requires
        !query.contains(QUERY_WILDCARD),
    ensures
        like_pattern(query) == query,
{
    assert(like_pattern(query) =~= query);
}

/// A query and its own pattern ask the same thing: writing `%` in place of
/// each `.` by hand gives the pattern of the query itself.
pub proof fn lemma_pattern_of_pattern(query: Seq<char>)
    ensures
        like_pattern(like_pattern(query)) == like_pattern(query),
{
    assert(like_pattern(like_pattern(query)) =~= like_pattern(query));
}

} // verus!
