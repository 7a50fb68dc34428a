//! The JSON texts that the service sends.
//!
//! A dictionary entry is sent as a flat object of its four texts, a list of
//! entries as an array of such objects, and an error as an object with the
//! one field `err`. All of them are written without white space.
//!
//! How a text is quoted and escaped as a JSON string is left to `serde_json`;
//! how the quoted texts are framed into objects and arrays is decided here.

use vstd::prelude::*;
use vstd::string::StringExecFns;
use crate::error::{EcdictError, EcdictErrorView};
use crate::word::{Word, WordView, word_views};

verus! {

/// The JSON string that `serde_json` writes for a text: the text between
/// double quotes, with the characters escaped that JSON does not allow to
/// stand for themselves.
pub uninterp spec fn json_string(text: Seq<char>) -> Seq<char>;

/// `serde_json::to_string` on a string slice. Its result depends on the text
/// alone. Writing a string slice into memory has no failing path in
/// `serde_json`, so the value that stands in for an error is never returned.
#[verifier::external_body]
fn quote(text: &str) -> (json: String)
    ensures
        json@ == json_string(text@),
{
    serde_json::to_string(text).unwrap_or_default()
}

/// The object of an entry, given its four texts as JSON strings: the fields
/// `word`, `definition`, `translation` and `phonetic`, in this order.
pub open spec fn word_frame(
    word: Seq<char>,
    definition: Seq<char>,
    translation: Seq<char>,
    phonetic: Seq<char>,
) -> Seq<char> {
    "{\"word\":"@ + word + ",\"definition\":"@ + definition + ",\"translation\":"@ + translation
        + ",\"phonetic\":"@ + phonetic + "}"@
}

/// The object of an error, given its description as a JSON string.
pub open spec fn error_frame(description: Seq<char>) -> Seq<char> {
    "{\"err\":"@ + description + "}"@
}

/// The items with a comma between each two neighbours.
pub open spec fn comma_separated(items: Seq<Seq<char>>) -> Seq<char>
    decreases items.len(),
{
    if items.len() == 0 {
        Seq::empty()
    } else if items.len() == 1 {
        items[0]
    } else {
        comma_separated(items.drop_last()) + ","@ + items.last()
    }
}

/// The array of the items, each of them a JSON text already.
pub open spec fn list_frame(items: Seq<Seq<char>>) -> Seq<char> {
    "["@ + comma_separated(items) + "]"@
}

/// The texts of a sequence of strings.
pub open spec fn texts(items: Seq<String>) -> Seq<Seq<char>> {
    items.map_values(|item: String| item@)
}

/// The JSON text of an entry.
pub open spec fn word_envelope(word: WordView) -> Seq<char> {
    word_frame(
        json_string(word.word),
        json_string(word.definition),
        json_string(word.translation),
        json_string(word.phonetic),
    )
}

/// The JSON text of a list of entries, in the order of the list.
pub open spec fn list_envelope(words: Seq<WordView>) -> Seq<char> {
    list_frame(words.map_values(|word: WordView| word_envelope(word)))
}

/// The JSON text of an error.
pub open spec fn error_envelope(error: EcdictErrorView) -> Seq<char> {
    error_frame(json_string(error.description()))
}

/// Frames four JSON strings as the object of an entry.
pub fn frame_word(word: &str, definition: &str, translation: &str, phonetic: &str) -> (json:
    String)
    ensures
        json@ == word_frame(word@, definition@, translation@, phonetic@),
{
    let mut json = String::from_str("{\"word\":");
    json.append(word);
    json.append(",\"definition\":");
    json.append(definition);
    json.append(",\"translation\":");
    json.append(translation);
    json.append(",\"phonetic\":");
    json.append(phonetic);
    json.append("}");
    json
}

/// Frames a JSON string as the object of an error.
pub fn frame_error(description: &str) -> (json: String)
    ensures
        json@ == error_frame(description@),
{
    let mut json = String::from_str("{\"err\":");
    json.append(description);
    json.append("}");
    json
}

/// Frames JSON texts as an array.
pub fn frame_list(items: &Vec<String>) -> (json: String)
    ensures
        json@ == list_frame(texts(items@)),
{
    let mut json = String::from_str("[");
    let ghost all = texts(items@);
    let mut i: usize = 0;
    while i < items.len()
        invariant
            i <= items.len(),
            all == texts(items@),
            json@ == "["@ + comma_separated(all.take(i as int)),
        decreases items.len() - i,
    {
        if i > 0 {
            json.append(",");
        }
        json.append(items[i].as_str());
        proof {
            let next = all.take(i + 1);
            assert(next.drop_last() == all.take(i as int));
            assert(next.last() == items@[i as int]@);
        }
        i += 1;
    }
    assert(all.take(i as int) == all);
    json.append("]");
    json
}

/// Writes an entry as JSON.
pub fn word_json(word: &Word) -> (json: String)
    ensures
        json@ == word_envelope(word@),
{
    let headword = quote(word.word.as_str());
    let definition = quote(word.definition.as_str());
    let translation = quote(word.translation.as_str());
    let phonetic = quote(word.phonetic.as_str());
    frame_word(headword.as_str(), definition.as_str(), translation.as_str(), phonetic.as_str())
}

/// Writes a list of entries as JSON.
pub fn words_json(words: &Vec<Word>) -> (json: String)
    ensures
        json@ == list_envelope(word_views(words@)),
{
    let mut items: Vec<String> = Vec::new();
    let ghost envelopes = word_views(words@).map_values(|word: WordView| word_envelope(word));
    let mut i: usize = 0;
    while i < words.len()
        invariant
            i <= words.len(),
            envelopes == word_views(words@).map_values(|word: WordView| word_envelope(word)),
            items.len() == i,
            texts(items@) == envelopes.take(i as int),
        decreases words.len() - i,
    {
        let item = word_json(&words[i]);
        let ghost before = items@;
        items.push(item);
        assert forall|k: int| 0 <= k < i + 1 implies texts(items@)[k] == envelopes.take(i + 1)[k] by {
            if k < i {
                assert(texts(before)[k] == envelopes.take(i as int)[k]);
            } else {
                assert(envelopes[k] == word_envelope(word_views(words@)[k]));
            }
        }
        assert(texts(items@) =~= envelopes.take(i + 1));
        i += 1;
    }
    assert(envelopes.take(i as int) == envelopes);
    frame_list(&items)
}

/// Writes an error as JSON.
pub fn error_json(error: &EcdictError) -> (json: String)
    ensures
        json@ == error_envelope(error@),
{
    let description = quote(error.describe().as_str());
    frame_error(description.as_str())
}

/// The list of no entries is written as `[]`.
pub proof fn lemma_empty_list_envelope()
    ensures
        list_envelope(Seq::empty()) == "[]"@,
{
    reveal_strlit("[");
    reveal_strlit("]");
    reveal_strlit("[]");
    let items = Seq::<WordView>::empty().map_values(|word: WordView| word_envelope(word));
    assert(comma_separated(items) =~= Seq::<char>::empty());
    assert(list_envelope(Seq::empty()) =~= "[]"@);
}

/// An error, an entry and a list are told apart by how their bodies begin:
/// no body of one kind is a body of another.
pub proof fn lemma_envelopes_differ(error: EcdictErrorView, word: WordView, words: Seq<WordView>)
    ensures
        error_envelope(error) != word_envelope(word),
        list_envelope(words) != error_envelope(error),
        list_envelope(words) != word_envelope(word),
{
    reveal_strlit("{\"err\":");
    reveal_strlit("{\"word\":");
    reveal_strlit("[");
    assert(error_envelope(error)[2] == 'e');
    assert(word_envelope(word)[2] == 'w');
    assert(error_envelope(error)[0] == '{');
    assert(word_envelope(word)[0] == '{');
    assert(list_envelope(words)[0] == '[');
}

} // verus!
