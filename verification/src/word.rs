//! The dictionary entry.

use vstd::prelude::*;

verus! {

/// One row of the dictionary table, read verbatim from the store.
#[derive(Debug, PartialEq, Eq)]
pub struct Word {
    /// The headword, the key of the table.
    pub word: String,
    /// The definition, in English.
    pub definition: String,
    /// The translated definition.
    pub translation: String,
    /// The phonetic transcription.
    pub phonetic: String,
}

/// The mathematical value of a [`Word`]: its four texts as sequences of
/// characters.
pub struct WordView {
    pub word: Seq<char>,
    pub definition: Seq<char>,
    pub translation: Seq<char>,
    pub phonetic: Seq<char>,
}

impl View for Word {
    type V = WordView;

    open spec fn view(&self) -> WordView {
        WordView {
            word: self.word@,
            definition: self.definition@,
            translation: self.translation@,
            phonetic: self.phonetic@,
        }
    }
}

impl Clone for Word {
    fn clone(&self) -> (copy: Word)
        ensures
            copy == *self,
    {
        Word {
            word: self.word.clone(),
            definition: self.definition.clone(),
            translation: self.translation.clone(),
            phonetic: self.phonetic.clone(),
        }
    }
}

/// The values of a sequence of entries, in the same order.
pub open spec fn word_views(words: Seq<Word>) -> Seq<WordView> {
    words.map_values(|w: Word| w@)
}

} // verus!
