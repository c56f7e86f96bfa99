//! An accepted play.

use vstd::prelude::*;
use crate::syllable::Syllable;
use crate::validator::{endpoints, is_syllabic_text, RejectReason};

verus! {

/// What a [`Word`] stands for: who played it, under which name, and its text.
pub struct WordView {
    pub author: u64,
    pub display_name: Seq<char>,
    pub text: Seq<char>,
}

impl WordView {
    /// The syllable the word begins with.
    pub open spec fn first(self) -> char {
        self.text.first()
    }

    /// The syllable the word ends on.
    pub open spec fn last(self) -> char {
        self.text.last()
    }

    /// A word is never empty and is written in the syllabary throughout.
    pub open spec fn wf(self) -> bool {
        is_syllabic_text(self.text)
    }
}

/// A word that was played, with the player who submitted it and the
/// syllables that link it into the chain.
#[derive(Debug, PartialEq, Eq)]
pub struct Word {
    author: u64,
    word: String,
    display_name: String,
    first: Syllable,
    last: Syllable,
}

impl View for Word {
    type V = WordView;

    closed spec fn view(&self) -> WordView {
        WordView { author: self.author, display_name: self.display_name@, text: self.word@ }
    }
}

impl Word {
    #[verifier::type_invariant]
    spec fn linked(self) -> bool {
        &&& is_syllabic_text(self.word@)
        &&& self.first@ == self.word@.first()
        &&& self.last@ == self.word@.last()
    }

    /// Makes a word out of its text, or says why the text is no word.
    pub fn new(author: u64, word: String, display_name: String) -> (r: Result<Word, RejectReason>)
        ensures
            word@.len() == 0 <==> r == Err::<Word, RejectReason>(RejectReason::EmptyInput),
            word@.len() > 0 && !is_syllabic_text(word@) <==> r == Err::<Word, RejectReason>(
                RejectReason::NonSyllabicInput,
            ),
            is_syllabic_text(word@) <==> r is Ok,
            r matches Ok(w) ==> w@ == (WordView {
                author,
                display_name: display_name@,
                text: word@,
            }),
    {
        match endpoints(word.as_str()) {
            Ok((first, last)) => Ok(Word { author, word, display_name, first, last }),
            Err(reason) => Err(reason),
        }
    }

    /// The identifier of the player who submitted the word.
    pub fn author(&self) -> (id: u64)
        ensures
            id == self@.author,
    {
        self.author
    }

    /// The text of the word.
    pub fn word(&self) -> (text: &str)
        ensures
            text@ == self@.text,
            self@.wf(),
    {
        proof {
            use_type_invariant(self);
        }
        self.word.as_str()
    }

    /// The name under which the player is shown.
    pub fn display_name(&self) -> (name: &str)
        ensures
            name@ == self@.display_name,
    {
        self.display_name.as_str()
    }

    /// The syllable the word begins with.
    pub fn first(&self) -> (s: Syllable)
        ensures
            s@ == self@.first(),
            self@.wf(),
    {
        proof {
            use_type_invariant(self);
        }
        self.first
    }

    /// The syllable the word ends on.
    pub fn last(&self) -> (s: Syllable)
        ensures
            s@ == self@.last(),
            self@.wf(),
    {
        proof {
            use_type_invariant(self);
        }
        self.last
    }
}

impl Clone for Word {
    fn clone(&self) -> (copy: Word)
        ensures
            copy@ == self@,
    {
        proof {
            use_type_invariant(self);
        }
        Word {
            author: self.author,
            word: self.word.clone(),
            display_name: self.display_name.clone(),
            first: self.first,
            last: self.last,
        }
    }
}

} // verus!
