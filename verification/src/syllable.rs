//! Classification of single characters of the hiragana syllabary.

use vstd::prelude::*;

verus! {

/// Code point of the first character of the syllabary.
pub const SYLLABARY_FIRST: u32 = 0x3041;

/// Code point of the last character of the syllabary.
pub const SYLLABARY_LAST: u32 = 0x309f;

/// The syllable on which no word can begin: a word that ends on it loses.
pub const TERMINAL: char = '\u{3093}';

/// Whether `c` belongs to the syllabary.
pub open spec fn is_syllabic(c: char) -> bool {
    SYLLABARY_FIRST <= c as u32 <= SYLLABARY_LAST
}

/// `kanji::is_hiragana` answers whether the character lies in the Unicode
/// hiragana block, from U+3041 to U+309F, both ends included.
pub assume_specification[ kanji::is_hiragana ](c: char) -> (b: bool)
    ensures
        b == is_syllabic(c),
;

/// A character that is not part of the syllabary.
#[derive(Clone, Copy, Debug, PartialEq, Eq, Structural)]
pub struct RejectedChar {
    pub ch: char,
}

/// One character of the syllabary.
#[derive(Clone, Copy, Debug, PartialEq, Eq, Structural)]
pub struct Syllable {
    ch: char,
}

impl View for Syllable {
    type V = char;

    closed spec fn view(&self) -> char {
        self.ch
    }
}

impl Syllable {
    /// Every syllable holds a character of the syllabary.
    #[verifier::type_invariant]
    spec fn in_syllabary(self) -> bool {
        is_syllabic(self.ch)
    }

    /// The underlying character.
    pub fn get(&self) -> (c: char)
        ensures
            c == self@,
            is_syllabic(c),
    {
        proof {
            use_type_invariant(self);
        }
        self.ch
    }
}

/// Classifies one character: a syllable if it belongs to the syllabary,
/// otherwise the character is handed back as rejected.
pub fn classify(c: char) -> (r: Result<Syllable, RejectedChar>)
    ensures
        is_syllabic(c) <==> r is Ok,
        r matches Ok(s) ==> s@ == c,
        r matches Err(e) ==> e.ch == c,
{
    if kanji::is_hiragana(c) {
        Ok(Syllable { ch: c })
    } else {
        Err(RejectedChar { ch: c })
    }
}

/// Whether the syllable is the terminal one.
pub fn is_terminal(s: Syllable) -> (b: bool)
    ensures
        b == (s@ == TERMINAL),
{
    s.ch == TERMINAL
}

/// A syllable is its character and nothing more: two syllables of the same
/// character are the same syllable.
pub proof fn lemma_syllable_is_its_character(a: Syllable, b: Syllable)
    requires
        a@ == b@,
    ensures
        a == b,
{
}

} // verus!
