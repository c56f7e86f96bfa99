//! The texts that the game answers with.

use vstd::prelude::*;
use vstd::string::StringExecFns;
use crate::word::{Word, WordView};

verus! {

/// The answer to a message that is no command.
pub open spec fn not_recognised_text(content: Seq<char>) -> Seq<char> {
    content + " is not a recognised command"@
}

/// The answer to a word that ends on the terminal syllable.
pub open spec fn lost_text(mention: Seq<char>, word: Seq<char>) -> Seq<char> {
    mention + " Your word "@ + word + " ends in ん. Better luck next time!"@
}

/// A word as it is shown: the player's tag, then the text.
pub open spec fn shown_word(tag: Seq<char>, word: Seq<char>) -> Seq<char> {
    tag + ": "@ + word
}

/// The answer to a word that was accepted.
pub open spec fn played_text(mention: Seq<char>, tag: Seq<char>, word: Seq<char>) -> Seq<char> {
    mention + " Played word: "@ + shown_word(tag, word)
}

/// The answer to a word that does not continue the chain: `got` is the
/// syllable it begins with, `required` the one that `previous` ends on.
pub open spec fn mismatch_text(
    mention: Seq<char>,
    tag: Seq<char>,
    word: Seq<char>,
    got: char,
    previous: Seq<char>,
    required: char,
) -> Seq<char> {
    mention + " Your word "@ + shown_word(tag, word) + " starts with "@ + seq![got]
        + ". The previous word was "@ + previous + ", which ends in "@ + seq![required]
        + ", so your word must start with "@ + seq![required]
}

/// One line for each word, in play order: the player's display name, then
/// the text.
pub open spec fn history_lines(h: Seq<WordView>) -> Seq<char>
    decreases h.len(),
{
    if h.len() == 0 {
        Seq::empty()
    } else {
        history_lines(h.drop_last()) + h.last().display_name + ": "@ + h.last().text + "\n"@
    }
}

/// The words played so far, as text.
pub open spec fn history_text(h: Seq<WordView>) -> Seq<char> {
    "Game history: \n"@ + history_lines(h)
}

/// The most recently accepted word, as text for the player shown as
/// `display_name`.
pub open spec fn previous_word_text(h: Seq<WordView>, display_name: Seq<char>) -> Seq<char> {
    if h.len() == 0 {
        "No word has been played yet."@
    } else {
        "The last word was "@ + h.last().text + " by "@ + display_name
    }
}

/// Writes [`not_recognised_text`].
pub fn not_recognised(content: &str) -> (text: String)
    ensures
        text@ == not_recognised_text(content@),
{
    let mut text = String::from_str(content);
    text.append(" is not a recognised command");
    text
}

/// Writes [`lost_text`].
pub fn lost(mention: &str, word: &str) -> (text: String)
    ensures
        text@ == lost_text(mention@, word@),
{
    let mut text = String::from_str(mention);
    text.append(" Your word ");
    text.append(word);
    text.append(" ends in ん. Better luck next time!");
    text
}

/// Writes [`played_text`].
pub fn played(mention: &str, tag: &str, word: &str) -> (text: String)
    ensures
        text@ == played_text(mention@, tag@, word@),
{
    let mut text = String::from_str(mention);
    text.append(" Played word: ");
    text.append(tag);
    text.append(": ");
    text.append(word);
    text
}

/// Writes [`mismatch_text`] for the candidate `word`, which begins with
/// `got`, and the word `previous`, which ends on `required`.
pub fn mismatch(
    mention: &str,
    tag: &str,
    word: &str,
    got: char,
    previous: &str,
    required: char,
) -> (text: String)
    ensures
        text@ == mismatch_text(mention@, tag@, word@, got, previous@, required),
{
    let mut text = String::from_str(mention);
    text.append(" Your word ");
    text.append(tag);
    text.append(": ");
    text.append(word);
    text.append(" starts with ");
    text.push(got);
    text.append(". The previous word was ");
    text.append(previous);
    text.append(", which ends in ");
    text.push(required);
    text.append(", so your word must start with ");
    text.push(required);
    text
}

/// Writes [`history_text`] for the words `words`.
pub fn history(words: &Vec<Word>) -> (text: String)
    ensures
        text@ == history_text(words@.map_values(|w: Word| w@)),
{
    let ghost h = words@.map_values(|w: Word| w@);
    let mut text = String::from_str("Game history: \n");
    let n = words.len();
    let mut i: usize = 0;
    while i < n
        invariant
            i <= n,
            n == words@.len(),
            h == words@.map_values(|w: Word| w@),
            text@ == history_text(h.take(i as int)),
        decreases n - i,
    {
        let word = &words[i];
        assert(h.take(i + 1).drop_last() =~= h.take(i as int));
        text.append(word.display_name());
        text.append(": ");
        text.append(word.word());
        text.append("\n");
        i += 1;
    }
    assert(h.take(n as int) =~= h);
    text
}

/// Writes [`previous_word_text`]: `previous` is the most recently accepted
/// word, if there is one.
pub fn previous_word(previous: Option<&Word>, display_name: &str) -> (text: String)
    ensures
        previous matches Some(w) ==> text@ == "The last word was "@ + w@.text + " by "@
            + display_name@,
        previous is None ==> text@ == "No word has been played yet."@,
{
    match previous {
        Some(word) => {
            let mut text = String::from_str("The last word was ");
            text.append(word.word());
            text.append(" by ");
            text.append(display_name);
            text
        },
        None => String::from_str("No word has been played yet."),
    }
}

} // verus!
