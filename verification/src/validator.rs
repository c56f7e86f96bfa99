//! Decides whether a candidate word may be played after a given word.

use vstd::prelude::*;
use crate::syllable::{classify, is_syllabic, is_terminal, Syllable, TERMINAL};
use crate::text::to_chars;
use crate::word::Word;

verus! {

/// Why a candidate word was turned down.
#[derive(Clone, Copy, Debug, PartialEq, Eq, Structural)]
pub enum RejectReason {
    /// The candidate holds no character at all.
    EmptyInput,
    /// The candidate holds a character outside the syllabary.
    NonSyllabicInput,
    /// The candidate does not begin with the syllable the chain asks for.
    ChainMismatch { required: Syllable, got: Syllable },
}

/// A [`RejectReason`] with its syllables as plain characters.
pub enum RejectReasonView {
    EmptyInput,
    NonSyllabicInput,
    ChainMismatch { required: char, got: char },
}

impl View for RejectReason {
    type V = RejectReasonView;

    open spec fn view(&self) -> RejectReasonView {
        match *self {
            RejectReason::EmptyInput => RejectReasonView::EmptyInput,
            RejectReason::NonSyllabicInput => RejectReasonView::NonSyllabicInput,
            RejectReason::ChainMismatch { required, got } => RejectReasonView::ChainMismatch {
                required: required@,
                got: got@,
            },
        }
    }
}

/// What the validator says of a candidate word.
#[derive(Clone, Copy, Debug, PartialEq, Eq, Structural)]
pub enum ValidationOutcome {
    /// The word continues the chain.
    Playable { first: Syllable, last: Syllable },
    /// The word ends on the terminal syllable: the turn is lost.
    Loss,
    /// The word cannot be played.
    Rejected(RejectReason),
}

/// A [`ValidationOutcome`] with its syllables as plain characters.
pub enum OutcomeView {
    Playable { first: char, last: char },
    Loss,
    Rejected(RejectReasonView),
}

impl View for ValidationOutcome {
    type V = OutcomeView;

    open spec fn view(&self) -> OutcomeView {
        match *self {
            ValidationOutcome::Playable { first, last } => OutcomeView::Playable {
                first: first@,
                last: last@,
            },
            ValidationOutcome::Loss => OutcomeView::Loss,
            ValidationOutcome::Rejected(reason) => OutcomeView::Rejected(reason@),
        }
    }
}

/// Whether every character of `t` belongs to the syllabary.
pub open spec fn all_syllabic(t: Seq<char>) -> bool {
    forall|i: int| 0 <= i < t.len() ==> is_syllabic(#[trigger] t[i])
}

/// Whether `t` has the shape of a word: not empty, syllabic throughout.
pub open spec fn is_syllabic_text(t: Seq<char>) -> bool {
    t.len() > 0 && all_syllabic(t)
}

/// The outcome for the candidate `raw` when the chain asks for `required`
/// (`None` while nothing has been played).
///
/// Emptiness is looked at first, then the alphabet of the whole word, then
/// the terminal syllable, and the chain last: a word that both breaks the
/// chain and ends on the terminal syllable is a loss.
pub open spec fn validate_spec(raw: Seq<char>, required: Option<char>) -> OutcomeView {
    if raw.len() == 0 {
        OutcomeView::Rejected(RejectReasonView::EmptyInput)
    } else if !all_syllabic(raw) {
        OutcomeView::Rejected(RejectReasonView::NonSyllabicInput)
    } else if raw.last() == TERMINAL {
        OutcomeView::Loss
    } else if required is Some && required->0 != raw.first() {
        OutcomeView::Rejected(
            RejectReasonView::ChainMismatch { required: required->0, got: raw.first() },
        )
    } else {
        OutcomeView::Playable { first: raw.first(), last: raw.last() }
    }
}

/// The syllable that a word played after `previous` must begin with.
pub open spec fn required_after(previous: Option<&Word>) -> Option<char> {
    match previous {
        Some(w) => Some(w@.last()),
        None => None,
    }
}

/// Classifies every character of `raw` and hands back its first and last
/// syllable, or the reason why it has none.
pub fn endpoints(raw: &str) -> (r: Result<(Syllable, Syllable), RejectReason>)
    ensures
        raw@.len() == 0 <==> r == Err::<(Syllable, Syllable), RejectReason>(
            RejectReason::EmptyInput,
        ),
        raw@.len() > 0 && !all_syllabic(raw@) <==> r == Err::<(Syllable, Syllable), RejectReason>(
            RejectReason::NonSyllabicInput,
        ),
        is_syllabic_text(raw@) <==> r is Ok,
        r matches Ok(ends) ==> ends.0@ == raw@.first() && ends.1@ == raw@.last(),
{
    let chars = to_chars(raw);
    let n = chars.len();
    if n == 0 {
        return Err(RejectReason::EmptyInput);
    }
    let first = match classify(chars[0]) {
        Ok(s) => s,
        Err(_) => {
            return Err(RejectReason::NonSyllabicInput);
        },
    };
    let mut last = first;
    let mut i: usize = 1;
    while i < n
        invariant
            1 <= i <= n,
            n == chars@.len(),
            chars@ == raw@,
            forall|j: int| 0 <= j < i ==> is_syllabic(#[trigger] chars@[j]),
            last@ == chars@[i - 1],
        decreases n - i,
    {
        match classify(chars[i]) {
            Ok(s) => {
                last = s;
            },
            Err(_) => {
                return Err(RejectReason::NonSyllabicInput);
            },
        }
        i += 1;
    }
    Ok((first, last))
}

/// Validates the candidate `raw` against the word played before it, if any.
pub fn validate(raw: &str, previous: Option<&Word>) -> (outcome: ValidationOutcome)
    ensures
        outcome@ == validate_spec(raw@, required_after(previous)),
{
    let (first, last) = match endpoints(raw) {
        Ok(ends) => ends,
        Err(reason) => {
            return ValidationOutcome::Rejected(reason);
        },
    };
    if is_terminal(last) {
        return ValidationOutcome::Loss;
    }
    match previous {
        Some(word) => {
            let required = word.last();
            if first.get() != required.get() {
                return ValidationOutcome::Rejected(
                    RejectReason::ChainMismatch { required, got: first },
                );
            }
        },
        None => {},
    }
    ValidationOutcome::Playable { first, last }
}

/// A word of the syllabary that ends on the terminal syllable is a loss,
/// whatever was played before it, and also where it breaks the chain.
pub proof fn lemma_terminal_ending_loses(raw: Seq<char>, required: Option<char>)
    requires
        is_syllabic_text(raw),
        raw.last() == TERMINAL,
    ensures
        validate_spec(raw, required) == OutcomeView::Loss,
{
}

/// A playable word begins with the syllable asked for, if one is asked for,
/// and does not end on the terminal syllable.
pub proof fn lemma_playable_continues_chain(raw: Seq<char>, required: Option<char>)
    requires
        validate_spec(raw, required) is Playable,
    ensures
        is_syllabic_text(raw),
        raw.last() != TERMINAL,
        required is Some ==> raw.first() == required->0,
        validate_spec(raw, required) == (OutcomeView::Playable {
            first: raw.first(),
            last: raw.last(),
        }),
{
}

} // verus!
