//! The game of one room: the words played so far, in order.

use vstd::prelude::*;
use vstd::string::StringExecFns;
use crate::constants::HELP_STRING;
use crate::inbound::{Inbound, InboundView};
use crate::reply::{
    history, history_text, lost, lost_text, mismatch, mismatch_text, not_recognised,
    not_recognised_text, played, played_text, previous_word, previous_word_text,
};
use crate::syllable::{Syllable, TERMINAL};
use crate::validator::{
    validate, validate_spec, OutcomeView, RejectReason, RejectReasonView, ValidationOutcome,
};
use crate::word::{Word, WordView};

verus! {

/// What became of a submitted word.
#[derive(Debug, PartialEq, Eq)]
pub enum SubmitResult {
    /// The word was appended to the history.
    Accepted(Word),
    /// The word ends on the terminal syllable; the history is as it was.
    Lost(String),
    /// The word cannot be played; the history is as it was.
    Rejected(RejectReason),
}

/// A [`SubmitResult`] over plain values.
pub enum SubmitView {
    Accepted(WordView),
    Lost(Seq<char>),
    Rejected(RejectReasonView),
}

impl View for SubmitResult {
    type V = SubmitView;

    open spec fn view(&self) -> SubmitView {
        match *self {
            SubmitResult::Accepted(word) => SubmitView::Accepted(word@),
            SubmitResult::Lost(raw) => SubmitView::Lost(raw@),
            SubmitResult::Rejected(reason) => SubmitView::Rejected(reason@),
        }
    }
}

/// Each word but the first begins with the syllable the word before it ends on.
pub open spec fn is_chain(h: Seq<WordView>) -> bool {
    forall|i: int| 0 < i < h.len() ==> (#[trigger] h[i]).first() == h[i - 1].last()
}

/// What holds of every history: its words are well formed, none ends on the
/// terminal syllable, and together they form a chain.
pub open spec fn is_history(h: Seq<WordView>) -> bool {
    &&& forall|i: int| 0 <= i < h.len() ==> (#[trigger] h[i]).wf() && h[i].last() != TERMINAL
    &&& is_chain(h)
}

/// The syllable the next word must begin with, if any word was played.
pub open spec fn required_next(h: Seq<WordView>) -> Option<char> {
    if h.len() == 0 {
        None
    } else {
        Some(h.last().last())
    }
}

/// The history after `player`, shown as `name`, submits `raw`, and what the
/// player is told: only a playable word is appended.
pub open spec fn submit_spec(h: Seq<WordView>, player: u64, name: Seq<char>, raw: Seq<char>) -> (
    Seq<WordView>,
    SubmitView,
) {
    match validate_spec(raw, required_next(h)) {
        OutcomeView::Playable { .. } => {
            let word = WordView { author: player, display_name: name, text: raw };
            (h.push(word), SubmitView::Accepted(word))
        },
        OutcomeView::Loss => (h, SubmitView::Lost(raw)),
        OutcomeView::Rejected(reason) => (h, SubmitView::Rejected(reason)),
    }
}

/// What the sender of `message` is answered for the word `raw`, submitted
/// to the history `h`.
pub open spec fn play_reply(h: Seq<WordView>, message: InboundView, raw: Seq<char>) -> Seq<char> {
    match validate_spec(raw, required_next(h)) {
        OutcomeView::Playable { .. } => played_text(
            message.sender_mention,
            message.sender_tag,
            raw,
        ),
        OutcomeView::Loss => lost_text(message.sender_mention, raw),
        OutcomeView::Rejected(RejectReasonView::ChainMismatch { required, got }) => mismatch_text(
            message.sender_mention,
            message.sender_tag,
            raw,
            got,
            h.last().text,
            required,
        ),
        OutcomeView::Rejected(_) => not_recognised_text(message.raw_text),
    }
}

/// The game of one room.
#[derive(Debug)]
pub struct Bot {
    words: Vec<Word>,
}

impl View for Bot {
    type V = Seq<WordView>;

    closed spec fn view(&self) -> Seq<WordView> {
        self.words@.map_values(|w: Word| w@)
    }
}

impl Bot {
    #[verifier::type_invariant]
    spec fn chained(self) -> bool {
        is_history(self@)
    }

    /// A game in which nothing has been played.
    pub fn new() -> (bot: Bot)
        ensures
            bot@ == Seq::<WordView>::empty(),
    {
        let bot = Bot { words: Vec::new() };
        bot
    }

    /// The most recently accepted word.
    pub fn last_word(&self) -> (r: Option<&Word>)
        ensures
            self@.len() == 0 <==> r is None,
            r matches Some(w) ==> w@ == self@.last(),
    {
        let n = self.words.len();
        if n == 0 {
            None
        } else {
            Some(&self.words[n - 1])
        }
    }

    /// A copy of the most recently accepted word.
    pub fn get_previous_word(&self) -> (r: Option<Word>)
        ensures
            self@.len() == 0 <==> r is None,
            r matches Some(w) ==> w@ == self@.last(),
    {
        match self.last_word() {
            Some(word) => Some(word.clone()),
            None => None,
        }
    }

    /// The syllable the next word must begin with: the one the most recently
    /// accepted word ends on.
    pub fn get_current_character(&self) -> (r: Option<Syllable>)
        ensures
            r is None <==> required_next(self@) is None,
            r matches Some(s) ==> required_next(self@) == Some(s@),
    {
        match self.last_word() {
            Some(word) => Some(word.last()),
            None => None,
        }
    }

    /// The words played so far, in the order in which they were played.
    pub fn history(&self) -> (words: &Vec<Word>)
        ensures
            words@.map_values(|w: Word| w@) == self@,
            is_history(self@),
    {
        proof {
            use_type_invariant(self);
        }
        &self.words
    }

    /// Takes the word `raw` from `player_id`, shown as `display_name`: the
    /// word is validated against the most recently accepted one and appended
    /// if it is playable.
    pub fn submit(&mut self, player_id: u64, display_name: &str, raw: &str) -> (r: SubmitResult)
        ensures
            (final(self)@, r@) == submit_spec(old(self)@, player_id, display_name@, raw@),
            is_history(final(self)@),
    {
        proof {
            use_type_invariant(&*self);
        }
        match validate(raw, self.last_word()) {
            ValidationOutcome::Playable { .. } => {
                match Word::new(player_id, raw.to_owned(), display_name.to_owned()) {
                    Ok(word) => {
                        let played = word.clone();
                        // The words are taken out, extended and put back, so
                        // that the game holds a history at every step.
                        let mut words: Vec<Word> = Vec::new();
                        core::mem::swap(&mut self.words, &mut words);
                        words.push(word);
                        assert(words@.map_values(|w: Word| w@) =~= old(self)@.push(word@));
                        self.words = words;
                        SubmitResult::Accepted(played)
                    },
                    Err(reason) => SubmitResult::Rejected(reason),
                }
            },
            ValidationOutcome::Loss => SubmitResult::Lost(raw.to_owned()),
            ValidationOutcome::Rejected(reason) => SubmitResult::Rejected(reason),
        }
    }

    /// The help text.
    pub fn help(&self) -> (text: String)
        ensures
            text@ == HELP_STRING@,
    {
        String::from_str(HELP_STRING)
    }

    /// The answer to the message `content`, which is no command.
    pub fn not_recognised(&self, content: &str) -> (text: String)
        ensures
            text@ == not_recognised_text(content@),
    {
        not_recognised(content)
    }

    /// Submits `word` for the sender of `message` and writes the answer.
    pub fn try_play_word(&mut self, message: &Inbound, word: &str) -> (text: String)
        ensures
            final(self)@ == submit_spec(
                old(self)@,
                message.sender_id,
                message.sender_display_name@,
                word@,
            ).0,
            text@ == play_reply(old(self)@, message@, word@),
    {
        let mention = message.sender_mention.as_str();
        let tag = message.sender_tag.as_str();
        match self.submit(message.sender_id, message.sender_display_name.as_str(), word) {
            SubmitResult::Accepted(_) => played(mention, tag, word),
            SubmitResult::Lost(_) => lost(mention, word),
            SubmitResult::Rejected(RejectReason::ChainMismatch { required, got }) => {
                match self.last_word() {
                    Some(previous) => mismatch(
                        mention,
                        tag,
                        word,
                        got.get(),
                        previous.word(),
                        required.get(),
                    ),
                    None => not_recognised(message.raw_text.as_str()),
                }
            },
            SubmitResult::Rejected(_) => not_recognised(message.raw_text.as_str()),
        }
    }

    /// The words played so far, as text.
    pub fn show_history(&self) -> (text: String)
        ensures
            text@ == history_text(self@),
    {
        history(&self.words)
    }

    /// The most recently accepted word, as text for the player shown as
    /// `display_name`.
    pub fn show_previous_word(&self, display_name: &str) -> (text: String)
        ensures
            text@ == previous_word_text(self@, display_name@),
    {
        previous_word(self.last_word(), display_name)
    }
}

/// One submission: who submits, under which name, and the text.
pub struct Submission {
    pub player: u64,
    pub name: Seq<char>,
    pub raw: Seq<char>,
}

/// The history after the submission `s`.
pub open spec fn history_after(h: Seq<WordView>, s: Submission) -> Seq<WordView> {
    submit_spec(h, s.player, s.name, s.raw).0
}

/// Whether the submission `s` is accepted when the history is `h`.
pub open spec fn is_accepted(h: Seq<WordView>, s: Submission) -> bool {
    submit_spec(h, s.player, s.name, s.raw).1 is Accepted
}

/// The history after the submissions `subs`, taken one after the other.
pub open spec fn history_after_all(h: Seq<WordView>, subs: Seq<Submission>) -> Seq<WordView>
    decreases subs.len(),
{
    if subs.len() == 0 {
        h
    } else {
        history_after_all(history_after(h, subs.first()), subs.drop_first())
    }
}

/// How many of the submissions `subs`, taken one after the other from the
/// history `h`, are accepted.
pub open spec fn accepted_count(h: Seq<WordView>, subs: Seq<Submission>) -> nat
    decreases subs.len(),
{
    if subs.len() == 0 {
        0
    } else {
        let one: nat = if is_accepted(h, subs.first()) {
            1
        } else {
            0
        };
        one + accepted_count(history_after(h, subs.first()), subs.drop_first())
    }
}

/// A submission keeps a history a history: whatever is submitted, the words
/// stay well formed, none ends on the terminal syllable, and each word but
/// the first begins with the syllable the word before it ends on.
pub proof fn lemma_submission_keeps_history(h: Seq<WordView>, s: Submission)
    requires
        is_history(h),
    ensures
        is_history(history_after(h, s)),
{
}

/// A submission that is not accepted, lost or rejected, leaves the history
/// as it was; one that is accepted appends exactly the submitted word.
pub proof fn lemma_only_accepted_words_are_appended(h: Seq<WordView>, s: Submission)
    ensures
        !is_accepted(h, s) ==> history_after(h, s) == h,
        is_accepted(h, s) ==> history_after(h, s) == h.push(
            WordView { author: s.player, display_name: s.name, text: s.raw },
        ),
{
}

/// Every history that play can reach is a chain: start with nothing played,
/// take any submissions one after the other, and each word of the result but
/// the first begins with the syllable the word before it ends on.
pub proof fn lemma_played_history_is_chain(subs: Seq<Submission>)
    ensures
        is_history(history_after_all(Seq::empty(), subs)),
        is_chain(history_after_all(Seq::empty(), subs)),
{
    lemma_submissions_keep_history(Seq::empty(), subs);
}

/// Any number of submissions keep a history a history.
pub proof fn lemma_submissions_keep_history(h: Seq<WordView>, subs: Seq<Submission>)
    requires
        is_history(h),
    ensures
        is_history(history_after_all(h, subs)),
    decreases subs.len(),
{
    if subs.len() > 0 {
        lemma_submission_keeps_history(h, subs.first());
        lemma_submissions_keep_history(history_after(h, subs.first()), subs.drop_first());
    }
}

/// The history grows by exactly one word for each accepted submission, and
/// by nothing else.
pub proof fn lemma_length_counts_accepted(h: Seq<WordView>, subs: Seq<Submission>)
    ensures
        history_after_all(h, subs).len() == h.len() + accepted_count(h, subs),
    decreases subs.len(),
{
    if subs.len() > 0 {
        lemma_length_counts_accepted(history_after(h, subs.first()), subs.drop_first());
    }
}

/// Two submissions never both succeed against the same previous word: once
/// `a` is accepted, `b` is judged against the word of `a`, so that `b` is
/// accepted only if it begins with the syllable on which `a` ends.
pub proof fn lemma_second_is_judged_against_first(h: Seq<WordView>, a: Submission, b: Submission)
    requires
        is_accepted(h, a),
    ensures
        required_next(history_after(h, a)) == Some(a.raw.last()),
        is_accepted(history_after(h, a), b) ==> b.raw.first() == a.raw.last(),
{
}

} // verus!
