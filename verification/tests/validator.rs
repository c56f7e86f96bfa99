use shiritori::syllable::{classify, is_terminal, RejectedChar, Syllable, TERMINAL};
use shiritori::validator::{endpoints, validate, RejectReason, ValidationOutcome};
use shiritori::word::Word;

fn syllable(c: char) -> Syllable {
    classify(c).unwrap()
}

fn word(text: &str) -> Word {
    Word::new(1, text.to_string(), "player".to_string()).unwrap()
}

#[test]
fn classify_accepts_hiragana() {
    assert_eq!(classify('あ').map(|s| s.get()), Ok('あ'));
    assert_eq!(classify('ん').map(|s| s.get()), Ok('ん'));
    assert_eq!(classify('ゟ').map(|s| s.get()), Ok('ゟ'));
}

#[test]
fn classify_rejects_other_scripts() {
    assert_eq!(classify('a'), Err(RejectedChar { ch: 'a' }));
    assert_eq!(classify('ア'), Err(RejectedChar { ch: 'ア' }));
    assert_eq!(classify('鼠'), Err(RejectedChar { ch: '鼠' }));
    assert_eq!(classify(' '), Err(RejectedChar { ch: ' ' }));
}

#[test]
fn classify_at_the_bounds_of_the_block() {
    assert!(classify('\u{3040}').is_err());
    assert!(classify('\u{3041}').is_ok());
    assert!(classify('\u{309f}').is_ok());
    assert!(classify('\u{30a0}').is_err());
}

#[test]
fn classify_agrees_with_kanji() {
    for code in 0x3000u32..0x3100 {
        let c = char::from_u32(code).unwrap();
        assert_eq!(classify(c).is_ok(), kanji::is_hiragana(c));
        assert_eq!(classify(c).is_ok(), kanji::Hiragana::new(c).is_some());
    }
}

#[test]
fn terminal_is_n() {
    assert_eq!(TERMINAL, 'ん');
    assert!(is_terminal(syllable('ん')));
    assert!(!is_terminal(syllable('ね')));
    assert!(!is_terminal(syllable('あ')));
}

#[test]
fn endpoints_of_a_word() {
    assert_eq!(endpoints("きつね"), Ok((syllable('き'), syllable('ね'))));
    assert_eq!(endpoints("き"), Ok((syllable('き'), syllable('き'))));
    assert_eq!(endpoints(""), Err(RejectReason::EmptyInput));
    assert_eq!(endpoints("きtね"), Err(RejectReason::NonSyllabicInput));
    assert_eq!(endpoints("きつn"), Err(RejectReason::NonSyllabicInput));
}

#[test]
fn validate_empty_is_rejected() {
    assert_eq!(
        validate("", None),
        ValidationOutcome::Rejected(RejectReason::EmptyInput)
    );
    let previous = word("ゆき");
    assert_eq!(
        validate("", Some(&previous)),
        ValidationOutcome::Rejected(RejectReason::EmptyInput)
    );
}

#[test]
fn validate_non_syllabic_is_rejected() {
    assert_eq!(
        validate("abc", None),
        ValidationOutcome::Rejected(RejectReason::NonSyllabicInput)
    );
    assert_eq!(
        validate("キツネ", None),
        ValidationOutcome::Rejected(RejectReason::NonSyllabicInput)
    );
    assert_eq!(
        validate("きつne", None),
        ValidationOutcome::Rejected(RejectReason::NonSyllabicInput)
    );
}

#[test]
fn validate_non_syllabic_comes_before_the_terminal_check() {
    assert_eq!(
        validate("aん", None),
        ValidationOutcome::Rejected(RejectReason::NonSyllabicInput)
    );
}

#[test]
fn validate_playable_after_matching_word() {
    let previous = word("ゆき");
    assert_eq!(
        validate("きつね", Some(&previous)),
        ValidationOutcome::Playable {
            first: syllable('き'),
            last: syllable('ね'),
        }
    );
}

#[test]
fn validate_first_word_is_playable() {
    assert_eq!(
        validate("いぬ", None),
        ValidationOutcome::Playable {
            first: syllable('い'),
            last: syllable('ぬ'),
        }
    );
}

#[test]
fn validate_chain_mismatch() {
    let previous = word("ゆき");
    assert_eq!(
        validate("いぬ", Some(&previous)),
        ValidationOutcome::Rejected(RejectReason::ChainMismatch {
            required: syllable('き'),
            got: syllable('い'),
        })
    );
}

#[test]
fn validate_terminal_ending_is_loss() {
    assert_eq!(validate("めん", None), ValidationOutcome::Loss);
    let matching = word("あめ");
    assert_eq!(validate("めん", Some(&matching)), ValidationOutcome::Loss);
}

#[test]
fn validate_loss_wins_over_chain_mismatch() {
    let previous = word("ゆき");
    assert_eq!(validate("めん", Some(&previous)), ValidationOutcome::Loss);
}

#[test]
fn validate_single_character_words() {
    let previous = word("ゆき");
    assert_eq!(
        validate("き", Some(&previous)),
        ValidationOutcome::Playable {
            first: syllable('き'),
            last: syllable('き'),
        }
    );
    assert_eq!(
        validate("い", Some(&previous)),
        ValidationOutcome::Rejected(RejectReason::ChainMismatch {
            required: syllable('き'),
            got: syllable('い'),
        })
    );
    assert_eq!(validate("ん", Some(&previous)), ValidationOutcome::Loss);
    assert_eq!(validate("ん", None), ValidationOutcome::Loss);
}

#[test]
fn word_new_keeps_its_parts() {
    let w = Word::new(42, "きつね".to_string(), "Fox".to_string()).unwrap();
    assert_eq!(w.author(), 42);
    assert_eq!(w.word(), "きつね");
    assert_eq!(w.display_name(), "Fox");
    assert_eq!(w.first(), syllable('き'));
    assert_eq!(w.last(), syllable('ね'));
    assert_eq!(w.clone(), w);
}

#[test]
fn word_new_rejects_what_is_no_word() {
    assert_eq!(
        Word::new(1, String::new(), "p".to_string()),
        Err(RejectReason::EmptyInput)
    );
    assert_eq!(
        Word::new(1, "fox".to_string(), "p".to_string()),
        Err(RejectReason::NonSyllabicInput)
    );
}

#[test]
fn word_new_takes_a_terminal_ending() {
    let w = Word::new(1, "めん".to_string(), "p".to_string()).unwrap();
    assert!(is_terminal(w.last()));
}
