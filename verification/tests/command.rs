use shiritori::command::{parse, route, Command};
use shiritori::constants::PREFIX;
use shiritori::text::{same_text, to_chars};
use shiritori::tokens::{flag_whitespace, split_where, split_whitespace};

#[test]
fn prefix_is_a_tilde() {
    assert_eq!(PREFIX, "~");
}

#[test]
fn to_chars_gives_the_characters() {
    assert_eq!(to_chars("きつね"), vec!['き', 'つ', 'ね']);
    assert_eq!(to_chars(""), Vec::<char>::new());
}

#[test]
fn same_text_compares_characters() {
    assert!(same_text("help", "help"));
    assert!(!same_text("help", "hel"));
    assert!(!same_text("help", "helq"));
    assert!(same_text("", ""));
}

#[test]
fn split_where_splits_at_the_flags() {
    let sep = vec![false, true, false, false, true, true, false];
    assert_eq!(split_where("a-bc--d", &sep), vec!["a", "bc", "d"]);
    let sep = vec![true, false, true];
    assert_eq!(split_where("-a-", &sep), vec!["a"]);
    let sep = vec![true, true];
    assert_eq!(split_where("--", &sep), Vec::<&str>::new());
    assert_eq!(split_where("", &vec![]), Vec::<&str>::new());
}

#[test]
fn split_where_with_other_flags_than_characters() {
    assert_eq!(split_where("a-b", &vec![]), vec!["a-b"]);
    assert_eq!(split_where("a-b", &vec![false, true]), vec!["a", "b"]);
    assert_eq!(split_where("a-b", &vec![false, true, false, true, true]), vec!["a", "b"]);
    assert_eq!(split_where("きつね", &vec![false, true, false]), vec!["き", "ね"]);
}

#[test]
fn flag_whitespace_flags_each_character() {
    assert_eq!(flag_whitespace("~ き\tx"), vec![false, true, false, true, false]);
    assert_eq!(flag_whitespace("\u{3000}\u{a0}_"), vec![true, true, false]);
    assert_eq!(flag_whitespace(""), Vec::<bool>::new());
}

#[test]
fn route_reads_tokens() {
    assert_eq!(route(&vec![]), Command::Ignored);
    assert_eq!(route(&vec!["hello"]), Command::Ignored);
    assert_eq!(route(&vec!["~~", "help"]), Command::Ignored);
    assert_eq!(route(&vec!["~"]), Command::Help);
    assert_eq!(route(&vec!["~", "help"]), Command::Help);
    assert_eq!(route(&vec!["~", "history"]), Command::History);
    assert_eq!(route(&vec!["~", "word"]), Command::ShowWord);
    assert_eq!(route(&vec!["~", "きつね"]), Command::Play("きつね".to_string()));
    assert_eq!(route(&vec!["~", "words"]), Command::Play("words".to_string()));
    assert_eq!(route(&vec!["~", "きつね", "ねこ"]), Command::NotRecognised);
    assert_eq!(route(&vec!["~", "help", "history"]), Command::NotRecognised);
}

#[test]
fn split_whitespace_gives_the_tokens() {
    assert_eq!(split_whitespace("~ きつね"), vec!["~", "きつね"]);
    assert_eq!(split_whitespace("  ~   help  "), vec!["~", "help"]);
    assert_eq!(split_whitespace("a"), vec!["a"]);
    assert_eq!(split_whitespace("a b c"), vec!["a", "b", "c"]);
    assert_eq!(split_whitespace(""), Vec::<&str>::new());
    assert_eq!(split_whitespace(" \t\n "), Vec::<&str>::new());
}

#[test]
fn split_whitespace_knows_unicode_whitespace() {
    assert_eq!(split_whitespace("~\u{3000}きつね"), vec!["~", "きつね"]);
    assert_eq!(split_whitespace("~\tきつね\r\n"), vec!["~", "きつね"]);
    assert_eq!(split_whitespace("~\u{a0}x\u{2003}y"), vec!["~", "x", "y"]);
    assert_eq!(split_whitespace("~_きつね"), vec!["~_きつね"]);
}

#[test]
fn split_whitespace_agrees_with_std() {
    let samples = [
        "",
        " ",
        "~",
        "~ history",
        " leading",
        "trailing ",
        "a  b\t\tc\n",
        "ゆき　きつね ねこ",
        "x\u{85}y\u{1680}z\u{2028}w",
    ];
    for s in samples.iter() {
        let expected: Vec<&str> = s.split_whitespace().collect();
        assert_eq!(split_whitespace(s), expected);
    }
}

#[test]
fn parse_without_prefix_is_ignored() {
    assert_eq!(parse("hello there"), Command::Ignored);
    assert_eq!(parse("!shiri help"), Command::Ignored);
    assert_eq!(parse("~help"), Command::Ignored);
    assert_eq!(parse(""), Command::Ignored);
    assert_eq!(parse("   "), Command::Ignored);
}

#[test]
fn parse_prefix_alone_is_help() {
    assert_eq!(parse("~"), Command::Help);
    assert_eq!(parse("  ~  "), Command::Help);
}

#[test]
fn parse_sub_commands() {
    assert_eq!(parse("~ help"), Command::Help);
    assert_eq!(parse("~ history"), Command::History);
    assert_eq!(parse("~ word"), Command::ShowWord);
}

#[test]
fn parse_any_other_token_is_a_word() {
    assert_eq!(parse("~ きつね"), Command::Play("きつね".to_string()));
    assert_eq!(parse("~ Help"), Command::Play("Help".to_string()));
    assert_eq!(parse("~ log_words"), Command::Play("log_words".to_string()));
    assert_eq!(parse("~\tきつね\n"), Command::Play("きつね".to_string()));
}

#[test]
fn parse_more_tokens_is_not_recognised() {
    assert_eq!(parse("~ きつね ねこ"), Command::NotRecognised);
    assert_eq!(parse("~ help me please"), Command::NotRecognised);
}

#[test]
fn needs_display_name_for_words_and_word_command() {
    assert!(Command::Play("きつね".to_string()).needs_display_name());
    assert!(Command::Play("きりん".to_string()).needs_display_name());
    assert!(!Command::Play("kitsune".to_string()).needs_display_name());
    assert!(!Command::Play(String::new()).needs_display_name());
    assert!(Command::ShowWord.needs_display_name());
    assert!(!Command::Help.needs_display_name());
    assert!(!Command::History.needs_display_name());
    assert!(!Command::Ignored.needs_display_name());
    assert!(!Command::NotRecognised.needs_display_name());
}
