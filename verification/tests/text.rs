use todo_list::command::{Choice, Command};
use todo_list::text::{parse_id, same_text};

#[test]
fn same_text_tells_equal_from_different() {
    assert!(same_text("", ""));
    assert!(same_text("view", "view"));
    assert!(!same_text("view", "vieW"));
    assert!(!same_text("view", "view "));
    assert!(!same_text("view", "vie"));
    assert!(!same_text("", "a"));
}

#[test]
fn same_text_compares_beyond_ascii() {
    assert!(same_text("\u{fc}ber", "\u{fc}ber"));
    assert!(!same_text("\u{fc}ber", "uber"));
    assert!(!same_text("\u{e9}", "\u{e8}"));
    assert!(same_text("\u{65e5}\u{672c}\u{8a9e}", "\u{65e5}\u{672c}\u{8a9e}"));
}

#[test]
fn parse_id_reads_decimal_numbers() {
    assert_eq!(parse_id("0"), Some(0));
    assert_eq!(parse_id("1"), Some(1));
    assert_eq!(parse_id("42"), Some(42));
    assert_eq!(parse_id("1234567890"), Some(1234567890));
}

#[test]
fn parse_id_accepts_a_plus_sign_and_leading_zeros() {
    assert_eq!(parse_id("+7"), Some(7));
    assert_eq!(parse_id("007"), Some(7));
    assert_eq!(parse_id("+000"), Some(0));
}

#[test]
fn parse_id_refuses_what_is_not_a_number() {
    for word in ["", "+", "-", "-1", "++1", "1+", "view", "12a", "a12", "1 2", " 1", "1 ", "1\n", "1.0", "1_000", "0x10"] {
        assert_eq!(parse_id(word), None, "{:?}", word);
    }
}

#[test]
fn parse_id_refuses_digits_beyond_ascii() {
    assert_eq!(parse_id("\u{ff11}\u{ff12}"), None);
    assert_eq!(parse_id("1\u{662}"), None);
    assert_eq!(parse_id("\u{e9}"), None);
}

#[test]
fn parse_id_takes_the_largest_word_and_no_more() {
    let largest = format!("{}", usize::MAX);
    assert_eq!(parse_id(&largest), Some(usize::MAX));
    assert_eq!(parse_id(&format!("+{}", largest)), Some(usize::MAX));
    assert_eq!(parse_id(&format!("{}0", largest)), None);
    assert_eq!(parse_id(&format!("1{}", largest)), None);
    assert_eq!(parse_id("99999999999999999999999999999999999999999"), None);
    let next = format!("{}", usize::MAX as u128 + 1);
    assert_eq!(parse_id(&next), None);
    let before = format!("{}", usize::MAX - 1);
    assert_eq!(parse_id(&before), Some(usize::MAX - 1));
}

#[test]
fn parse_id_agrees_with_the_standard_parser() {
    let mut words: Vec<String> = Vec::new();
    for n in 0..300usize {
        words.push(format!("{}", n));
        words.push(format!("+{}", n));
        words.push(format!("-{}", n));
        words.push(format!("0{}", n));
        words.push(format!("{} ", n));
        words.push(format!("{}x", n));
    }
    for word in words {
        assert_eq!(parse_id(&word), word.parse::<usize>().ok(), "{:?}", word);
    }
}

#[test]
fn commands_are_read_from_the_exact_word() {
    assert_eq!(Command::parse("new"), Command::New);
    assert_eq!(Command::parse("modify"), Command::Modify);
    assert_eq!(Command::parse("delete"), Command::Delete);
    assert_eq!(Command::parse("view"), Command::List);
    assert_eq!(Command::parse("ls"), Command::List);
    assert_eq!(Command::parse("help"), Command::Help);
    assert_eq!(Command::parse("quit"), Command::Quit);
}

#[test]
fn other_words_are_no_command() {
    for word in ["", "New", "QUIT", "new ", " new", "news", "list", "exit", "del", "view\n"] {
        assert_eq!(Command::parse(word), Command::Unknown, "{:?}", word);
    }
}

#[test]
fn choices_are_the_letters_a_b_c() {
    assert_eq!(Choice::parse("a"), Choice::Title);
    assert_eq!(Choice::parse("b"), Choice::Desc);
    assert_eq!(Choice::parse("c"), Choice::Status);
    for word in ["", "A", "d", "ab", "a ", "1", "title"] {
        assert_eq!(Choice::parse(word), Choice::Unknown, "{:?}", word);
    }
}
