use wheel::text::{split_lines, trim};
use wheel::GameState;

fn lines(text: &str) -> Vec<String> {
    split_lines(text)
}

#[test]
fn empty_text_has_no_lines() {
    assert_eq!(lines(""), Vec::<String>::new());
}

#[test]
fn final_line_feed_starts_no_line() {
    assert_eq!(lines("a\nb\n"), vec!["a".to_string(), "b".to_string()]);
    assert_eq!(lines("a\nb"), vec!["a".to_string(), "b".to_string()]);
    assert_eq!(lines("a"), vec!["a".to_string()]);
}

#[test]
fn empty_lines_are_lines() {
    assert_eq!(lines("\n"), vec!["".to_string()]);
    assert_eq!(lines("\n\n"), vec!["".to_string(), "".to_string()]);
    assert_eq!(lines("a\n\nb"), vec!["a".to_string(), "".to_string(), "b".to_string()]);
    assert_eq!(lines("\na"), vec!["".to_string(), "a".to_string()]);
}

#[test]
fn carriage_return_stays_in_the_line() {
    assert_eq!(lines("a\r\nb\r"), vec!["a\r".to_string(), "b\r".to_string()]);
}

#[test]
fn lines_of_text_beyond_ascii() {
    assert_eq!(
        lines("\u{e9}t\u{e9}\n\u{65e5}\u{672c}\n\u{1f600}"),
        vec!["\u{e9}t\u{e9}".to_string(), "\u{65e5}\u{672c}".to_string(), "\u{1f600}".to_string()]
    );
}

#[test]
fn trim_takes_white_space_from_both_ends() {
    assert_eq!(trim("  a b  "), "a b");
    assert_eq!(trim("\t\r\n a\u{a0}\u{3000}"), "a");
    assert_eq!(trim("a"), "a");
    assert_eq!(trim("a  b"), "a  b");
}

#[test]
fn trim_of_white_space_is_empty() {
    assert_eq!(trim(""), "");
    assert_eq!(trim(" "), "");
    assert_eq!(trim(" \t\n\r "), "");
}

#[test]
fn trim_keeps_what_is_no_white_space() {
    assert_eq!(trim("\u{200b}a\u{200b}"), "\u{200b}a\u{200b}");
    assert_eq!(trim(" \u{e9} "), "\u{e9}");
    assert_eq!(trim("_ _"), "_ _");
}

#[test]
fn trim_agrees_with_std_on_every_single_character() {
    for code in 0..0x3100u32 {
        if let Some(c) = char::from_u32(code) {
            let text = format!("{c}x{c}");
            assert_eq!(trim(&text), text.trim());
        }
    }
}

#[test]
fn game_starts_at_the_splash_screen() {
    assert_eq!(GameState::default(), GameState::Splash);
}
