use carapax::command::{parse_args, split, utf16_length, CommandError};

fn parsed(text: &str, offset: usize, length: usize) -> Vec<String> {
    parse_args(text, offset, length).unwrap()
}

#[test]
fn quoted_and_bare_arguments() {
    assert_eq!(
        parsed("/testcommand 'arg1 v' arg2", 0, 12),
        vec![String::from("arg1 v"), String::from("arg2")]
    );
}

#[test]
fn double_quotes_keep_whitespace() {
    assert_eq!(
        parsed("/c \"a  b\" c", 0, 2),
        vec![String::from("a  b"), String::from("c")]
    );
}

#[test]
fn quoted_run_inside_a_word_is_one_token() {
    assert_eq!(parsed("/c a'b c'd", 0, 2), vec![String::from("ab cd")]);
}

#[test]
fn empty_quotes_give_an_empty_argument() {
    assert_eq!(parsed("/c '' x", 0, 2), vec![String::from(""), String::from("x")]);
}

#[test]
fn no_trailing_text_gives_no_arguments() {
    assert_eq!(parsed("/c", 0, 2), Vec::<String>::new());
    assert_eq!(parsed("/c   ", 0, 2), Vec::<String>::new());
}

#[test]
fn unterminated_quote_is_mismatched_quotes() {
    assert_eq!(
        parse_args("/cmd 'unterminated", 0, 4),
        Err(CommandError::MismatchedQuotes)
    );
    assert_eq!(split("a 'b"), Err(CommandError::MismatchedQuotes));
    assert_eq!(split("\""), Err(CommandError::MismatchedQuotes));
}

#[test]
fn quote_of_the_other_kind_is_literal_inside_a_run() {
    assert_eq!(split("'a \"b' c").unwrap(), vec![
        String::from("a \"b"),
        String::from("c")
    ]);
}

// Spans are measured in UTF-16 code units: a character outside the basic
// multilingual plane counts as two units.
#[test]
fn spans_count_utf16_units() {
    // "😀" is two UTF-16 units, so the command "/😀" spans three.
    let text = "/\u{1F600} one two";
    assert_eq!(utf16_length(text), 11);
    assert_eq!(
        parse_args(text, 0, 3).unwrap(),
        vec![String::from("one"), String::from("two")]
    );
}

// A span end that falls between the two units of one character's UTF-16
// encoding cannot be decoded back to text.
#[test]
fn span_end_inside_surrogate_pair_is_a_decode_failure() {
    let text = "\u{1F600}abc";
    assert_eq!(parse_args(text, 0, 1), Err(CommandError::FromUtf16));
    assert_eq!(parse_args(text, 0, 2).unwrap(), vec![String::from("abc")]);
}

#[test]
fn span_covering_whole_text_gives_no_arguments() {
    assert_eq!(parsed("/done", 0, 5), Vec::<String>::new());
}
