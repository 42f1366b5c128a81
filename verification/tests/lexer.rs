use rust_db::errors::DatabaseError;
use rust_db::tokenizer::{CharInfo, Token, Tokenizer};

fn keyword(word: &str) -> Token {
    Token::Keyword(word.to_string())
}

fn identifier(word: &str) -> Token {
    Token::Identifier(word.to_string())
}

fn literal(text: &str) -> Token {
    Token::Literal(text.to_string())
}

fn lex_failure(input: &str) -> String {
    match Tokenizer::tokenize(input) {
        Err(DatabaseError::ParseError(reason)) => reason,
        other => panic!("expected a parse error, got {:?}", other),
    }
}

fn plain(c: char, alphanumeric: bool, numeric: bool) -> CharInfo {
    CharInfo { ch: c, alphanumeric, numeric, whitespace: false }
}

fn space(c: char) -> CharInfo {
    CharInfo { ch: c, alphanumeric: false, numeric: false, whitespace: true }
}

#[test]
fn tokenize_insert_statement() {
    let tokens = Tokenizer::tokenize("INSERT INTO t VALUES ('a', 'b')").unwrap();
    assert_eq!(
        tokens,
        vec![
            keyword("INSERT"),
            keyword("INTO"),
            identifier("t"),
            keyword("VALUES"),
            Token::Punctuation('('),
            literal("a"),
            Token::Punctuation(','),
            literal("b"),
            Token::Punctuation(')'),
        ]
    );
}

#[test]
fn tokenize_empty_input_gives_no_tokens() {
    assert_eq!(Tokenizer::tokenize("").unwrap(), Vec::<Token>::new());
}

#[test]
fn tokenize_blank_input_gives_no_tokens() {
    assert_eq!(Tokenizer::tokenize("  \t\n ").unwrap(), Vec::<Token>::new());
}

#[test]
fn tokenize_keeps_the_spelling_of_keywords() {
    let tokens = Tokenizer::tokenize("select Select SELECT sElEcT").unwrap();
    assert_eq!(
        tokens,
        vec![keyword("select"), keyword("Select"), keyword("SELECT"), keyword("sElEcT")]
    );
}

#[test]
fn tokenize_knows_the_nine_reserved_words() {
    let tokens =
        Tokenizer::tokenize("create table insert into values select from delete where").unwrap();
    assert_eq!(
        tokens,
        vec![
            keyword("create"),
            keyword("table"),
            keyword("insert"),
            keyword("into"),
            keyword("values"),
            keyword("select"),
            keyword("from"),
            keyword("delete"),
            keyword("where"),
        ]
    );
}

#[test]
fn tokenize_other_words_are_identifiers() {
    let tokens = Tokenizer::tokenize("users t1 selects drop x9y").unwrap();
    assert_eq!(
        tokens,
        vec![
            identifier("users"),
            identifier("t1"),
            identifier("selects"),
            identifier("drop"),
            identifier("x9y"),
        ]
    );
}

#[test]
fn tokenize_numbers_take_digits_and_dots() {
    let tokens = Tokenizer::tokenize("12.5 1.2.3 7. 42").unwrap();
    assert_eq!(tokens, vec![literal("12.5"), literal("1.2.3"), literal("7."), literal("42")]);
}

#[test]
fn tokenize_number_ends_where_a_letter_begins() {
    let tokens = Tokenizer::tokenize("12abc").unwrap();
    assert_eq!(tokens, vec![literal("12"), identifier("abc")]);
}

#[test]
fn tokenize_quoted_text_keeps_spaces_and_signs() {
    let tokens = Tokenizer::tokenize("'hello world' 'a;b_c\"d'").unwrap();
    assert_eq!(tokens, vec![literal("hello world"), literal("a;b_c\"d")]);
}

#[test]
fn tokenize_empty_quotes_give_an_empty_literal() {
    assert_eq!(Tokenizer::tokenize("''").unwrap(), vec![literal("")]);
}

#[test]
fn tokenize_unterminated_quote_runs_to_the_end() {
    assert_eq!(Tokenizer::tokenize("'abc def").unwrap(), vec![literal("abc def")]);
    assert_eq!(Tokenizer::tokenize("x '").unwrap(), vec![identifier("x"), literal("")]);
}

#[test]
fn tokenize_quotes_need_no_space_between() {
    assert_eq!(Tokenizer::tokenize("'a''b'").unwrap(), vec![literal("a"), literal("b")]);
}

#[test]
fn tokenize_operators() {
    let tokens = Tokenizer::tokenize("= < > + - * /").unwrap();
    assert_eq!(
        tokens,
        vec![
            Token::Operator('='),
            Token::Operator('<'),
            Token::Operator('>'),
            Token::Operator('+'),
            Token::Operator('-'),
            Token::Operator('*'),
            Token::Operator('/'),
        ]
    );
}

#[test]
fn tokenize_punctuation_without_spaces() {
    let tokens = Tokenizer::tokenize("(a,b)").unwrap();
    assert_eq!(
        tokens,
        vec![
            Token::Punctuation('('),
            identifier("a"),
            Token::Punctuation(','),
            identifier("b"),
            Token::Punctuation(')'),
        ]
    );
}

#[test]
fn tokenize_select_star() {
    let tokens = Tokenizer::tokenize("SELECT * FROM t").unwrap();
    assert_eq!(
        tokens,
        vec![keyword("SELECT"), Token::Operator('*'), keyword("FROM"), identifier("t")]
    );
}

#[test]
fn tokenize_names_the_first_invalid_character() {
    assert_eq!(lex_failure("SELECT ; #"), "Invalid token: ;");
    assert_eq!(lex_failure("a_b"), "Invalid token: _");
    assert_eq!(lex_failure(".5"), "Invalid token: .");
    assert_eq!(lex_failure("\"x\""), "Invalid token: \"");
}

#[test]
fn tokenize_line_that_ends_in_carriage_return_and_line_feed() {
    let tokens = Tokenizer::tokenize("SELECT * FROM t\r\n").unwrap();
    assert_eq!(
        tokens,
        vec![keyword("SELECT"), Token::Operator('*'), keyword("FROM"), identifier("t")]
    );
}

#[test]
fn tokenize_skips_every_ascii_white_space() {
    let tokens = Tokenizer::tokenize("a\rb\x0Bc\x0Cd\te\nf g").unwrap();
    assert_eq!(
        tokens,
        vec![
            identifier("a"),
            identifier("b"),
            identifier("c"),
            identifier("d"),
            identifier("e"),
            identifier("f"),
            identifier("g"),
        ]
    );
}

#[test]
fn tokenize_skips_unicode_white_space() {
    let tokens = Tokenizer::tokenize("\u{a0}a\u{2003}1\u{3000}\u{85}(\u{2028}").unwrap();
    assert_eq!(tokens, vec![identifier("a"), literal("1"), Token::Punctuation('(')]);
}

#[test]
fn tokenize_white_space_only_gives_no_tokens() {
    assert_eq!(Tokenizer::tokenize("\r\n").unwrap(), Vec::<Token>::new());
    assert_eq!(Tokenizer::tokenize(" \x0B\x0C\u{a0}").unwrap(), Vec::<Token>::new());
}

#[test]
fn tokenize_white_space_stays_inside_quotes() {
    assert_eq!(Tokenizer::tokenize("'a\r\n\u{a0}b'").unwrap(), vec![literal("a\r\n\u{a0}b")]);
}

#[test]
fn tokenize_zero_width_space_is_no_white_space() {
    assert_eq!(lex_failure("a\u{200b}b"), "Invalid token: \u{200b}");
}

#[test]
fn tokenize_word_goes_on_with_unicode_letters() {
    assert_eq!(Tokenizer::tokenize("caf\u{e9} x").unwrap(), vec![identifier("caf\u{e9}"), identifier("x")]);
}

#[test]
fn tokenize_word_begins_with_an_ascii_letter() {
    assert_eq!(lex_failure("\u{e9}t"), "Invalid token: \u{e9}");
}

#[test]
fn tokenize_keyword_by_unicode_upper_case() {
    // The long s has the capital S for its upper case.
    assert_eq!(Tokenizer::tokenize("in\u{17f}ert").unwrap(), vec![keyword("in\u{17f}ert")]);
}

#[test]
fn tokenize_number_goes_on_with_unicode_digits() {
    assert_eq!(Tokenizer::tokenize("1\u{663}.\u{bd}").unwrap(), vec![literal("1\u{663}.\u{bd}")]);
}

#[test]
fn tokenize_number_begins_with_an_ascii_digit() {
    assert_eq!(lex_failure("\u{663}"), "Invalid token: \u{663}");
}

#[test]
fn describe_asks_the_unicode_tables() {
    let chars = Tokenizer::describe("a1 \u{e9}\u{bd}\r\u{2003}");
    let found: Vec<(char, bool, bool, bool)> =
        chars.iter().map(|c| (c.ch, c.alphanumeric, c.numeric, c.whitespace)).collect();
    assert_eq!(
        found,
        vec![
            ('a', true, false, false),
            ('1', true, true, false),
            (' ', false, false, true),
            ('\u{e9}', true, false, false),
            ('\u{bd}', true, true, false),
            ('\r', false, false, true),
            ('\u{2003}', false, false, true),
        ]
    );
}

#[test]
fn describe_char_of_a_sign() {
    let info = Tokenizer::describe_char('-');
    assert_eq!(
        (info.ch, info.alphanumeric, info.numeric, info.whitespace),
        ('-', false, false, false)
    );
    let info = Tokenizer::describe_char('\x0C');
    assert_eq!(
        (info.ch, info.alphanumeric, info.numeric, info.whitespace),
        ('\x0C', false, false, true)
    );
}

#[test]
fn scan_goes_by_the_descriptions_given() {
    // `b` is described as no word character, so the word ends before it and
    // another begins with it.
    let chars = vec![plain('a', true, false), plain('b', false, false), plain('c', true, false)];
    assert_eq!(Tokenizer::scan(&chars).unwrap(), vec![identifier("a"), identifier("bc")]);
}

#[test]
fn scan_skips_what_is_described_as_white_space() {
    let chars = vec![plain('a', true, false), space('#'), space('\u{a0}'), plain('b', true, false)];
    assert_eq!(Tokenizer::scan(&chars).unwrap(), vec![identifier("a"), identifier("b")]);
}

#[test]
fn scan_skips_ascii_white_space_however_described() {
    let chars = vec![
        plain('a', true, false),
        plain('\r', false, false),
        plain('\n', false, false),
        plain(' ', false, false),
        plain('\t', false, false),
        plain('\x0B', false, false),
        plain('\x0C', false, false),
        plain('b', true, false),
    ];
    assert_eq!(Tokenizer::scan(&chars).unwrap(), vec![identifier("a"), identifier("b")]);
}

#[test]
fn scan_begins_a_word_with_a_letter_however_described() {
    let chars = vec![plain('a', false, false), plain('#', true, false), plain('1', true, true)];
    assert_eq!(Tokenizer::scan(&chars).unwrap(), vec![identifier("a#1")]);
}

#[test]
fn scan_leaves_every_word_an_identifier() {
    let chars = Tokenizer::describe("select x");
    assert_eq!(Tokenizer::scan(&chars).unwrap(), vec![identifier("select"), identifier("x")]);
}

#[test]
fn scan_number_by_the_descriptions_given() {
    let chars = vec![plain('1', true, true), plain('x', true, true), plain('.', false, false), plain('2', true, false)];
    assert_eq!(Tokenizer::scan(&chars).unwrap(), vec![literal("1x."), literal("2")]);
}

#[test]
fn scan_reports_an_invalid_character() {
    let chars = vec![plain('a', true, false), plain('?', false, false)];
    match Tokenizer::scan(&chars) {
        Err(DatabaseError::ParseError(reason)) => assert_eq!(reason, "Invalid token: ?"),
        other => panic!("expected a parse error, got {:?}", other),
    }
}

#[test]
fn classify_token_goes_by_the_upper_case_form() {
    assert_eq!(Tokenizer::classify_token("select", "SELECT"), keyword("select"));
    assert_eq!(Tokenizer::classify_token("Where", "WHERE"), keyword("Where"));
    assert_eq!(Tokenizer::classify_token("t", "T"), identifier("t"));
    assert_eq!(Tokenizer::classify_token("select", "select"), identifier("select"));
    assert_eq!(Tokenizer::classify_token("selects", "SELECTS"), identifier("selects"));
}
