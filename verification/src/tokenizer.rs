//! The lexer: from a line of text to a sequence of tokens.
//!
//! Lexing takes three steps. [`Tokenizer::describe`] asks the Unicode tables
//! about every character. [`Tokenizer::scan`] cuts the described characters
//! into tokens, every word an identifier. [`Tokenizer::classify_token`] then
//! tells the reserved words from the identifiers by their upper-case form.
//! [`Tokenizer::tokenize`] does all three.

use crate::errors::{
    followed_by, lemma_followed_by_nothing, lemma_followed_by_push, DatabaseError, ErrorView,
};
use crate::text::{alphanumeric, numeric, uppercase, whitespace};
use vstd::prelude::*;
use vstd::string::StringExecFns;

verus! {

/// One lexical unit of a statement.
#[derive(Debug, Clone, PartialEq)]
pub enum Token {
    /// A reserved word, spelled as the input spelled it.
    Keyword(String),
    /// A word that is not reserved.
    Identifier(String),
    /// A number, or the text between two single quotes.
    Literal(String),
    /// One of `= < > + - * /`.
    Operator(char),
    /// One of `( ) ,`.
    Punctuation(char),
}

/// The mathematical value of a [`Token`].
pub enum TokenView {
    Keyword(Seq<char>),
    Identifier(Seq<char>),
    Literal(Seq<char>),
    Operator(char),
    Punctuation(char),
}

impl View for Token {
    type V = TokenView;

    open spec fn view(&self) -> TokenView {
        match self {
            Token::Keyword(word) => TokenView::Keyword(word@),
            Token::Identifier(word) => TokenView::Identifier(word@),
            Token::Literal(text) => TokenView::Literal(text@),
            Token::Operator(c) => TokenView::Operator(*c),
            Token::Punctuation(c) => TokenView::Punctuation(*c),
        }
    }
}

impl DeepView for Token {
    type V = TokenView;

    open spec fn deep_view(&self) -> TokenView {
        self@
    }
}

/// A character of the input, with what the Unicode tables say of it.
#[derive(Debug, Clone, Copy)]
pub struct CharInfo {
    /// The character.
    pub ch: char,
    /// Whether it is alphabetic or numeric, and so continues a word.
    pub alphanumeric: bool,
    /// Whether it is numeric, and so continues a number.
    pub numeric: bool,
    /// Whether it is white space, and so separates tokens.
    pub whitespace: bool,
}

/// A character with its true description.
pub open spec fn char_info(c: char) -> CharInfo {
    CharInfo {
        ch: c,
        alphanumeric: alphanumeric(c),
        numeric: numeric(c),
        whitespace: whitespace(c),
    }
}

/// The characters of a text, each with its true description.
pub open spec fn described(s: Seq<char>) -> Seq<CharInfo> {
    Seq::new(s.len(), |i: int| char_info(s[i]))
}

/// The ASCII white space: space, tab, line feed, vertical tab, form feed and
/// carriage return.
pub open spec fn is_ascii_space(c: char) -> bool {
    c == ' ' || c == '\t' || c == '\n' || c == '\x0B' || c == '\x0C' || c == '\r'
}

/// The characters that separate tokens and are skipped: the ASCII white
/// space, and every character that is described as white space.
pub open spec fn is_space(c: CharInfo) -> bool {
    is_ascii_space(c.ch) || c.whitespace
}

/// The ASCII letters, with which a word begins.
pub open spec fn is_ascii_letter(c: char) -> bool {
    ('a' <= c && c <= 'z') || ('A' <= c && c <= 'Z')
}

/// The ASCII digits, with which a number begins.
pub open spec fn is_ascii_digit(c: char) -> bool {
    '0' <= c && c <= '9'
}

/// The characters that are operator tokens by themselves.
pub open spec fn is_operator(c: char) -> bool {
    c == '=' || c == '<' || c == '>' || c == '+' || c == '-' || c == '*' || c == '/'
}

/// The characters that are punctuation tokens by themselves.
pub open spec fn is_punctuation(c: char) -> bool {
    c == '(' || c == ')' || c == ','
}

/// The first position at or after `from` whose character does not satisfy
/// `keep`, or the end of the text when every character from there on does.
pub open spec fn run_end(s: Seq<CharInfo>, from: int, keep: spec_fn(CharInfo) -> bool) -> int
    decreases s.len() - from,
{
    if 0 <= from < s.len() && keep(s[from]) {
        run_end(s, from + 1, keep)
    } else {
        from
    }
}

/// Where the run of word characters that starts at `from` ends.
pub open spec fn word_end(s: Seq<CharInfo>, from: int) -> int {
    run_end(s, from, |c: CharInfo| c.alphanumeric)
}

/// Where the run of numeric characters and dots that starts at `from` ends.
pub open spec fn number_end(s: Seq<CharInfo>, from: int) -> int {
    run_end(s, from, |c: CharInfo| c.numeric || c.ch == '.')
}

/// The position of the first single quote at or after `from`, or the end of
/// the text when there is none.
pub open spec fn quote_end(s: Seq<CharInfo>, from: int) -> int {
    run_end(s, from, |c: CharInfo| c.ch != '\'')
}

/// The characters from `from` up to `to`, without their descriptions.
pub open spec fn text_between(s: Seq<CharInfo>, from: int, to: int) -> Seq<char> {
    Seq::new((to - from) as nat, |i: int| s[from + i].ch)
}

/// The token that begins at `pos`, with the position just behind its text, or
/// `None` where no token can begin with the character at `pos`.
///
/// A word is an ASCII letter and the run of word characters behind it. A
/// number is an ASCII digit and the run of numeric characters and dots behind
/// it. A quoted text runs from behind a single quote to the next single quote,
/// which is passed over, or to the end of the text where none follows.
pub open spec fn token_at(s: Seq<CharInfo>, pos: int) -> Option<(TokenView, int)> {
    let c = s[pos].ch;
    if is_ascii_letter(c) {
        let end = word_end(s, pos + 1);
        Some((TokenView::Identifier(text_between(s, pos, end)), end))
    } else if is_ascii_digit(c) {
        let end = number_end(s, pos + 1);
        Some((TokenView::Literal(text_between(s, pos, end)), end))
    } else if c == '\'' {
        let close = quote_end(s, pos + 1);
        let end = if close < s.len() {
            close + 1
        } else {
            close
        };
        Some((TokenView::Literal(text_between(s, pos + 1, close)), end))
    } else if is_operator(c) {
        Some((TokenView::Operator(c), pos + 1))
    } else if is_punctuation(c) {
        Some((TokenView::Punctuation(c), pos + 1))
    } else {
        None
    }
}

/// The error for a character with which no token begins.
pub open spec fn invalid_token(c: char) -> ErrorView {
    ErrorView::ParseError("Invalid token: "@.push(c))
}

/// The tokens of the text from `pos` on, every word an identifier; or the
/// error for the first character there with which no token begins.
pub open spec fn scanned_from(s: Seq<CharInfo>, pos: int) -> Result<Seq<TokenView>, ErrorView>
    decreases s.len() - pos,
    via scanned_from_terminates
{
    if pos < 0 || pos >= s.len() {
        Ok(Seq::empty())
    } else if is_space(s[pos]) {
        scanned_from(s, pos + 1)
    } else {
        match token_at(s, pos) {
            Some((token, end)) => followed_by(seq![token], scanned_from(s, end)),
            None => Err(invalid_token(s[pos].ch)),
        }
    }
}

#[via_fn]
proof fn scanned_from_terminates(s: Seq<CharInfo>, pos: int) {
    if 0 <= pos < s.len() {
        lemma_token_at_advances(s, pos);
    }
}

/// The tokens of a whole text, every word an identifier.
pub open spec fn scanned(s: Seq<CharInfo>) -> Result<Seq<TokenView>, ErrorView> {
    scanned_from(s, 0)
}

/// Whether an upper-case word is one of the nine reserved words.
pub open spec fn is_reserved(upper: Seq<char>) -> bool {
    upper == "CREATE"@ || upper == "TABLE"@ || upper == "INSERT"@ || upper == "INTO"@ || upper
        == "VALUES"@ || upper == "SELECT"@ || upper == "FROM"@ || upper == "DELETE"@ || upper
        == "WHERE"@
}

/// The token for a word whose upper-case form is `upper`.
pub open spec fn classify(word: Seq<char>, upper: Seq<char>) -> TokenView {
    if is_reserved(upper) {
        TokenView::Keyword(word)
    } else {
        TokenView::Identifier(word)
    }
}

/// A scanned token, its word told apart as reserved or not.
pub open spec fn classified(token: TokenView) -> TokenView {
    match token {
        TokenView::Identifier(word) => classify(word, uppercase(word)),
        other => other,
    }
}

/// The tokens of a text: those that scanning its described characters gives,
/// with the reserved words among them marked as keywords.
pub open spec fn lex(s: Seq<char>) -> Result<Seq<TokenView>, ErrorView> {
    match scanned(described(s)) {
        Ok(tokens) => Ok(tokens.map_values(|token: TokenView| classified(token))),
        Err(e) => Err(e),
    }
}

/// A run ends at or behind its start and within the text.
pub proof fn lemma_run_end_bounds(s: Seq<CharInfo>, from: int, keep: spec_fn(CharInfo) -> bool)
    requires
        0 <= from <= s.len(),
    ensures
        from <= run_end(s, from, keep) <= s.len(),
    decreases s.len() - from,
{
    if from < s.len() && keep(s[from]) {
        lemma_run_end_bounds(s, from + 1, keep);
    }
}

/// A token ends behind the position at which it begins, and within the text.
pub proof fn lemma_token_at_advances(s: Seq<CharInfo>, pos: int)
    requires
        0 <= pos < s.len(),
    ensures
        token_at(s, pos) matches Some((_, end)) ==> pos < end <= s.len(),
{
    lemma_run_end_bounds(s, pos + 1, |c: CharInfo| c.alphanumeric);
    lemma_run_end_bounds(s, pos + 1, |c: CharInfo| c.numeric || c.ch == '.');
    lemma_run_end_bounds(s, pos + 1, |c: CharInfo| c.ch != '\'');
}

/// A text of nothing but white space holds no token.
pub proof fn lemma_blank_text_has_no_tokens(s: Seq<char>)
    requires
        forall|i: int| 0 <= i < s.len() ==> is_space(char_info(#[trigger] s[i])),
    ensures
        lex(s) == Ok::<Seq<TokenView>, ErrorView>(Seq::empty()),
{
    assert forall|i: int| 0 <= i < described(s).len() implies is_space(
        #[trigger] described(s)[i],
    ) by {
        assert(is_space(char_info(s[i])));
    }
    lemma_blank_rest_has_no_tokens(described(s), 0);
    assert(Seq::<TokenView>::empty().map_values(|token: TokenView| classified(token))
        =~= Seq::<TokenView>::empty());
}

proof fn lemma_blank_rest_has_no_tokens(s: Seq<CharInfo>, pos: int)
    requires
        0 <= pos,
        forall|i: int| pos <= i < s.len() ==> is_space(#[trigger] s[i]),
    ensures
        scanned_from(s, pos) == Ok::<Seq<TokenView>, ErrorView>(Seq::empty()),
    decreases s.len() - pos,
{
    if pos < s.len() {
        assert(is_space(s[pos]));
        lemma_blank_rest_has_no_tokens(s, pos + 1);
    }
}

/// The lexer.
pub struct Tokenizer;

impl Tokenizer {
    /// Splits a line of text into its tokens.
    ///
    /// White space separates tokens and is dropped. The call fails at the
    /// first character with which no token begins, and names it.
    pub fn tokenize(input: &str) -> (r: Result<Vec<Token>, DatabaseError>)
        ensures
            match r {
                Ok(tokens) => lex(input@) == Ok::<Seq<TokenView>, ErrorView>(tokens.deep_view()),
                Err(e) => lex(input@) == Err::<Seq<TokenView>, ErrorView>(e@),
            },
    {
        let chars = Tokenizer::describe(input);
        let mut tokens = match Tokenizer::scan(&chars) {
            Ok(tokens) => tokens,
            Err(e) => {
                return Err(e);
            },
        };
        let ghost raw = tokens.deep_view();
        let mut at: usize = 0;
        while at < tokens.len()
            invariant
                at <= tokens.len(),
                tokens.len() == raw.len(),
                forall|i: int| 0 <= i < at ==> (#[trigger] tokens[i])@ == classified(raw[i]),
                forall|i: int| at <= i < tokens.len() ==> (#[trigger] tokens[i])@ == raw[i],
            decreases tokens.len() - at,
        {
            let token = match &tokens[at] {
                Token::Identifier(word) => {
                    let upper = word.as_str().to_uppercase();
                    Some(Tokenizer::classify_token(word.as_str(), upper.as_str()))
                },
                _ => None,
            };
            if let Some(token) = token {
                tokens[at] = token;
            }
            at += 1;
        }
        assert(tokens.deep_view() =~= raw.map_values(|token: TokenView| classified(token)));
        Ok(tokens)
    }

    /// Describes one character.
    pub fn describe_char(c: char) -> (info: CharInfo)
        ensures
            info == char_info(c),
    {
        CharInfo {
            ch: c,
            alphanumeric: c.is_alphanumeric(),
            numeric: c.is_numeric(),
            whitespace: c.is_whitespace(),
        }
    }

    /// Describes every character of a text.
    pub fn describe(input: &str) -> (chars: Vec<CharInfo>)
        ensures
            chars@ == described(input@),
    {
        let mut chars: Vec<CharInfo> = Vec::new();
        for c in it: input.chars()
            invariant
                it.seq() == input@,
                chars.len() == it.index(),
                forall|i: int| 0 <= i < chars.len() ==> chars[i] == char_info(input@[i]),
        {
            chars.push(Tokenizer::describe_char(c));
        }
        assert(chars@ =~= described(input@));
        chars
    }

    /// Cuts described characters into tokens, every word an identifier.
    ///
    /// White space is skipped. The descriptions are taken as they are given:
    /// whether they are true of their characters is not asked. What an ASCII
    /// character begins (a word, a number, a quoted text, a sign) or that it
    /// is white space is read off the character itself.
    pub fn scan(chars: &Vec<CharInfo>) -> (r: Result<Vec<Token>, DatabaseError>)
        ensures
            match r {
                Ok(tokens) => scanned(chars@) == Ok::<Seq<TokenView>, ErrorView>(
                    tokens.deep_view(),
                ),
                Err(e) => scanned(chars@) == Err::<Seq<TokenView>, ErrorView>(e@),
            },
    {
        let mut tokens: Vec<Token> = Vec::new();
        let mut pos: usize = 0;
        while pos < chars.len()
            invariant
                pos <= chars.len(),
                scanned(chars@) == followed_by(tokens.deep_view(), scanned_from(chars@, pos as int)),
            decreases chars.len() - pos,
        {
            let ghost done = tokens.deep_view();
            let ghost start = pos as int;
            let ch = chars[pos].ch;
            proof {
                lemma_token_at_advances(chars@, start);
            }
            match ch {
                ' ' | '\t' | '\n' | '\x0B' | '\x0C' | '\r' => {
                    pos += 1;
                },
                _ if chars[pos].whitespace => {
                    pos += 1;
                },
                'a'..='z' | 'A'..='Z' => {
                    let mut word = String::new();
                    word.push(ch);
                    pos += 1;
                    let rest = Tokenizer::collect_word(chars, &mut pos);
                    word.append(rest.as_str());
                    assert(word@ =~= text_between(chars@, start, pos as int));
                    tokens.push(Token::Identifier(word));
                },
                '0'..='9' | '\'' => {
                    let literal = Tokenizer::collect_literal(chars, &mut pos);
                    tokens.push(Token::Literal(literal));
                },
                '=' | '<' | '>' | '+' | '-' | '*' | '/' => {
                    tokens.push(Token::Operator(ch));
                    pos += 1;
                },
                '(' | ')' | ',' => {
                    tokens.push(Token::Punctuation(ch));
                    pos += 1;
                },
                _ => {
                    let mut reason = "Invalid token: ".to_string();
                    reason.push(ch);
                    return Err(DatabaseError::ParseError(reason));
                },
            }
            proof {
                if !is_space(chars@[start]) {
                    let token = token_at(chars@, start)->Some_0.0;
                    assert(tokens.deep_view() =~= done.push(token));
                    lemma_followed_by_push(done, token, scanned_from(chars@, pos as int));
                }
            }
        }
        proof {
            lemma_followed_by_nothing(tokens.deep_view());
        }
        Ok(tokens)
    }

    /// Collects the run of word characters that begins at `*pos`, and leaves
    /// `*pos` just behind it. Where the character at `*pos` is no word
    /// character, or the input ends there, the word is empty and `*pos` stays.
    fn collect_word(chars: &Vec<CharInfo>, pos: &mut usize) -> (word: String)
        requires
            *old(pos) <= chars.len(),
        ensures
            *final(pos) == word_end(chars@, *old(pos) as int),
            word@ == text_between(chars@, *old(pos) as int, *final(pos) as int),
    {
        let start = *pos;
        let mut end: usize = start;
        while end < chars.len() && chars[end].alphanumeric
            invariant
                start <= end <= chars.len(),
                word_end(chars@, start as int) == word_end(chars@, end as int),
            decreases chars.len() - end,
        {
            end += 1;
        }
        *pos = end;
        Tokenizer::text_of(chars, start, end)
    }

    /// Collects the literal that begins at `*pos`. Behind a single quote, it
    /// is the text up to the next single quote, or up to the end of the input
    /// where no quote follows. Otherwise it is the character at `*pos` and the
    /// run of numeric characters and dots behind it. Leaves `*pos` behind the
    /// literal and its closing quote.
    fn collect_literal(chars: &Vec<CharInfo>, pos: &mut usize) -> (literal: String)
        requires
            *old(pos) < chars.len(),
        ensures
            chars[*old(pos) as int].ch != '\'' ==> {
                &&& *final(pos) == number_end(chars@, *old(pos) + 1)
                &&& literal@ == text_between(chars@, *old(pos) as int, *final(pos) as int)
            },
            chars[*old(pos) as int].ch == '\'' ==> {
                let close = quote_end(chars@, *old(pos) + 1);
                &&& *final(pos) == if close < chars.len() {
                    close + 1
                } else {
                    close
                }
                &&& literal@ == text_between(chars@, *old(pos) + 1, close)
            },
    {
        let start = *pos;
        let mut end: usize = start + 1;
        if chars[start].ch != '\'' {
            while end < chars.len() && (chars[end].numeric || chars[end].ch == '.')
                invariant
                    start < end <= chars.len(),
                    number_end(chars@, start + 1) == number_end(chars@, end as int),
                decreases chars.len() - end,
            {
                end += 1;
            }
            *pos = end;
            Tokenizer::text_of(chars, start, end)
        } else {
            while end < chars.len() && chars[end].ch != '\''
                invariant
                    start < end <= chars.len(),
                    quote_end(chars@, start + 1) == quote_end(chars@, end as int),
                decreases chars.len() - end,
            {
                end += 1;
            }
            if end < chars.len() {
                *pos = end + 1;
            } else {
                *pos = end;
            }
            Tokenizer::text_of(chars, start + 1, end)
        }
    }

    /// Tells a reserved word from an identifier, given the word and its
    /// upper-case form.
    pub fn classify_token(word: &str, upper: &str) -> (token: Token)
        ensures
            token@ == classify(word@, upper@),
    {
        if upper.eq("CREATE") || upper.eq("TABLE") || upper.eq("INSERT") || upper.eq("INTO")
            || upper.eq("VALUES") || upper.eq("SELECT") || upper.eq("FROM") || upper.eq("DELETE")
            || upper.eq("WHERE") {
            Token::Keyword(word.to_string())
        } else {
            Token::Identifier(word.to_string())
        }
    }

    /// The characters from `from` up to `to` as a string.
    fn text_of(chars: &Vec<CharInfo>, from: usize, to: usize) -> (text: String)
        requires
            from <= to <= chars.len(),
        ensures
            text@ == text_between(chars@, from as int, to as int),
    {
        let mut text = String::new();
        let mut i: usize = from;
        while i < to
            invariant
                from <= i <= to <= chars.len(),
                text@ == text_between(chars@, from as int, i as int),
            decreases to - i,
        {
            text.push(chars[i].ch);
            assert(text@ =~= text_between(chars@, from as int, i + 1));
            i += 1;
        }
        text
    }
}

} // verus!
