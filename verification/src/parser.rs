//! The parser: from a sequence of tokens to one statement.
//!
//! Keywords are matched whatever the case of their letters. So parsing takes
//! two steps: [`Parser::normalize`] puts every keyword in upper case, and
//! [`Parser::parse_normalized`] reads the statement off the result.
//! [`Parser::parse`] does both.

use crate::errors::{
    followed_by, lemma_followed_by_nothing, lemma_followed_by_push, DatabaseError, ErrorView,
};
use crate::text::uppercase;
use crate::tokenizer::{Token, TokenView};
use vstd::prelude::*;

verus! {

/// A parsed statement.
#[derive(Debug)]
#[allow(inconsistent_fields)]
pub enum SqlStatement {
    /// `CREATE TABLE name ...`.
    CreateTable { table_name: String, columns: Vec<(String, String)> },
    /// `INSERT INTO name VALUES (...)`.
    Insert { table_name: String, values: Vec<String> },
    /// `SELECT ... FROM name`.
    Select { table_name: String, columns: Vec<String>, conditions: Option<String> },
    /// `DELETE FROM name`.
    Delete { table_name: String, conditions: Option<String> },
}

/// The mathematical value of a [`SqlStatement`].
#[allow(inconsistent_fields)]
pub enum StatementView {
    CreateTable { table_name: Seq<char>, columns: Seq<(Seq<char>, Seq<char>)> },
    Insert { table_name: Seq<char>, values: Seq<Seq<char>> },
    Select { table_name: Seq<char>, columns: Seq<Seq<char>>, conditions: Option<Seq<char>> },
    Delete { table_name: Seq<char>, conditions: Option<Seq<char>> },
}

impl View for SqlStatement {
    type V = StatementView;

    open spec fn view(&self) -> StatementView {
        match self {
            SqlStatement::CreateTable { table_name, columns } => StatementView::CreateTable {
                table_name: table_name@,
                columns: columns.deep_view(),
            },
            SqlStatement::Insert { table_name, values } => StatementView::Insert {
                table_name: table_name@,
                values: values.deep_view(),
            },
            SqlStatement::Select { table_name, columns, conditions } => StatementView::Select {
                table_name: table_name@,
                columns: columns.deep_view(),
                conditions: conditions.deep_view(),
            },
            SqlStatement::Delete { table_name, conditions } => StatementView::Delete {
                table_name: table_name@,
                conditions: conditions.deep_view(),
            },
        }
    }
}

impl StatementView {
    /// The table that the statement is about.
    pub open spec fn table_name(self) -> Seq<char> {
        match self {
            StatementView::CreateTable { table_name, .. } => table_name,
            StatementView::Insert { table_name, .. } => table_name,
            StatementView::Select { table_name, .. } => table_name,
            StatementView::Delete { table_name, .. } => table_name,
        }
    }
}

/// A parse failure with the given reason.
pub open spec fn parse_error<T>(reason: Seq<char>) -> Result<T, ErrorView> {
    Err(ErrorView::ParseError(reason))
}

/// The schema that every created table gets, whatever the statement lists.
pub open spec fn fixed_columns() -> Seq<(Seq<char>, Seq<char>)> {
    seq![("id"@, "INTEGER"@), ("name"@, "STRING"@)]
}

/// The column list that every `SELECT` records, whatever the statement lists.
pub open spec fn all_columns() -> Seq<Seq<char>> {
    seq!["*"@]
}

/// The table name that the token at `at` gives, or the error for a token
/// that is no identifier.
pub open spec fn table_name_at(tokens: Seq<TokenView>, at: int) -> Result<Seq<char>, ErrorView> {
    match tokens[at] {
        TokenView::Identifier(name) => Ok(name),
        _ => parse_error("Invalid table name"@),
    }
}

/// Whether a token is the keyword `VALUES`.
pub open spec fn is_values_keyword(token: TokenView) -> bool {
    token == TokenView::Keyword("VALUES"@)
}

/// Whether a token is the opening parenthesis.
pub open spec fn is_open_paren(token: TokenView) -> bool {
    token == TokenView::Punctuation('(')
}

/// The position of the first token at or after `from` that is `wanted`.
pub open spec fn first_index(
    tokens: Seq<TokenView>,
    from: int,
    wanted: spec_fn(TokenView) -> bool,
) -> Option<int>
    decreases tokens.len() - from,
{
    if from < 0 || from >= tokens.len() {
        None
    } else if wanted(tokens[from]) {
        Some(from)
    } else {
        first_index(tokens, from + 1, wanted)
    }
}

/// The position of the first `VALUES` keyword.
pub open spec fn values_position(tokens: Seq<TokenView>) -> Option<int> {
    first_index(tokens, 0, |token: TokenView| is_values_keyword(token))
}

/// The position of the first opening parenthesis at or after `from`.
pub open spec fn paren_position(tokens: Seq<TokenView>, from: int) -> Option<int> {
    first_index(tokens, from, |token: TokenView| is_open_paren(token))
}

/// The literals from `from` on, up to the first closing parenthesis or the
/// end of the tokens. Commas are passed over; any other token is an error.
pub open spec fn values_from(tokens: Seq<TokenView>, from: int) -> Result<
    Seq<Seq<char>>,
    ErrorView,
>
    decreases tokens.len() - from,
{
    if from < 0 || from >= tokens.len() {
        Ok(Seq::empty())
    } else {
        match tokens[from] {
            TokenView::Literal(value) => followed_by(seq![value], values_from(tokens, from + 1)),
            TokenView::Punctuation(c) => if c == ',' {
                values_from(tokens, from + 1)
            } else if c == ')' {
                Ok(Seq::empty())
            } else {
                parse_error("Invalid value in INSERT"@)
            },
            _ => parse_error("Invalid value in INSERT"@),
        }
    }
}

/// What a token sequence that begins with `CREATE` parses to.
pub open spec fn create_table_statement(tokens: Seq<TokenView>) -> Result<
    StatementView,
    ErrorView,
> {
    if tokens.len() < 3 {
        parse_error("Incomplete CREATE TABLE statement"@)
    } else {
        match table_name_at(tokens, 2) {
            Ok(table_name) => Ok(
                StatementView::CreateTable { table_name, columns: fixed_columns() },
            ),
            Err(e) => Err(e),
        }
    }
}

/// What a token sequence that begins with `INSERT` parses to.
pub open spec fn insert_statement(tokens: Seq<TokenView>) -> Result<StatementView, ErrorView> {
    if tokens.len() < 6 {
        parse_error("Incomplete INSERT statement"@)
    } else {
        match table_name_at(tokens, 2) {
            Err(e) => Err(e),
            Ok(table_name) => match values_position(tokens) {
                None => parse_error("Missing VALUES keyword"@),
                Some(keyword) => match paren_position(tokens, keyword) {
                    None => parse_error("Missing opening parenthesis"@),
                    Some(paren) => match values_from(tokens, paren + 1) {
                        Ok(values) => Ok(StatementView::Insert { table_name, values }),
                        Err(e) => Err(e),
                    },
                },
            },
        }
    }
}

/// What a token sequence that begins with `SELECT` parses to.
pub open spec fn select_statement(tokens: Seq<TokenView>) -> Result<StatementView, ErrorView> {
    if tokens.len() < 4 {
        parse_error("Incomplete SELECT statement"@)
    } else {
        match table_name_at(tokens, 3) {
            Ok(table_name) => Ok(
                StatementView::Select { table_name, columns: all_columns(), conditions: None },
            ),
            Err(e) => Err(e),
        }
    }
}

/// What a token sequence that begins with `DELETE` parses to.
pub open spec fn delete_statement(tokens: Seq<TokenView>) -> Result<StatementView, ErrorView> {
    if tokens.len() < 3 {
        parse_error("Incomplete DELETE statement"@)
    } else {
        match table_name_at(tokens, 2) {
            Ok(table_name) => Ok(StatementView::Delete { table_name, conditions: None }),
            Err(e) => Err(e),
        }
    }
}

/// What a token sequence with its keywords in upper case parses to. The
/// first token decides: it has to be a keyword, and it names the statement.
pub open spec fn parsed(tokens: Seq<TokenView>) -> Result<StatementView, ErrorView> {
    if tokens.len() > 0 && tokens[0] is Keyword {
        let first = tokens[0]->Keyword_0;
        if first == "CREATE"@ {
            create_table_statement(tokens)
        } else if first == "INSERT"@ {
            insert_statement(tokens)
        } else if first == "SELECT"@ {
            select_statement(tokens)
        } else if first == "DELETE"@ {
            delete_statement(tokens)
        } else {
            parse_error("Unknown statement"@)
        }
    } else {
        parse_error("Invalid statement"@)
    }
}

/// A token as the parser reads it: a keyword in upper case, any other token
/// as it is.
pub open spec fn normalized(token: TokenView) -> TokenView {
    match token {
        TokenView::Keyword(word) => TokenView::Keyword(uppercase(word)),
        other => other,
    }
}

/// What a token sequence parses to: what it parses to with its keywords in
/// upper case.
pub open spec fn statement(tokens: Seq<TokenView>) -> Result<StatementView, ErrorView> {
    parsed(tokens.map_values(|token: TokenView| normalized(token)))
}

/// Whether `r` is the executable form of the parse result `expected`.
pub open spec fn parsed_as(
    r: Result<SqlStatement, DatabaseError>,
    expected: Result<StatementView, ErrorView>,
) -> bool {
    match r {
        Ok(statement) => expected == Ok::<StatementView, ErrorView>(statement@),
        Err(e) => expected == Err::<StatementView, ErrorView>(e@),
    }
}

/// The parser.
pub struct Parser;

impl Parser {
    /// Parses one statement from its tokens.
    pub fn parse(tokens: Vec<Token>) -> (r: Result<SqlStatement, DatabaseError>)
        ensures
            parsed_as(r, statement(tokens.deep_view())),
    {
        let tokens = Parser::normalize(tokens);
        Parser::parse_normalized(&tokens)
    }

    /// Puts every keyword in upper case.
    pub fn normalize(tokens: Vec<Token>) -> (r: Vec<Token>)
        ensures
            r.deep_view() == tokens.deep_view().map_values(|token: TokenView| normalized(token)),
    {
        let ghost given = tokens.deep_view();
        let mut tokens = tokens;
        let mut at: usize = 0;
        while at < tokens.len()
            invariant
                at <= tokens.len(),
                tokens.len() == given.len(),
                forall|i: int| 0 <= i < at ==> (#[trigger] tokens[i])@ == normalized(given[i]),
                forall|i: int| at <= i < tokens.len() ==> (#[trigger] tokens[i])@ == given[i],
            decreases tokens.len() - at,
        {
            let upper = match &tokens[at] {
                Token::Keyword(word) => Some(word.as_str().to_uppercase()),
                _ => None,
            };
            if let Some(upper) = upper {
                tokens[at] = Token::Keyword(upper);
            }
            at += 1;
        }
        assert(tokens.deep_view() =~= given.map_values(|token: TokenView| normalized(token)));
        tokens
    }

    /// Parses one statement from tokens whose keywords are in upper case.
    /// A keyword in any other spelling is not recognised.
    pub fn parse_normalized(tokens: &Vec<Token>) -> (r: Result<SqlStatement, DatabaseError>)
        ensures
            parsed_as(r, parsed(tokens.deep_view())),
    {
        if tokens.len() == 0 {
            return Err(DatabaseError::parse("Invalid statement"));
        }
        match &tokens[0] {
            Token::Keyword(keyword) => {
                let first = keyword.as_str();
                if first.eq("CREATE") {
                    Parser::parse_create_table(tokens)
                } else if first.eq("INSERT") {
                    Parser::parse_insert(tokens)
                } else if first.eq("SELECT") {
                    Parser::parse_select(tokens)
                } else if first.eq("DELETE") {
                    Parser::parse_delete(tokens)
                } else {
                    Err(DatabaseError::parse("Unknown statement"))
                }
            },
            _ => Err(DatabaseError::parse("Invalid statement")),
        }
    }

    /// The table name that the token at `at` gives.
    fn table_name(tokens: &Vec<Token>, at: usize) -> (r: Result<String, DatabaseError>)
        requires
            at < tokens.len(),
        ensures
            match r {
                Ok(name) => table_name_at(tokens.deep_view(), at as int) == Ok::<
                    Seq<char>,
                    ErrorView,
                >(name@),
                Err(e) => table_name_at(tokens.deep_view(), at as int) == Err::<
                    Seq<char>,
                    ErrorView,
                >(e@),
            },
    {
        match &tokens[at] {
            Token::Identifier(name) => Ok(name.clone()),
            _ => Err(DatabaseError::parse("Invalid table name")),
        }
    }

    fn parse_create_table(tokens: &Vec<Token>) -> (r: Result<SqlStatement, DatabaseError>)
        ensures
            parsed_as(r, create_table_statement(tokens.deep_view())),
    {
        if tokens.len() < 3 {
            return Err(DatabaseError::parse("Incomplete CREATE TABLE statement"));
        }
        let table_name = match Parser::table_name(tokens, 2) {
            Ok(name) => name,
            Err(e) => return Err(e),
        };
        let columns = vec![
            ("id".to_string(), "INTEGER".to_string()),
            ("name".to_string(), "STRING".to_string()),
        ];
        assert(columns.deep_view() =~= fixed_columns());
        Ok(SqlStatement::CreateTable { table_name, columns })
    }

    fn parse_insert(tokens: &Vec<Token>) -> (r: Result<SqlStatement, DatabaseError>)
        ensures
            parsed_as(r, insert_statement(tokens.deep_view())),
    {
        if tokens.len() < 6 {
            return Err(DatabaseError::parse("Incomplete INSERT statement"));
        }
        let table_name = match Parser::table_name(tokens, 2) {
            Ok(name) => name,
            Err(e) => return Err(e),
        };
        let values_start = match Parser::find_values_keyword(tokens) {
            Some(at) => at,
            None => return Err(DatabaseError::parse("Missing VALUES keyword")),
        };
        let paren_start = match Parser::find_open_paren(tokens, values_start) {
            Some(at) => at,
            None => return Err(DatabaseError::parse("Missing opening parenthesis")),
        };
        match Parser::collect_values(tokens, paren_start + 1) {
            Ok(values) => Ok(SqlStatement::Insert { table_name, values }),
            Err(e) => Err(e),
        }
    }

    /// Finds the first `VALUES` keyword.
    fn find_values_keyword(tokens: &Vec<Token>) -> (r: Option<usize>)
        ensures
            match r {
                Some(at) => values_position(tokens.deep_view()) == Some(at as int) && at
                    < tokens.len(),
                None => values_position(tokens.deep_view()) is None,
            },
    {
        let mut at: usize = 0;
        while at < tokens.len()
            invariant
                at <= tokens.len(),
                values_position(tokens.deep_view()) == first_index(
                    tokens.deep_view(),
                    at as int,
                    |token: TokenView| is_values_keyword(token),
                ),
            decreases tokens.len() - at,
        {
            if let Token::Keyword(word) = &tokens[at] {
                if word.as_str().eq("VALUES") {
                    return Some(at);
                }
            }
            at += 1;
        }
        None
    }

    /// Finds the first opening parenthesis at or after `from`.
    fn find_open_paren(tokens: &Vec<Token>, from: usize) -> (r: Option<usize>)
        requires
            from <= tokens.len(),
        ensures
            match r {
                Some(at) => paren_position(tokens.deep_view(), from as int) == Some(at as int)
                    && at < tokens.len(),
                None => paren_position(tokens.deep_view(), from as int) is None,
            },
    {
        let mut at: usize = from;
        while at < tokens.len()
            invariant
                from <= at <= tokens.len(),
                paren_position(tokens.deep_view(), from as int) == paren_position(
                    tokens.deep_view(),
                    at as int,
                ),
            decreases tokens.len() - at,
        {
            if let Token::Punctuation(c) = &tokens[at] {
                if *c == '(' {
                    return Some(at);
                }
            }
            at += 1;
        }
        None
    }

    /// Collects the literal values of the list that begins at `from`.
    fn collect_values(tokens: &Vec<Token>, from: usize) -> (r: Result<Vec<String>, DatabaseError>)
        requires
            from <= tokens.len(),
        ensures
            match r {
                Ok(values) => values_from(tokens.deep_view(), from as int) == Ok::<
                    Seq<Seq<char>>,
                    ErrorView,
                >(values.deep_view()),
                Err(e) => values_from(tokens.deep_view(), from as int) == Err::<
                    Seq<Seq<char>>,
                    ErrorView,
                >(e@),
            },
    {
        let mut values: Vec<String> = Vec::new();
        let mut at: usize = from;
        while at < tokens.len()
            invariant
                from <= at <= tokens.len(),
                values_from(tokens.deep_view(), from as int) == followed_by(
                    values.deep_view(),
                    values_from(tokens.deep_view(), at as int),
                ),
            decreases tokens.len() - at,
        {
            let ghost done = values.deep_view();
            match &tokens[at] {
                Token::Literal(value) => {
                    values.push(value.clone());
                    proof {
                        assert(values.deep_view() =~= done.push(value@));
                        lemma_followed_by_push(
                            done,
                            value@,
                            values_from(tokens.deep_view(), at + 1),
                        );
                    }
                },
                Token::Punctuation(c) => {
                    if *c == ')' {
                        proof {
                            lemma_followed_by_nothing(done);
                        }
                        return Ok(values);
                    } else if *c != ',' {
                        return Err(DatabaseError::parse("Invalid value in INSERT"));
                    }
                },
                _ => {
                    return Err(DatabaseError::parse("Invalid value in INSERT"));
                },
            }
            at += 1;
        }
        proof {
            lemma_followed_by_nothing(values.deep_view());
        }
        Ok(values)
    }

    fn parse_select(tokens: &Vec<Token>) -> (r: Result<SqlStatement, DatabaseError>)
        ensures
            parsed_as(r, select_statement(tokens.deep_view())),
    {
        if tokens.len() < 4 {
            return Err(DatabaseError::parse("Incomplete SELECT statement"));
        }
        let table_name = match Parser::table_name(tokens, 3) {
            Ok(name) => name,
            Err(e) => return Err(e),
        };
        let columns = vec!["*".to_string()];
        assert(columns.deep_view() =~= all_columns());
        Ok(SqlStatement::Select { table_name, columns, conditions: None })
    }

    fn parse_delete(tokens: &Vec<Token>) -> (r: Result<SqlStatement, DatabaseError>)
        ensures
            parsed_as(r, delete_statement(tokens.deep_view())),
    {
        if tokens.len() < 3 {
            return Err(DatabaseError::parse("Incomplete DELETE statement"));
        }
        let table_name = match Parser::table_name(tokens, 2) {
            Ok(name) => name,
            Err(e) => return Err(e),
        };
        Ok(SqlStatement::Delete { table_name, conditions: None })
    }
}

/// Whatever columns the text of a `CREATE TABLE` statement lists, the parsed
/// statement asks for the fixed schema of two columns.
pub proof fn lemma_created_schema_is_fixed(tokens: Seq<TokenView>)
    requires
        statement(tokens) is Ok,
        statement(tokens)->Ok_0 is CreateTable,
    ensures
        statement(tokens)->Ok_0->CreateTable_columns == fixed_columns(),
        fixed_columns().len() == 2,
{
}

/// No tokens at all are no statement.
pub proof fn lemma_no_tokens_are_invalid()
    ensures
        statement(Seq::empty()) == parse_error::<StatementView>("Invalid statement"@),
{
    assert(Seq::<TokenView>::empty().map_values(|token: TokenView| normalized(token))
        =~= Seq::<TokenView>::empty());
}

} // verus!
