//! What the interactive shell does with one line of input.
//!
//! The shell itself (prompt, line editing, history, printing) is left to the
//! program that uses this library; it asks [`is_exit`] whether to stop and
//! [`interpret`] what to print.

use crate::errors::ErrorView;
use crate::parser::{lemma_no_tokens_are_invalid, statement, Parser, StatementView};
use crate::storage::DatabaseView;
use crate::text::trimmed;
use crate::tokenizer::{char_info, is_space, lemma_blank_text_has_no_tokens, lex, Tokenizer};
use crate::vm::{lemma_created_table_is_empty, run, table_created, VirtualMachine};
use vstd::prelude::*;
use vstd::string::StringExecFns;

verus! {

/// Whether a line asks the shell to stop: it is the word `exit`, white space
/// around it aside.
pub open spec fn asks_to_exit(line: Seq<char>) -> bool {
    trimmed(line) == "exit"@
}

/// The statement that a line of input stands for.
pub open spec fn statement_of_line(line: Seq<char>) -> Result<StatementView, ErrorView> {
    match lex(line) {
        Ok(tokens) => statement(tokens),
        Err(e) => Err(e),
    }
}

/// The diagnostic line for a failure in lexing.
pub open spec fn tokenization_failure(e: ErrorView) -> Seq<char> {
    "Tokenization error: "@ + e.message()
}

/// The diagnostic line for a failure in parsing.
pub open spec fn parsing_failure(e: ErrorView) -> Seq<char> {
    "Parsing error: "@ + e.message()
}

/// The diagnostic line for a refused statement.
pub open spec fn execution_failure(e: ErrorView) -> Seq<char> {
    "Execution error: "@ + e.message()
}

/// Interpreting a line: the database afterwards, and the report (`Ok`) or
/// the diagnostic line (`Err`) to print. Only a statement that runs can change
/// the database.
pub open spec fn interpreted(db: DatabaseView, line: Seq<char>) -> (
    DatabaseView,
    Result<Seq<char>, Seq<char>>,
) {
    match lex(line) {
        Err(e) => (db, Err(tokenization_failure(e))),
        Ok(tokens) => match statement(tokens) {
            Err(e) => (db, Err(parsing_failure(e))),
            Ok(statement) => match run(db, statement).1 {
                Ok(report) => (run(db, statement).0, Ok(report)),
                Err(e) => (run(db, statement).0, Err(execution_failure(e))),
            },
        },
    }
}

/// Tells whether a line asks the shell to stop.
pub fn is_exit(line: &str) -> (r: bool)
    ensures
        r == asks_to_exit(line@),
{
    is_exit_command(line.trim())
}

/// Tells whether a command, the white space around it taken away, is the
/// word that stops the shell.
pub fn is_exit_command(command: &str) -> (r: bool)
    ensures
        r == (command@ == "exit"@),
{
    command.eq("exit")
}

/// Lexes, parses and runs one line. Returns the report to print on success,
/// and the diagnostic line to print on a failure of any stage.
pub fn interpret(vm: &mut VirtualMachine, line: &str) -> (r: Result<String, String>)
    ensures
        final(vm)@ == interpreted(old(vm)@, line@).0,
        match r {
            Ok(report) => interpreted(old(vm)@, line@).1 == Ok::<Seq<char>, Seq<char>>(report@),
            Err(diagnostic) => interpreted(old(vm)@, line@).1 == Err::<Seq<char>, Seq<char>>(
                diagnostic@,
            ),
        },
{
    let tokens = match Tokenizer::tokenize(line) {
        Ok(tokens) => tokens,
        Err(e) => {
            return Err("Tokenization error: ".to_string().concat(e.message().as_str()));
        },
    };
    let statement = match Parser::parse(tokens) {
        Ok(statement) => statement,
        Err(e) => {
            return Err("Parsing error: ".to_string().concat(e.message().as_str()));
        },
    };
    match vm.execute(statement) {
        Ok(report) => Ok(report),
        Err(e) => Err("Execution error: ".to_string().concat(e.message().as_str())),
    }
}

/// A line that holds a statement is answered as the statement runs: with its
/// report, or with the diagnostic line of its refusal.
pub proof fn lemma_line_runs_its_statement(db: DatabaseView, line: Seq<char>)
    requires
        statement_of_line(line) is Ok,
    ensures
        interpreted(db, line) == (
            run(db, statement_of_line(line)->Ok_0).0,
            match run(db, statement_of_line(line)->Ok_0).1 {
                Ok(report) => Ok::<Seq<char>, Seq<char>>(report),
                Err(e) => Err::<Seq<char>, Seq<char>>(execution_failure(e)),
            },
        ),
{
}

/// A well-formed `CREATE TABLE` line for a name that is free, and then a
/// well-formed `SELECT` line for that name: the first is answered with the
/// table's creation, the second with "Selected 0 rows".
pub proof fn lemma_select_line_after_create_line(
    db: DatabaseView,
    create_line: Seq<char>,
    select_line: Seq<char>,
)
    requires
        statement_of_line(create_line) is Ok,
        statement_of_line(create_line)->Ok_0 is CreateTable,
        statement_of_line(select_line) is Ok,
        statement_of_line(select_line)->Ok_0 is Select,
        statement_of_line(select_line)->Ok_0.table_name() == statement_of_line(
            create_line,
        )->Ok_0.table_name(),
        !db.contains_key(statement_of_line(create_line)->Ok_0.table_name()),
    ensures
        interpreted(db, create_line).1 == Ok::<Seq<char>, Seq<char>>(
            table_created(statement_of_line(create_line)->Ok_0.table_name()),
        ),
        interpreted(interpreted(db, create_line).0, select_line) == (
            interpreted(db, create_line).0,
            Ok::<Seq<char>, Seq<char>>("Selected 0 rows"@),
        ),
{
    lemma_created_table_is_empty(
        db,
        statement_of_line(create_line)->Ok_0,
        statement_of_line(select_line)->Ok_0,
    );
}

/// An empty line, and a line of nothing but white space, is no statement:
/// it is answered with the parse error "Invalid statement", and changes
/// nothing.
pub proof fn lemma_blank_line_is_invalid(db: DatabaseView, line: Seq<char>)
    requires
        forall|i: int| 0 <= i < line.len() ==> is_space(char_info(#[trigger] line[i])),
    ensures
        statement_of_line(line) == Err::<StatementView, ErrorView>(
            ErrorView::ParseError("Invalid statement"@),
        ),
        interpreted(db, line) == (
            db,
            Err::<Seq<char>, Seq<char>>(
                parsing_failure(ErrorView::ParseError("Invalid statement"@)),
            ),
        ),
{
    lemma_blank_text_has_no_tokens(line);
    lemma_no_tokens_are_invalid();
}

} // verus!
