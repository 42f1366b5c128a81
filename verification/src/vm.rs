//! The executor: runs one statement against the tables and reports in words.

use crate::errors::{DatabaseError, ErrorView};
use crate::parser::{lemma_created_schema_is_fixed, statement, SqlStatement, StatementView};
use crate::storage::{
    create_table_outcome, delete_outcome, incorrect_number_of_values, insert_outcome,
    select_outcome, table_already_exists, table_not_found, Database, DatabaseView, Row, TableView,
};
use crate::tokenizer::TokenView;
use crate::text::{decimal, push_decimal};
use vstd::prelude::*;
use vstd::string::StringExecFns;

verus! {

/// The report of a table's creation.
pub open spec fn table_created(name: Seq<char>) -> Seq<char> {
    "Table "@ + name + " created"@
}

/// The report of a row's insertion.
pub open spec fn inserted_into(name: Seq<char>) -> Seq<char> {
    "Inserted into "@ + name
}

/// The report of a selection of `count` rows.
pub open spec fn selected_rows(count: nat) -> Seq<char> {
    "Selected "@ + decimal(count) + " rows"@
}

/// The report of a deletion of `count` rows.
pub open spec fn deleted_rows(count: nat) -> Seq<char> {
    "Deleted "@ + decimal(count) + " rows"@
}

/// Running a statement: the database afterwards, and the report or the
/// refusal. A refused statement leaves the database as it was.
pub open spec fn run(db: DatabaseView, statement: StatementView) -> (
    DatabaseView,
    Result<Seq<char>, ErrorView>,
) {
    match statement {
        StatementView::CreateTable { table_name, columns } => match create_table_outcome(
            db,
            table_name,
            columns,
        ) {
            Ok(next) => (next, Ok(table_created(table_name))),
            Err(e) => (db, Err(e)),
        },
        StatementView::Insert { table_name, values } => match insert_outcome(
            db,
            table_name,
            values,
        ) {
            Ok(next) => (next, Ok(inserted_into(table_name))),
            Err(e) => (db, Err(e)),
        },
        StatementView::Select { table_name, columns, conditions } => match select_outcome(
            db,
            table_name,
        ) {
            Ok(rows) => (db, Ok(selected_rows(rows.len()))),
            Err(e) => (db, Err(e)),
        },
        StatementView::Delete { table_name, conditions } => match delete_outcome(
            db,
            table_name,
        ) {
            Ok((next, count)) => (next, Ok(deleted_rows(count))),
            Err(e) => (db, Err(e)),
        },
    }
}

/// Whether `r` is the executable form of the outcome `expected`.
pub open spec fn reported_as(
    r: Result<String, DatabaseError>,
    expected: Result<Seq<char>, ErrorView>,
) -> bool {
    match r {
        Ok(text) => expected == Ok::<Seq<char>, ErrorView>(text@),
        Err(e) => expected == Err::<Seq<char>, ErrorView>(e@),
    }
}

/// The executor, with the database that it owns.
pub struct VirtualMachine {
    database: Database,
}

impl View for VirtualMachine {
    type V = DatabaseView;

    closed spec fn view(&self) -> DatabaseView {
        self.database@
    }
}

impl VirtualMachine {
    /// An executor over a database without tables.
    pub fn new() -> (vm: VirtualMachine)
        ensures
            vm@ == Map::<Seq<char>, TableView>::empty(),
    {
        VirtualMachine { database: Database::new() }
    }

    /// Runs one statement and returns its report. A storage refusal is
    /// returned as it is, and the database is then unchanged.
    pub fn execute(&mut self, statement: SqlStatement) -> (r: Result<String, DatabaseError>)
        ensures
            final(self)@ == run(old(self)@, statement@).0,
            reported_as(r, run(old(self)@, statement@).1),
    {
        match statement {
            SqlStatement::CreateTable { table_name, columns } => {
                match self.database.create_table(table_name.as_str(), columns) {
                    Ok(()) => {
                        let mut text = "Table ".to_string();
                        text.append(table_name.as_str());
                        text.append(" created");
                        Ok(text)
                    },
                    Err(e) => Err(e),
                }
            },
            SqlStatement::Insert { table_name, values } => {
                match self.database.insert(table_name.as_str(), values) {
                    Ok(()) => {
                        let mut text = "Inserted into ".to_string();
                        text.append(table_name.as_str());
                        Ok(text)
                    },
                    Err(e) => Err(e),
                }
            },
            SqlStatement::Select { table_name, columns, conditions } => {
                match self.database.select(table_name.as_str(), columns.as_slice(), conditions) {
                    Ok(results) => {
                        let mut text = "Selected ".to_string();
                        push_decimal(&mut text, results.len());
                        text.append(" rows");
                        Ok(text)
                    },
                    Err(e) => Err(e),
                }
            },
            SqlStatement::Delete { table_name, conditions } => {
                match self.database.delete(table_name.as_str(), conditions) {
                    Ok(deleted) => {
                        let mut text = "Deleted ".to_string();
                        push_decimal(&mut text, deleted);
                        text.append(" rows");
                        Ok(text)
                    },
                    Err(e) => Err(e),
                }
            },
        }
    }
}

/// Running statements one after the other: the database in the end.
pub open spec fn run_all(db: DatabaseView, statements: Seq<StatementView>) -> DatabaseView
    decreases statements.len(),
{
    if statements.len() == 0 {
        db
    } else {
        run_all(run(db, statements[0]).0, statements.drop_first())
    }
}

/// How many of the statements, run one after the other from `db`, insert a
/// row into the table `name` and are not refused.
pub open spec fn rows_inserted(
    db: DatabaseView,
    statements: Seq<StatementView>,
    name: Seq<char>,
) -> nat
    decreases statements.len(),
{
    if statements.len() == 0 {
        0
    } else {
        let first = statements[0];
        let here: nat = if first is Insert && first.table_name() == name && run(db, first).1 is Ok {
            1
        } else {
            0
        };
        here + rows_inserted(run(db, first).0, statements.drop_first(), name)
    }
}

/// Whether a statement deletes from the table `name`.
pub open spec fn deletes_from(statement: StatementView, name: Seq<char>) -> bool {
    statement is Delete && statement.table_name() == name
}

/// The report of a selection that found nothing.
pub proof fn lemma_selected_no_rows()
    ensures
        selected_rows(0) == "Selected 0 rows"@,
{
    reveal_strlit("Selected ");
    reveal_strlit(" rows");
    reveal_strlit("Selected 0 rows");
    assert(selected_rows(0) =~= "Selected 0 rows"@);
}

/// A table that was just created can be selected from and holds no rows:
/// where no table has the name yet, `CREATE TABLE` succeeds, and a `SELECT`
/// from that table then reports 0 rows and changes nothing.
pub proof fn lemma_created_table_is_empty(
    db: DatabaseView,
    create: StatementView,
    select: StatementView,
)
    requires
        create is CreateTable,
        select is Select,
        select.table_name() == create.table_name(),
        !db.contains_key(create.table_name()),
    ensures
        run(db, create).1 == Ok::<Seq<char>, ErrorView>(table_created(create.table_name())),
        run(run(db, create).0, select) == (
            run(db, create).0,
            Ok::<Seq<char>, ErrorView>("Selected 0 rows"@),
        ),
{
    lemma_selected_no_rows();
}

/// A row is inserted into a table that exists exactly when it has one value
/// for each column; any other row is refused, and nothing changes.
pub proof fn lemma_insert_needs_a_value_per_column(db: DatabaseView, insert: StatementView)
    requires
        insert is Insert,
        db.contains_key(insert.table_name()),
    ensures
        run(db, insert).1 is Ok <==> insert->values.len() == db[insert.table_name()].columns.len(),
        run(db, insert).1 is Err ==> run(db, insert) == (
            db,
            Err::<Seq<char>, ErrorView>(incorrect_number_of_values()),
        ),
{
}

/// No statement removes a table or changes its schema: a table that exists
/// is there after any run of statements, with the columns that it had.
pub proof fn lemma_table_stays(
    db: DatabaseView,
    statements: Seq<StatementView>,
    name: Seq<char>,
)
    requires
        db.contains_key(name),
    ensures
        run_all(db, statements).contains_key(name),
        run_all(db, statements)[name].columns == db[name].columns,
    decreases statements.len(),
{
    if statements.len() > 0 {
        lemma_table_stays(run(db, statements[0]).0, statements.drop_first(), name);
    }
}

/// A table made by a parsed `CREATE TABLE` statement takes rows of two
/// values and refuses every other row, whatever the statement listed as its
/// columns and whatever statements have run since.
pub proof fn lemma_created_table_takes_two_values(
    db: DatabaseView,
    tokens: Seq<TokenView>,
    since: Seq<StatementView>,
    values: Row,
)
    requires
        statement(tokens) is Ok,
        statement(tokens)->Ok_0 is CreateTable,
        !db.contains_key(statement(tokens)->Ok_0.table_name()),
    ensures
        ({
            let create = statement(tokens)->Ok_0;
            let now = run_all(run(db, create).0, since);
            let insert = StatementView::Insert { table_name: create.table_name(), values };
            &&& run(now, insert).1 is Ok <==> values.len() == 2
            &&& values.len() != 2 ==> run(now, insert) == (
                now,
                Err::<Seq<char>, ErrorView>(incorrect_number_of_values()),
            )
        }),
{
    let create = statement(tokens)->Ok_0;
    lemma_created_schema_is_fixed(tokens);
    lemma_table_stays(run(db, create).0, since, create.table_name());
}

/// The rows of a table after a run of statements that do not delete from it:
/// those it held before, and one more for each insertion that was not refused.
pub proof fn lemma_rows_after_run(
    db: DatabaseView,
    statements: Seq<StatementView>,
    name: Seq<char>,
)
    requires
        db.contains_key(name),
        forall|i: int| 0 <= i < statements.len() ==> !deletes_from(#[trigger] statements[i], name),
    ensures
        run_all(db, statements).contains_key(name),
        run_all(db, statements)[name].rows.len() == db[name].rows.len() + rows_inserted(
            db,
            statements,
            name,
        ),
    decreases statements.len(),
{
    if statements.len() > 0 {
        let rest = statements.drop_first();
        assert(!deletes_from(statements[0], name));
        assert forall|i: int| 0 <= i < rest.len() implies !deletes_from(#[trigger] rest[i], name) by {
            assert(rest[i] == statements[i + 1]);
        }
        lemma_rows_after_run(run(db, statements[0]).0, rest, name);
    }
}

/// `DELETE` reports as many rows as were inserted: on a table that holds
/// `k` rows, after statements that do not delete from it and of which `n`
/// insert a row into it without being refused, `DELETE` reports `k + n`
/// deleted rows (`n` on a table that was empty), and a `SELECT` that follows
/// reports 0 rows.
pub proof fn lemma_delete_reports_inserted_rows(
    db: DatabaseView,
    statements: Seq<StatementView>,
    delete: StatementView,
    select: StatementView,
)
    requires
        delete is Delete,
        select is Select,
        select.table_name() == delete.table_name(),
        db.contains_key(delete.table_name()),
        forall|i: int|
            0 <= i < statements.len() ==> !deletes_from(
                #[trigger] statements[i],
                delete.table_name(),
            ),
    ensures
        ({
            let name = delete.table_name();
            let filled = run_all(db, statements);
            let count = db[name].rows.len() + rows_inserted(db, statements, name);
            &&& run(filled, delete).1 == Ok::<Seq<char>, ErrorView>(deleted_rows(count))
            &&& run(run(filled, delete).0, select).1 == Ok::<Seq<char>, ErrorView>(
                "Selected 0 rows"@,
            )
        }),
{
    lemma_rows_after_run(db, statements, delete.table_name());
    lemma_selected_no_rows();
}

/// `INSERT`, `SELECT` and `DELETE` on a table that does not exist are
/// refused with "Table not found", and no table changes.
pub proof fn lemma_missing_table_is_refused(db: DatabaseView, statement: StatementView)
    requires
        !(statement is CreateTable),
        !db.contains_key(statement.table_name()),
    ensures
        run(db, statement) == (db, Err::<Seq<char>, ErrorView>(table_not_found())),
{
}

/// `CREATE TABLE` under a name that is taken is refused with "Table already
/// exists", and no table changes: the table of that name keeps its rows.
pub proof fn lemma_existing_table_is_kept(db: DatabaseView, create: StatementView)
    requires
        create is CreateTable,
        db.contains_key(create.table_name()),
    ensures
        run(db, create) == (db, Err::<Seq<char>, ErrorView>(table_already_exists())),
{
}

/// Whether every row of every table has one value for each column.
pub open spec fn rows_fit(db: DatabaseView) -> bool {
    forall|name: Seq<char>, i: int|
        db.contains_key(name) && 0 <= i < db[name].rows.len() ==> db[name].accepts(
            #[trigger] db[name].rows[i],
        )
}

/// No statement lets a row into a table that has not one value for each
/// column: where every row fits before a statement, every row fits after it.
pub proof fn lemma_rows_keep_fitting(db: DatabaseView, statement: StatementView)
    requires
        rows_fit(db),
    ensures
        rows_fit(run(db, statement).0),
{
    let next = run(db, statement).0;
    assert forall|name: Seq<char>, i: int|
        next.contains_key(name) && 0 <= i < next[name].rows.len() implies next[name].accepts(
        #[trigger] next[name].rows[i],
    ) by {
        if db.contains_key(name) && i < db[name].rows.len() {
            assert(db[name].accepts(db[name].rows[i]));
        }
    }
}

} // verus!
