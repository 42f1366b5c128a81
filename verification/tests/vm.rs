use rust_db::errors::DatabaseError;
use rust_db::parser::{Parser, SqlStatement};
use rust_db::tokenizer::Tokenizer;
use rust_db::vm::VirtualMachine;

fn run(vm: &mut VirtualMachine, line: &str) -> Result<String, DatabaseError> {
    let tokens = Tokenizer::tokenize(line)?;
    let statement = Parser::parse(tokens)?;
    vm.execute(statement)
}

fn refusal(r: Result<String, DatabaseError>) -> String {
    match r {
        Err(DatabaseError::StorageError(reason)) => reason,
        other => panic!("expected a storage error, got {:?}", other),
    }
}

fn select(name: &str) -> SqlStatement {
    SqlStatement::Select { table_name: name.to_string(), columns: vec!["*".to_string()], conditions: None }
}

fn delete(name: &str) -> SqlStatement {
    SqlStatement::Delete { table_name: name.to_string(), conditions: None }
}

fn insert(name: &str, values: &[&str]) -> SqlStatement {
    SqlStatement::Insert {
        table_name: name.to_string(),
        values: values.iter().map(|v| v.to_string()).collect(),
    }
}

fn create(name: &str, width: usize) -> SqlStatement {
    SqlStatement::CreateTable {
        table_name: name.to_string(),
        columns: (0..width).map(|i| (format!("c{}", i), "STRING".to_string())).collect(),
    }
}

#[test]
fn create_then_select_reports_no_rows() {
    let mut vm = VirtualMachine::new();
    assert_eq!(run(&mut vm, "CREATE TABLE t (id INTEGER, name STRING)").unwrap(), "Table t created");
    assert_eq!(run(&mut vm, "SELECT * FROM t").unwrap(), "Selected 0 rows");
}

#[test]
fn create_without_column_list_then_select() {
    let mut vm = VirtualMachine::new();
    assert_eq!(run(&mut vm, "create table Users").unwrap(), "Table Users created");
    assert_eq!(run(&mut vm, "select * from Users").unwrap(), "Selected 0 rows");
}

#[test]
fn insert_succeeds_with_two_values_only() {
    let mut vm = VirtualMachine::new();
    run(&mut vm, "CREATE TABLE t (a INTEGER, b STRING, c STRING)").unwrap();
    assert_eq!(run(&mut vm, "INSERT INTO t VALUES (1, 'x')").unwrap(), "Inserted into t");
    assert_eq!(refusal(run(&mut vm, "INSERT INTO t VALUES (1)")), "Incorrect number of values");
    assert_eq!(refusal(run(&mut vm, "INSERT INTO t VALUES ()")), "Incorrect number of values");
    assert_eq!(
        refusal(run(&mut vm, "INSERT INTO t VALUES (1, 'x', 'y')")),
        "Incorrect number of values"
    );
    assert_eq!(run(&mut vm, "SELECT * FROM t").unwrap(), "Selected 1 rows");
}

#[test]
fn delete_reports_the_rows_inserted() {
    let mut vm = VirtualMachine::new();
    run(&mut vm, "CREATE TABLE t").unwrap();
    for i in 0..12 {
        let line = format!("INSERT INTO t VALUES ({}, 'row')", i);
        assert_eq!(run(&mut vm, &line).unwrap(), "Inserted into t");
    }
    assert_eq!(run(&mut vm, "SELECT * FROM t").unwrap(), "Selected 12 rows");
    assert_eq!(run(&mut vm, "DELETE FROM t").unwrap(), "Deleted 12 rows");
    assert_eq!(run(&mut vm, "SELECT * FROM t").unwrap(), "Selected 0 rows");
    assert_eq!(run(&mut vm, "DELETE FROM t").unwrap(), "Deleted 0 rows");
}

#[test]
fn delete_counts_only_the_inserts_that_succeeded() {
    let mut vm = VirtualMachine::new();
    run(&mut vm, "CREATE TABLE t").unwrap();
    run(&mut vm, "CREATE TABLE u").unwrap();
    run(&mut vm, "INSERT INTO t VALUES (1, 'a')").unwrap();
    assert!(run(&mut vm, "INSERT INTO t VALUES (1)").is_err());
    run(&mut vm, "INSERT INTO u VALUES (1, 'a')").unwrap();
    run(&mut vm, "SELECT * FROM t").unwrap();
    assert!(run(&mut vm, "CREATE TABLE t").is_err());
    run(&mut vm, "DELETE FROM u").unwrap();
    run(&mut vm, "INSERT INTO t VALUES (2, 'b')").unwrap();
    assert_eq!(run(&mut vm, "DELETE FROM t").unwrap(), "Deleted 2 rows");
    assert_eq!(run(&mut vm, "SELECT * FROM t").unwrap(), "Selected 0 rows");
}

#[test]
fn missing_table_is_refused() {
    let mut vm = VirtualMachine::new();
    run(&mut vm, "CREATE TABLE t").unwrap();
    run(&mut vm, "INSERT INTO t VALUES (1, 'a')").unwrap();
    assert_eq!(refusal(run(&mut vm, "SELECT * FROM missing")), "Table not found");
    assert_eq!(refusal(run(&mut vm, "DELETE FROM missing")), "Table not found");
    assert_eq!(refusal(run(&mut vm, "INSERT INTO missing VALUES ('x')")), "Table not found");
    assert_eq!(run(&mut vm, "SELECT * FROM t").unwrap(), "Selected 1 rows");
}

#[test]
fn create_existing_table_is_refused() {
    let mut vm = VirtualMachine::new();
    run(&mut vm, "CREATE TABLE t").unwrap();
    run(&mut vm, "INSERT INTO t VALUES (1, 'a')").unwrap();
    run(&mut vm, "INSERT INTO t VALUES (2, 'b')").unwrap();
    assert_eq!(refusal(run(&mut vm, "CREATE TABLE t (x INTEGER)")), "Table already exists");
    assert_eq!(run(&mut vm, "SELECT * FROM t").unwrap(), "Selected 2 rows");
}

#[test]
fn execute_statements_built_by_hand() {
    let mut vm = VirtualMachine::new();
    assert_eq!(vm.execute(create("wide", 3)).unwrap(), "Table wide created");
    assert_eq!(vm.execute(insert("wide", &["1", "2", "3"])).unwrap(), "Inserted into wide");
    assert_eq!(refusal(vm.execute(insert("wide", &["1", "2"]))), "Incorrect number of values");
    assert_eq!(vm.execute(select("wide")).unwrap(), "Selected 1 rows");
    assert_eq!(vm.execute(delete("wide")).unwrap(), "Deleted 1 rows");
}

#[test]
fn execute_ignores_columns_and_conditions() {
    let mut vm = VirtualMachine::new();
    vm.execute(create("t", 1)).unwrap();
    vm.execute(insert("t", &["1"])).unwrap();
    vm.execute(insert("t", &["2"])).unwrap();
    let picky = SqlStatement::Select {
        table_name: "t".to_string(),
        columns: vec!["c0".to_string()],
        conditions: Some("c0 = 1".to_string()),
    };
    assert_eq!(vm.execute(picky).unwrap(), "Selected 2 rows");
    let picky = SqlStatement::Delete { table_name: "t".to_string(), conditions: Some("c0 = 1".to_string()) };
    assert_eq!(vm.execute(picky).unwrap(), "Deleted 2 rows");
}

#[test]
fn reports_count_in_decimal() {
    let mut vm = VirtualMachine::new();
    vm.execute(create("t", 0)).unwrap();
    for _ in 0..1005 {
        vm.execute(insert("t", &[])).unwrap();
    }
    assert_eq!(vm.execute(select("t")).unwrap(), "Selected 1005 rows");
    assert_eq!(vm.execute(delete("t")).unwrap(), "Deleted 1005 rows");
}

#[test]
fn machines_do_not_share_tables() {
    let mut first = VirtualMachine::new();
    let mut second = VirtualMachine::new();
    first.execute(create("t", 0)).unwrap();
    assert_eq!(refusal(second.execute(select("t"))), "Table not found");
}
