//! The storage engine: named tables, each a schema and its rows, in memory.

use crate::errors::{DatabaseError, ErrorView};
use vstd::hash_map::StringHashMap;
use vstd::prelude::*;

verus! {

/// One row: a text value for each column.
pub type Row = Seq<Seq<char>>;

/// The mathematical value of a [`Table`].
pub struct TableView {
    /// The schema: column names with their declared types.
    pub columns: Seq<(Seq<char>, Seq<char>)>,
    /// The rows, oldest first.
    pub rows: Seq<Row>,
}

/// The mathematical value of a [`Database`]: its tables by name.
pub type DatabaseView = Map<Seq<char>, TableView>;

impl TableView {
    /// A table with the given schema and no rows.
    pub open spec fn empty(columns: Seq<(Seq<char>, Seq<char>)>) -> TableView {
        TableView { columns, rows: Seq::empty() }
    }

    /// Whether `row` has one value for each column.
    pub open spec fn accepts(self, row: Row) -> bool {
        row.len() == self.columns.len()
    }

    /// The table with `row` added behind its rows.
    pub open spec fn with_row(self, row: Row) -> TableView {
        TableView { columns: self.columns, rows: self.rows.push(row) }
    }

    /// The table without its rows.
    pub open spec fn cleared(self) -> TableView {
        TableView { columns: self.columns, rows: Seq::empty() }
    }
}

/// The refusal of an operation on a table that does not exist.
pub open spec fn table_not_found() -> ErrorView {
    ErrorView::StorageError("Table not found"@)
}

/// The refusal to create a table under a name that is taken.
pub open spec fn table_already_exists() -> ErrorView {
    ErrorView::StorageError("Table already exists"@)
}

/// The refusal of a row that has not one value for each column.
pub open spec fn incorrect_number_of_values() -> ErrorView {
    ErrorView::StorageError("Incorrect number of values"@)
}

/// Creating a table: the database with the new, empty table, or the refusal
/// where the name is taken.
pub open spec fn create_table_outcome(
    db: DatabaseView,
    name: Seq<char>,
    columns: Seq<(Seq<char>, Seq<char>)>,
) -> Result<DatabaseView, ErrorView> {
    if db.contains_key(name) {
        Err(table_already_exists())
    } else {
        Ok(db.insert(name, TableView::empty(columns)))
    }
}

/// Inserting a row: the database with the row added behind the rows of the
/// named table, or the refusal where the table is missing or the row has not
/// one value for each of its columns.
pub open spec fn insert_outcome(db: DatabaseView, name: Seq<char>, row: Row) -> Result<
    DatabaseView,
    ErrorView,
> {
    if !db.contains_key(name) {
        Err(table_not_found())
    } else if !db[name].accepts(row) {
        Err(incorrect_number_of_values())
    } else {
        Ok(db.insert(name, db[name].with_row(row)))
    }
}

/// Selecting: all rows of the named table, or the refusal where it is missing.
pub open spec fn select_outcome(db: DatabaseView, name: Seq<char>) -> Result<Seq<Row>, ErrorView> {
    if db.contains_key(name) {
        Ok(db[name].rows)
    } else {
        Err(table_not_found())
    }
}

/// Deleting: the database with the named table emptied, and the number of
/// rows that the table held; or the refusal where it is missing.
pub open spec fn delete_outcome(db: DatabaseView, name: Seq<char>) -> Result<
    (DatabaseView, nat),
    ErrorView,
> {
    if db.contains_key(name) {
        Ok((db.insert(name, db[name].cleared()), db[name].rows.len()))
    } else {
        Err(table_not_found())
    }
}

/// A table: its schema and its rows.
pub struct Table {
    columns: Vec<(String, String)>,
    data: Vec<Vec<String>>,
}

impl View for Table {
    type V = TableView;

    closed spec fn view(&self) -> TableView {
        TableView { columns: self.columns.deep_view(), rows: self.data.deep_view() }
    }
}

/// Tables in the order of their creation, and for each name the place of its
/// table in that list.
struct Store {
    places: StringHashMap<usize>,
    tables: Vec<Table>,
}

impl Store {
    /// Every name leads to a table of the list, and no two names to the same.
    spec fn well_formed(&self) -> bool {
        &&& forall|name: Seq<char>| #[trigger]
            self.places@.contains_key(name) ==> self.places@[name] < self.tables.len()
        &&& forall|a: Seq<char>, b: Seq<char>|
            #![trigger self.places@[a], self.places@[b]]
            self.places@.contains_key(a) && self.places@.contains_key(b) && self.places@[a]
                == self.places@[b] ==> a == b
    }

    spec fn tables_by_name(&self) -> DatabaseView {
        Map::new(
            |name: Seq<char>| self.places@.contains_key(name),
            |name: Seq<char>| self.tables@[self.places@[name] as int]@,
        )
    }

    fn empty() -> (store: Store)
        ensures
            store.well_formed(),
            store.tables_by_name() == Map::<Seq<char>, TableView>::empty(),
    {
        let store = Store { places: StringHashMap::new(), tables: Vec::new() };
        assert(store.tables_by_name() =~= Map::<Seq<char>, TableView>::empty());
        store
    }
}

/// The tables of one interpreter, by name.
pub struct Database {
    store: Store,
}

impl View for Database {
    type V = DatabaseView;

    closed spec fn view(&self) -> DatabaseView {
        self.store.tables_by_name()
    }
}

impl Database {
    #[verifier::type_invariant]
    spec fn valid(self) -> bool {
        self.store.well_formed()
    }

    /// A database without tables.
    pub fn new() -> (db: Database)
        ensures
            db@ == Map::<Seq<char>, TableView>::empty(),
    {
        Database { store: Store::empty() }
    }

    /// Takes the store out for a change and leaves an empty one, so that the
    /// database is valid at every step; the caller puts the store back.
    fn take_store(&mut self) -> (store: Store)
        ensures
            store == old(self).store,
            store.well_formed(),
    {
        proof {
            use_type_invariant(&*self);
        }
        let mut store = Store::empty();
        std::mem::swap(&mut self.store, &mut store);
        store
    }

    /// Adds an empty table with the given schema under a name that is free.
    pub fn create_table(&mut self, name: &str, columns: Vec<(String, String)>) -> (r: Result<
        (),
        DatabaseError,
    >)
        ensures
            match create_table_outcome(old(self)@, name@, columns.deep_view()) {
                Ok(db) => r is Ok && final(self)@ == db,
                Err(e) => r is Err && r->Err_0@ == e && final(self)@ == old(self)@,
            },
    {
        if self.store.places.contains_key(name) {
            return Err(DatabaseError::storage("Table already exists"));
        }
        let mut store = self.take_store();
        let place = store.tables.len();
        let table = Table { columns, data: Vec::new() };
        assert(table@ == TableView::empty(columns.deep_view())) by {
            assert(table.data.deep_view() =~= Seq::<Row>::empty());
        }
        store.tables.push(table);
        store.places.insert(name.to_string(), place);
        self.store = store;
        assert(self@ =~= old(self)@.insert(name@, TableView::empty(columns.deep_view())));
        Ok(())
    }

    /// Adds a row behind the rows of a table.
    pub fn insert(&mut self, table_name: &str, values: Vec<String>) -> (r: Result<
        (),
        DatabaseError,
    >)
        ensures
            match insert_outcome(old(self)@, table_name@, values.deep_view()) {
                Ok(db) => r is Ok && final(self)@ == db,
                Err(e) => r is Err && r->Err_0@ == e && final(self)@ == old(self)@,
            },
    {
        proof {
            use_type_invariant(&*self);
        }
        let place = match self.store.places.get(table_name) {
            Some(place) => *place,
            None => return Err(DatabaseError::storage("Table not found")),
        };
        if values.len() != self.store.tables[place].columns.len() {
            return Err(DatabaseError::storage("Incorrect number of values"));
        }
        let mut store = self.take_store();
        let ghost rows = store.tables[place as int].data.deep_view();
        store.tables[place].data.push(values);
        assert(store.tables[place as int].data.deep_view() =~= rows.push(values.deep_view()));
        self.store = store;
        assert(self@ =~= old(self)@.insert(
            table_name@,
            old(self)@[table_name@].with_row(values.deep_view()),
        ));
        Ok(())
    }

    /// Returns a copy of all rows of a table. The column list and the
    /// condition are accepted and not applied.
    pub fn select(
        &self,
        table_name: &str,
        _columns: &[String],
        _conditions: Option<String>,
    ) -> (r: Result<Vec<Vec<String>>, DatabaseError>)
        ensures
            match r {
                Ok(rows) => select_outcome(self@, table_name@) == Ok::<Seq<Row>, ErrorView>(
                    rows.deep_view(),
                ),
                Err(e) => select_outcome(self@, table_name@) == Err::<Seq<Row>, ErrorView>(e@),
            },
    {
        proof {
            use_type_invariant(self);
        }
        let place = match self.store.places.get(table_name) {
            Some(place) => *place,
            None => return Err(DatabaseError::storage("Table not found")),
        };
        Ok(self.store.tables[place].data.clone())
    }

    /// Removes all rows of a table and returns how many there were. The
    /// condition is accepted and not applied.
    pub fn delete(&mut self, table_name: &str, _conditions: Option<String>) -> (r: Result<
        usize,
        DatabaseError,
    >)
        ensures
            match delete_outcome(old(self)@, table_name@) {
                Ok((db, count)) => r is Ok && r->Ok_0 == count && final(self)@ == db,
                Err(e) => r is Err && r->Err_0@ == e && final(self)@ == old(self)@,
            },
    {
        proof {
            use_type_invariant(&*self);
        }
        let place = match self.store.places.get(table_name) {
            Some(place) => *place,
            None => return Err(DatabaseError::storage("Table not found")),
        };
        let mut store = self.take_store();
        let deleted_count = store.tables[place].data.len();
        store.tables[place].data.clear();
        assert(store.tables[place as int].data.deep_view() =~= Seq::<Row>::empty());
        self.store = store;
        assert(self@ =~= old(self)@.insert(table_name@, old(self)@[table_name@].cleared()));
        Ok(deleted_count)
    }
}

} // verus!
