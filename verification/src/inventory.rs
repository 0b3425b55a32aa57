//! The ingredient store: add or update, list and delete, each one statement
//! on a pooled connection.

use crate::database::{
    checkout, execute, query_rows, DbPool, StoredRow, StoredRowView, DELETE_SQL, SELECT_ALL_SQL,
    UPSERT_SQL,
};
use crate::quantity::{format_quantity, quantity_text};
use crate::timestamp::Timestamp;
use vstd::prelude::*;
use vstd::std_specs::convert::FromSpecImpl;
use vstd::string::StringExecFns;

verus! {

/// A named, quantified stock item with a unit and the time of its last
/// write.
#[derive(Debug)]
pub struct Ingredient {
    pub name: String,
    pub quantity: u32,
    pub unit: String,
    pub last_edited: Timestamp,
}

/// An ingredient as plain values.
pub struct IngredientView {
    pub name: Seq<char>,
    pub quantity: u32,
    pub unit: Seq<char>,
    pub last_edited: Timestamp,
}

impl View for Ingredient {
    type V = IngredientView;

    open spec fn view(&self) -> IngredientView {
        IngredientView {
            name: self.name@,
            quantity: self.quantity,
            unit: self.unit@,
            last_edited: self.last_edited,
        }
    }
}

impl Clone for Ingredient {
    fn clone(&self) -> (copy: Self)
        ensures
            copy@ == self@,
    {
        Ingredient {
            name: self.name.clone(),
            quantity: self.quantity,
            unit: self.unit.clone(),
            last_edited: self.last_edited,
        }
    }
}

/// The ingredient that a stored row stands for, where text that is no
/// timestamp counts as `fallback`.
pub open spec fn decoded(row: StoredRowView, fallback: Timestamp) -> IngredientView {
    IngredientView {
        name: row.name,
        quantity: row.quantity,
        unit: row.unit,
        last_edited: Timestamp::lenient(row.last_edited, fallback),
    }
}

/// Whether `listed` is what the stored `rows` are read as, one for one and
/// in order: each ingredient has its row's name, quantity and unit, and its
/// row's last-edited time wherever that text is a timestamp.
pub open spec fn decoded_all(rows: Seq<StoredRow>, listed: Seq<Ingredient>) -> bool {
    &&& listed.len() == rows.len()
    &&& forall|i: int|
        0 <= i < rows.len() ==> (#[trigger] listed[i])@ == decoded(
            rows[i]@,
            listed[i].last_edited,
        )
}

/// Why a store operation failed.
#[derive(Debug)]
pub enum StoreError {
    /// The pool could not lend a connection.
    Connection(r2d2::Error),
    /// The statement could not be run.
    Query(rusqlite::Error),
    /// No ingredient of this name is stored.
    NotFound(String),
}

impl From<r2d2::Error> for StoreError {
    /// A pool that lends no connection is a connection error.
    fn from(e: r2d2::Error) -> (r: StoreError) {
        StoreError::Connection(e)
    }
}

impl FromSpecImpl<r2d2::Error> for StoreError {
    open spec fn obeys_from_spec() -> bool {
        true
    }

    open spec fn from_spec(e: r2d2::Error) -> StoreError {
        StoreError::Connection(e)
    }
}

impl From<rusqlite::Error> for StoreError {
    /// A statement that fails is a query error.
    fn from(e: rusqlite::Error) -> (r: StoreError) {
        StoreError::Query(e)
    }
}

impl FromSpecImpl<rusqlite::Error> for StoreError {
    open spec fn obeys_from_spec() -> bool {
        true
    }

    open spec fn from_spec(e: rusqlite::Error) -> StoreError {
        StoreError::Query(e)
    }
}

/// Whether `text` begins with `prefix`.
pub open spec fn starts_with(text: Seq<char>, prefix: Seq<char>) -> bool {
    prefix.len() <= text.len() && text.subrange(0, prefix.len() as int) == prefix
}

impl StoreError {
    /// The message of this error.
    pub fn message(&self) -> (text: String)
        ensures
            match *self {
                StoreError::Connection(_) => starts_with(text@, "Database pool error: "@),
                StoreError::Query(_) => starts_with(text@, "Database query error: "@),
                StoreError::NotFound(name) => text@ == "Ingredient '"@ + name@ + "' not found"@,
            },
    {
        match self {
            StoreError::Connection(e) => {
                let text = "Database pool error: ".to_owned().concat(e.to_string().as_str());
                assert(text@.subrange(0, "Database pool error: "@.len() as int)
                    == "Database pool error: "@);
                text
            },
            StoreError::Query(e) => {
                let text = "Database query error: ".to_owned().concat(e.to_string().as_str());
                assert(text@.subrange(0, "Database query error: "@.len() as int)
                    == "Database query error: "@);
                text
            },
            StoreError::NotFound(name) => "Ingredient '".to_owned().concat(name.as_str()).concat(
                "' not found",
            ),
        }
    }
}

/// The store's handle on the database.
pub struct Inventory {
    pool: DbPool,
}

/// Reads one stored row; text that is no timestamp is read as `fallback`.
pub fn decode_row(row: &StoredRow, fallback: Timestamp) -> (ingredient: Ingredient)
    ensures
        ingredient@ == decoded(row@, fallback),
{
    Ingredient {
        name: row.name.clone(),
        quantity: row.quantity,
        unit: row.unit.clone(),
        last_edited: Timestamp::parse_or(row.last_edited.as_str(), fallback),
    }
}

/// Reads stored rows into ingredients, one for one and in order. A row
/// whose last-edited text is no timestamp gets the time at which it is
/// read here.
pub fn materialize(rows: &Vec<StoredRow>) -> (listed: Vec<Ingredient>)
    ensures
        decoded_all(rows@, listed@),
{
    let mut listed: Vec<Ingredient> = Vec::new();
    let mut i: usize = 0;
    while i < rows.len()
        invariant
            i <= rows.len(),
            decoded_all(rows@.subrange(0, i as int), listed@),
        decreases rows.len() - i,
    {
        let row = &rows[i];
        let ingredient = Ingredient {
            name: row.name.clone(),
            quantity: row.quantity,
            unit: row.unit.clone(),
            last_edited: Timestamp::parse_or_now(row.last_edited.as_str()),
        };
        proof {
            let before = listed@;
            let after = before.push(ingredient);
            assert forall|k: int| 0 <= k < i + 1 implies (#[trigger] after[k])@ == decoded(
                rows@.subrange(0, i + 1)[k]@,
                after[k].last_edited,
            ) by {
                if k < i {
                    assert(after[k] == before[k]);
                    assert(rows@.subrange(0, i as int)[k] == rows@[k]);
                }
            }
        }
        listed.push(ingredient);
        i += 1;
    }
    assert(rows@.subrange(0, i as int) == rows@);
    listed
}

/// The four texts bound to the write statement, in order: name, quantity in
/// decimal, unit, last-edited text.
pub fn upsert_params(name: String, quantity: u32, unit: String, stamp: String) -> (params: Vec<
    String,
>)
    ensures
        params@.len() == 4,
        params@[0]@ == name@,
        params@[1]@ == quantity_text(quantity as nat),
        params@[2]@ == unit@,
        params@[3]@ == stamp@,
{
    let mut params: Vec<String> = Vec::new();
    params.push(name);
    params.push(format_quantity(quantity));
    params.push(unit);
    params.push(stamp);
    params
}

/// The one text bound to the delete statement: the name.
pub fn delete_params(name: &String) -> (params: Vec<String>)
    ensures
        params@.len() == 1,
        params@[0]@ == name@,
{
    let mut params: Vec<String> = Vec::new();
    params.push(name.clone());
    params
}

/// What a write reports for an outcome of its statement: success whatever
/// the row count, a query error where the statement failed.
pub open spec fn add_report(executed: Result<usize, rusqlite::Error>) -> Result<(), StoreError> {
    match executed {
        Ok(_) => Ok(()),
        Err(e) => Err(StoreError::Query(e)),
    }
}

/// What a delete of `name` reports for an outcome of its statement: not
/// found exactly where the statement ran and removed no row.
pub open spec fn delete_report(name: String, executed: Result<usize, rusqlite::Error>) -> Result<
    (),
    StoreError,
> {
    match executed {
        Ok(removed) => if removed == 0 {
            Err(StoreError::NotFound(name))
        } else {
            Ok(())
        },
        Err(e) => Err(StoreError::Query(e)),
    }
}

/// What a write reports, given what running its statement gave.
pub fn add_outcome(executed: Result<usize, rusqlite::Error>) -> (r: Result<(), StoreError>)
    ensures
        r == add_report(executed),
{
    match executed {
        Ok(_) => Ok(()),
        Err(e) => Err(StoreError::Query(e)),
    }
}

/// What a listing reports, given what running its query gave.
pub fn list_outcome(queried: Result<Vec<StoredRow>, rusqlite::Error>) -> (r: Result<
    Vec<Ingredient>,
    StoreError,
>)
    ensures
        match queried {
            Ok(rows) => r matches Ok(listed) && decoded_all(rows@, listed@),
            Err(e) => r == Err::<Vec<Ingredient>, StoreError>(StoreError::Query(e)),
        },
{
    match queried {
        Ok(rows) => Ok(materialize(&rows)),
        Err(e) => Err(StoreError::Query(e)),
    }
}

/// What a delete of `name` reports, given what running its statement gave.
pub fn delete_outcome(name: String, executed: Result<usize, rusqlite::Error>) -> (r: Result<
    (),
    StoreError,
>)
    ensures
        r == delete_report(name, executed),
{
    match executed {
        Ok(removed) => if removed == 0 {
            Err(StoreError::NotFound(name))
        } else {
            Ok(())
        },
        Err(e) => Err(StoreError::Query(e)),
    }
}

impl Inventory {
    /// The pool this store works on.
    pub closed spec fn pool(self) -> DbPool {
        self.pool
    }

    /// A store on the database behind `pool`.
    pub fn new(pool: DbPool) -> (inventory: Self)
        ensures
            inventory.pool() == pool,
    {
        Inventory { pool }
    }

    /// Stores `quantity` and `unit` under `name`, replacing what was stored
    /// under that name, and stamps the row with the current time.
    ///
    /// Whether the write succeeds is up to the pool and the engine; it
    /// never reports a name as not found.
    pub fn add_ingredient(&self, name: String, quantity: u32, unit: String) -> (r: Result<
        (),
        StoreError,
    >)
        ensures
            r matches Err(e) ==> e is Connection || e is Query,
    {
        let conn = match checkout(&self.pool) {
            Ok(conn) => conn,
            Err(e) => {
                return Err(StoreError::from(e));
            },
        };
        let now = Timestamp::now();
        let stamp = match now.to_rfc3339() {
            Some(stamp) => stamp,
            None => vstd::pervasive::unreached(),
        };
        let params = upsert_params(name, quantity, unit, stamp);
        add_outcome(execute(&conn, UPSERT_SQL, &params))
    }

    /// Reads every stored ingredient, in whatever order the engine gives
    /// the rows.
    ///
    /// Whether the scan runs is up to the pool and the engine; it never
    /// reports a name as not found.
    pub fn list_ingredients(&self) -> (r: Result<Vec<Ingredient>, StoreError>)
        ensures
            r matches Err(e) ==> e is Connection || e is Query,
    {
        let conn = match checkout(&self.pool) {
            Ok(conn) => conn,
            Err(e) => {
                return Err(StoreError::from(e));
            },
        };
        list_outcome(query_rows(&conn, SELECT_ALL_SQL))
    }

    /// Removes the ingredients stored under `names`, one after the other in
    /// the order given, and stops at the first delete that fails: what was
    /// removed before it stays removed.
    ///
    /// With no names there is nothing to delete, and it succeeds without
    /// asking the pool. A name reported as not found is one of `names`.
    pub fn delete_ingredients(&self, names: &Vec<String>) -> (r: Result<(), StoreError>)
        ensures
            names@.len() == 0 ==> r is Ok,
            r matches Err(StoreError::NotFound(missing)) ==> exists|i: int|
                0 <= i < names@.len() && #[trigger] names@[i] == missing,
    {
        let mut i: usize = 0;
        while i < names.len()
            invariant
                i <= names.len(),
            decreases names.len() - i,
        {
            match self.delete_ingredient(names[i].clone()) {
                Ok(()) => {},
                Err(e) => {
                    return Err(e);
                },
            }
            i += 1;
        }
        Ok(())
    }

    /// Removes the ingredient stored under `name`.
    ///
    /// Reports `NotFound` with that name where the statement ran and
    /// removed no row.
    pub fn delete_ingredient(&self, name: String) -> (r: Result<(), StoreError>)
        ensures
            r matches Err(StoreError::NotFound(missing)) ==> missing == name,
    {
        let conn = match checkout(&self.pool) {
            Ok(conn) => conn,
            Err(e) => {
                return Err(StoreError::from(e));
            },
        };
        let params = delete_params(&name);
        delete_outcome(name, execute(&conn, DELETE_SQL, &params))
    }
}

} // verus!
