//! The ingredients table as a mathematical map, keyed by name, with what
//! the store expects of the engine: what a write and a delete do to the
//! table, how many rows a delete removes, and what a full scan returns.
//!
//! The table itself lives in the database file, out of this program's
//! sight, so none of the store's functions is proved against this model.
//! The laws below hold of the model, and of the store's reports and
//! listings wherever the engine's answers are the model's.

use crate::database::StoredRow;
use crate::inventory::{decoded_all, delete_report, Ingredient, IngredientView, StoreError};
use crate::timestamp::Timestamp;
use vstd::prelude::*;

verus! {

/// The rows of the table by name.
pub type Table = Map<Seq<char>, IngredientView>;

/// A table holds finitely many rows, each under its own name.
pub open spec fn well_formed(table: Table) -> bool {
    &&& table.dom().finite()
    &&& forall|name: Seq<char>| #[trigger]
        table.dom().contains(name) ==> table[name].name == name
}

/// The row that a write of these values at the instant `at` stores.
pub open spec fn written(name: Seq<char>, quantity: u32, unit: Seq<char>, at: Timestamp)
    -> IngredientView {
    IngredientView { name, quantity, unit, last_edited: at }
}

/// The table after a write: the row of that name is the written one,
/// whether or not there was one before.
pub open spec fn after_add(
    table: Table,
    name: Seq<char>,
    quantity: u32,
    unit: Seq<char>,
    at: Timestamp,
) -> Table {
    table.insert(name, written(name, quantity, unit, at))
}

/// The table after a delete of `name`.
pub open spec fn after_delete(table: Table, name: Seq<char>) -> Table {
    table.remove(name)
}

/// The number of rows that a delete of `name` removes.
pub open spec fn rows_removed(table: Table, name: Seq<char>) -> nat {
    if table.dom().contains(name) {
        1
    } else {
        0
    }
}

/// `listed` is a full scan of `table`: every row once, in any order, and
/// nothing else.
pub open spec fn is_listing(listed: Seq<IngredientView>, table: Table) -> bool {
    &&& forall|i: int|
        0 <= i < listed.len() ==> table.dom().contains((#[trigger] listed[i]).name)
            && table[listed[i].name] == listed[i]
    &&& forall|i: int, j: int|
        0 <= i < j < listed.len() ==> (#[trigger] listed[i]).name != (#[trigger] listed[j]).name
    &&& forall|name: Seq<char>| #[trigger]
        table.dom().contains(name) ==> exists|i: int|
            0 <= i < listed.len() && (#[trigger] listed[i]).name == name
}

/// `rows` are the rows of `table` as the engine hands them out: every row
/// once, in any order, its last-edited time as text that reads back as that
/// time.
pub open spec fn is_stored_form(rows: Seq<StoredRow>, table: Table) -> bool {
    &&& forall|i: int|
        0 <= i < rows.len() ==> {
            let row = (#[trigger] rows[i])@;
            &&& table.dom().contains(row.name)
            &&& table[row.name].quantity == row.quantity
            &&& table[row.name].unit == row.unit
            &&& Timestamp::parsed(row.last_edited) == Some(table[row.name].last_edited)
        }
    &&& forall|i: int, j: int|
        0 <= i < j < rows.len() ==> (#[trigger] rows[i]).name@ != (#[trigger] rows[j]).name@
    &&& forall|name: Seq<char>| #[trigger]
        table.dom().contains(name) ==> exists|i: int|
            0 <= i < rows.len() && (#[trigger] rows[i]).name@ == name
}

/// A write keeps the table well formed.
pub proof fn lemma_add_keeps_well_formed(
    table: Table,
    name: Seq<char>,
    quantity: u32,
    unit: Seq<char>,
    at: Timestamp,
)
    requires
        well_formed(table),
    ensures
        well_formed(after_add(table, name, quantity, unit, at)),
{
}

/// A delete keeps the table well formed.
pub proof fn lemma_delete_keeps_well_formed(table: Table, name: Seq<char>)
    requires
        well_formed(table),
    ensures
        well_formed(after_delete(table, name)),
{
}

/// After a write, a full scan holds exactly one row of the written name,
/// and that row has the written quantity and unit and the instant of the
/// write.
pub proof fn lemma_add_then_list(
    table: Table,
    name: Seq<char>,
    quantity: u32,
    unit: Seq<char>,
    at: Timestamp,
    listed: Seq<IngredientView>,
)
    requires
        is_listing(listed, after_add(table, name, quantity, unit, at)),
    ensures
        exists|i: int|
            0 <= i < listed.len() && #[trigger] listed[i] == written(name, quantity, unit, at)
                && forall|j: int|
                0 <= j < listed.len() && (#[trigger] listed[j]).name == name ==> j == i,
{
    let after = after_add(table, name, quantity, unit, at);
    assert(after.dom().contains(name));
    let i = choose|i: int| 0 <= i < listed.len() && (#[trigger] listed[i]).name == name;
    assert(listed[i] == after[name]);
    assert forall|j: int| 0 <= j < listed.len() && (#[trigger] listed[j]).name == name implies j
        == i by {
        if j < i {
            assert(listed[j].name != listed[i].name);
        } else if i < j {
            assert(listed[i].name != listed[j].name);
        }
    }
}

/// Two writes under one name leave the table as the second alone would:
/// one row of that name, with the second quantity, unit and instant.
pub proof fn lemma_last_write_wins(
    table: Table,
    name: Seq<char>,
    first_quantity: u32,
    first_unit: Seq<char>,
    first_at: Timestamp,
    second_quantity: u32,
    second_unit: Seq<char>,
    second_at: Timestamp,
)
    ensures
        after_add(
            after_add(table, name, first_quantity, first_unit, first_at),
            name,
            second_quantity,
            second_unit,
            second_at,
        ) == after_add(table, name, second_quantity, second_unit, second_at),
{
    let once = after_add(table, name, first_quantity, first_unit, first_at);
    assert(after_add(once, name, second_quantity, second_unit, second_at) =~= after_add(
        table,
        name,
        second_quantity,
        second_unit,
        second_at,
    ));
}

/// A delete of a name that is not in the table removes no row, leaves the
/// table as it was, and is reported as not found where the statement
/// reports that count.
pub proof fn lemma_delete_missing(table: Table, name: String)
    requires
        !table.dom().contains(name@),
    ensures
        rows_removed(table, name@) == 0,
        after_delete(table, name@) == table,
        delete_report(name, Ok(0)) == Err::<(), StoreError>(StoreError::NotFound(name)),
{
    assert(after_delete(table, name@) =~= table);
}

/// A delete of a name that is in the table removes exactly one row, the
/// one of that name; a full scan afterwards has no row of that name, and
/// the delete succeeds where the statement reports that count.
pub proof fn lemma_delete_present(table: Table, name: String, listed: Seq<IngredientView>)
    requires
        well_formed(table),
        table.dom().contains(name@),
        is_listing(listed, after_delete(table, name@)),
    ensures
        rows_removed(table, name@) == 1,
        after_delete(table, name@).dom().len() + 1 == table.dom().len(),
        forall|other: Seq<char>|
            other != name@ && table.dom().contains(other) ==> after_delete(
                table,
                name@,
            ).dom().contains(other) && after_delete(table, name@)[other] == table[other],
        forall|i: int| 0 <= i < listed.len() ==> (#[trigger] listed[i]).name != name@,
        delete_report(name, Ok(1)) == Ok::<(), StoreError>(()),
{
}

/// A full scan of the empty table is empty.
pub proof fn lemma_empty_table_lists_nothing(listed: Seq<IngredientView>)
    requires
        is_listing(listed, Map::empty()),
    ensures
        listed.len() == 0,
{
    if listed.len() > 0 {
        assert(Map::<Seq<char>, IngredientView>::empty().dom().contains(listed[0].name));
    }
}

/// No rows are read as no ingredients.
pub proof fn lemma_no_rows_list_nothing(listed: Seq<Ingredient>)
    requires
        decoded_all(Seq::empty(), listed),
    ensures
        listed.len() == 0,
{
}

/// Where the engine hands out the rows of a table, what the store reads
/// from them is a full scan of that table.
pub proof fn lemma_stored_rows_list_the_table(
    rows: Seq<StoredRow>,
    listed: Seq<Ingredient>,
    table: Table,
)
    requires
        well_formed(table),
        is_stored_form(rows, table),
        decoded_all(rows, listed),
    ensures
        is_listing(listed.map_values(|ingredient: Ingredient| ingredient@), table),
{
    let views = listed.map_values(|ingredient: Ingredient| ingredient@);
    assert forall|i: int| 0 <= i < views.len() implies (#[trigger] views[i]).name == rows[i].name@
        && table.dom().contains(views[i].name) && table[views[i].name] == views[i] by {
        assert(listed[i]@ == crate::inventory::decoded(rows[i]@, listed[i].last_edited));
        assert(table.dom().contains(rows[i]@.name));
    }
    assert forall|i: int, j: int| 0 <= i < j < views.len() implies (#[trigger] views[i]).name != (
    #[trigger] views[j]).name by {
        assert(rows[i].name@ != rows[j].name@);
    }
    assert forall|name: Seq<char>| #[trigger] table.dom().contains(name) implies exists|i: int|
        0 <= i < views.len() && (#[trigger] views[i]).name == name by {
        let i = choose|i: int| 0 <= i < rows.len() && (#[trigger] rows[i]).name@ == name;
        assert(views[i].name == name);
    }
}

} // verus!
