use inventory_core::database::{create_pool_at, setup_outcome, DbPool, SetupError};
use inventory_core::inventory::{Ingredient, Inventory, StoreError};
use inventory_core::menu::edit_quantity;
use inventory_core::timestamp::Timestamp;

fn memory_uri(name: &str) -> String {
    format!("file:inventory_test_{}?mode=memory&cache=shared", name)
}

fn fresh_pool(name: &str) -> DbPool {
    create_pool_at(&memory_uri(name)).expect("an in-memory database opens")
}

fn fresh_store(name: &str) -> Inventory {
    Inventory::new(fresh_pool(name))
}

fn named<'a>(listed: &'a [Ingredient], name: &str) -> Vec<&'a Ingredient> {
    listed.iter().filter(|i| i.name == name).collect()
}

#[test]
fn list_on_empty_store_is_empty_and_ok() {
    let store = fresh_store("empty");
    let listed = store.list_ingredients().expect("listing an empty store succeeds");
    assert!(listed.is_empty());
}

#[test]
fn add_then_list_yields_one_matching_row() {
    let store = fresh_store("add_then_list");
    let before = Timestamp::now();
    store.add_ingredient("sugar".to_string(), 3, "bags".to_string()).unwrap();
    let listed = store.list_ingredients().unwrap();
    let rows = named(&listed, "sugar");
    assert_eq!(rows.len(), 1);
    assert_eq!(rows[0].quantity, 3);
    assert_eq!(rows[0].unit, "bags");
    assert!(rows[0].last_edited.at_or_after(&before));
    assert_eq!(listed.len(), 1);
}

#[test]
fn add_keeps_other_rows() {
    let store = fresh_store("keeps_others");
    store.add_ingredient("salt".to_string(), 1, "kg".to_string()).unwrap();
    store.add_ingredient("rice".to_string(), 20, "kg".to_string()).unwrap();
    let listed = store.list_ingredients().unwrap();
    assert_eq!(listed.len(), 2);
    assert_eq!(named(&listed, "salt")[0].quantity, 1);
    assert_eq!(named(&listed, "rice")[0].quantity, 20);
}

#[test]
fn second_add_with_same_name_wins() {
    let store = fresh_store("last_write");
    store.add_ingredient("milk".to_string(), 2, "l".to_string()).unwrap();
    let first = store.list_ingredients().unwrap();
    let first_stamp = named(&first, "milk")[0].last_edited;
    store.add_ingredient("milk".to_string(), 7, "bottles".to_string()).unwrap();
    let listed = store.list_ingredients().unwrap();
    let rows = named(&listed, "milk");
    assert_eq!(listed.len(), 1);
    assert_eq!(rows.len(), 1);
    assert_eq!(rows[0].quantity, 7);
    assert_eq!(rows[0].unit, "bottles");
    assert!(rows[0].last_edited.at_or_after(&first_stamp));
}

#[test]
fn repeated_identical_adds_converge() {
    let store = fresh_store("idempotent");
    store.add_ingredient("oil".to_string(), 4, "l".to_string()).unwrap();
    store.add_ingredient("oil".to_string(), 4, "l".to_string()).unwrap();
    let listed = store.list_ingredients().unwrap();
    assert_eq!(listed.len(), 1);
    assert_eq!(listed[0].name, "oil");
    assert_eq!(listed[0].quantity, 4);
    assert_eq!(listed[0].unit, "l");
}

#[test]
fn delete_of_missing_name_is_not_found_and_changes_nothing() {
    let store = fresh_store("delete_missing");
    store.add_ingredient("eggs".to_string(), 12, "each".to_string()).unwrap();
    let before = store.list_ingredients().unwrap();
    match store.delete_ingredient("yeast".to_string()) {
        Err(StoreError::NotFound(name)) => assert_eq!(name, "yeast"),
        other => panic!("expected not found, got {:?}", other),
    }
    let after = store.list_ingredients().unwrap();
    assert_eq!(after.len(), 1);
    assert_eq!(after[0].name, before[0].name);
    assert_eq!(after[0].quantity, before[0].quantity);
    assert_eq!(after[0].unit, before[0].unit);
    assert_eq!(after[0].last_edited, before[0].last_edited);
}

#[test]
fn delete_of_present_name_removes_exactly_that_row() {
    let store = fresh_store("delete_present");
    store.add_ingredient("eggs".to_string(), 12, "each".to_string()).unwrap();
    store.add_ingredient("butter".to_string(), 2, "blocks".to_string()).unwrap();
    store.delete_ingredient("eggs".to_string()).unwrap();
    let listed = store.list_ingredients().unwrap();
    assert_eq!(listed.len(), 1);
    assert!(named(&listed, "eggs").is_empty());
    assert_eq!(named(&listed, "butter").len(), 1);
}

#[test]
fn delete_matches_the_exact_name_only() {
    let store = fresh_store("exact_name");
    store.add_ingredient("Flour".to_string(), 1, "kg".to_string()).unwrap();
    assert!(matches!(store.delete_ingredient("flour".to_string()), Err(StoreError::NotFound(_))));
    assert!(matches!(store.delete_ingredient("Flour ".to_string()), Err(StoreError::NotFound(_))));
    assert_eq!(store.list_ingredients().unwrap().len(), 1);
}

#[test]
fn flour_scenario() {
    let store = fresh_store("flour");
    store.add_ingredient("flour".to_string(), 10, "kg".to_string()).unwrap();
    let listed = store.list_ingredients().unwrap();
    assert!(listed.iter().any(|i| i.name == "flour" && i.quantity == 10 && i.unit == "kg"));

    store.add_ingredient("flour".to_string(), 5, "kg".to_string()).unwrap();
    let listed = store.list_ingredients().unwrap();
    let rows = named(&listed, "flour");
    assert_eq!(rows.len(), 1);
    assert_eq!(rows[0].quantity, 5);

    store.delete_ingredient("flour".to_string()).unwrap();
    assert!(store.list_ingredients().unwrap().is_empty());

    match store.delete_ingredient("flour".to_string()) {
        Err(StoreError::NotFound(name)) => assert_eq!(name, "flour"),
        other => panic!("expected not found, got {:?}", other),
    }
}

#[test]
fn empty_name_is_stored_like_any_other() {
    let store = fresh_store("empty_name");
    store.add_ingredient(String::new(), 1, "each".to_string()).unwrap();
    let listed = store.list_ingredients().unwrap();
    assert_eq!(listed.len(), 1);
    assert_eq!(listed[0].name, "");
    store.delete_ingredient(String::new()).unwrap();
    assert!(store.list_ingredients().unwrap().is_empty());
}

#[test]
fn largest_quantity_survives_the_round_trip() {
    let store = fresh_store("max_quantity");
    store.add_ingredient("sand".to_string(), u32::MAX, "grains".to_string()).unwrap();
    store.add_ingredient("air".to_string(), 0, "l".to_string()).unwrap();
    let listed = store.list_ingredients().unwrap();
    assert_eq!(named(&listed, "sand")[0].quantity, u32::MAX);
    assert_eq!(named(&listed, "air")[0].quantity, 0);
}

#[test]
fn stored_time_reads_back_as_written() {
    let store = fresh_store("stamp_round_trip");
    let before = Timestamp::now();
    store.add_ingredient("tea".to_string(), 1, "box".to_string()).unwrap();
    let after = Timestamp::now();
    let first = store.list_ingredients().unwrap()[0].last_edited;
    let second = store.list_ingredients().unwrap()[0].last_edited;
    assert_eq!(first, second);
    assert!(first.at_or_after(&before));
    assert!(after.at_or_after(&first));
}

#[test]
fn setup_is_idempotent_across_restarts() {
    let uri = memory_uri("restart");
    let keeper = rusqlite::Connection::open(&uri).unwrap();
    let first = Inventory::new(create_pool_at(&uri).unwrap());
    first.add_ingredient("jam".to_string(), 2, "jars".to_string()).unwrap();
    drop(first);
    let second = Inventory::new(create_pool_at(&uri).unwrap());
    let listed = second.list_ingredients().unwrap();
    assert_eq!(listed.len(), 1);
    assert_eq!(listed[0].name, "jam");
    assert_eq!(listed[0].quantity, 2);
    drop(keeper);
}

#[test]
fn unreadable_stored_time_reads_as_now() {
    let uri = memory_uri("lenient");
    let store = Inventory::new(create_pool_at(&uri).unwrap());
    let direct = rusqlite::Connection::open(&uri).unwrap();
    direct
        .execute(
            "INSERT INTO ingredients (name, quantity, unit, last_edited) VALUES ('old', 4, 'kg', 'yesterday')",
            [],
        )
        .unwrap();
    let before = Timestamp::now();
    let listed = store.list_ingredients().unwrap();
    let after = Timestamp::now();
    assert_eq!(listed.len(), 1);
    assert_eq!(listed[0].name, "old");
    assert_eq!(listed[0].quantity, 4);
    assert_eq!(listed[0].unit, "kg");
    assert!(listed[0].last_edited.at_or_after(&before));
    assert!(after.at_or_after(&listed[0].last_edited));
}

#[test]
fn readable_stored_time_is_kept() {
    let uri = memory_uri("kept_stamp");
    let store = Inventory::new(create_pool_at(&uri).unwrap());
    let direct = rusqlite::Connection::open(&uri).unwrap();
    direct
        .execute(
            "INSERT INTO ingredients (name, quantity, unit, last_edited) VALUES ('old', 4, 'kg', '2015-05-15T00:00:00.5+00:00')",
            [],
        )
        .unwrap();
    let listed = store.list_ingredients().unwrap();
    assert_eq!(listed[0].last_edited, Timestamp { secs: 1431648000, nanos: 500_000_000 });
}

#[test]
fn failing_statement_is_a_query_error() {
    let uri = memory_uri("dropped_table");
    let store = Inventory::new(create_pool_at(&uri).unwrap());
    let direct = rusqlite::Connection::open(&uri).unwrap();
    direct.execute("DROP TABLE ingredients", []).unwrap();
    assert!(matches!(store.list_ingredients(), Err(StoreError::Query(_))));
    assert!(matches!(
        store.add_ingredient("x".to_string(), 1, "y".to_string()),
        Err(StoreError::Query(_))
    ));
    assert!(matches!(store.delete_ingredient("x".to_string()), Err(StoreError::Query(_))));
}

#[test]
fn row_that_does_not_fit_is_a_query_error() {
    let uri = memory_uri("bad_row");
    let store = Inventory::new(create_pool_at(&uri).unwrap());
    let direct = rusqlite::Connection::open(&uri).unwrap();
    direct
        .execute(
            "INSERT INTO ingredients (name, quantity, unit, last_edited) VALUES ('big', 4294967296, 'kg', 'x')",
            [],
        )
        .unwrap();
    assert!(matches!(store.list_ingredients(), Err(StoreError::Query(_))));
}

#[test]
fn table_that_cannot_be_created_is_a_schema_error() {
    let uri = memory_uri("schema_clash");
    let direct = rusqlite::Connection::open(&uri).unwrap();
    direct.execute("CREATE TABLE other (a TEXT)", []).unwrap();
    direct.execute("CREATE INDEX ingredients ON other (a)", []).unwrap();
    assert!(matches!(create_pool_at(&uri), Err(SetupError::Schema(_))));
}

#[test]
fn setup_outcome_follows_the_statement() {
    let pool = fresh_pool("setup_ok");
    assert!(setup_outcome(pool, Ok(0)).is_ok());
    let pool = fresh_pool("setup_err");
    assert!(matches!(
        setup_outcome(pool, Err(rusqlite::Error::QueryReturnedNoRows)),
        Err(SetupError::Schema(rusqlite::Error::QueryReturnedNoRows))
    ));
}

#[test]
fn bulk_delete_stops_at_first_failure() {
    let store = fresh_store("bulk_delete");
    store.add_ingredient("a".to_string(), 1, "u".to_string()).unwrap();
    store.add_ingredient("b".to_string(), 2, "u".to_string()).unwrap();
    store.add_ingredient("c".to_string(), 3, "u".to_string()).unwrap();
    let names = vec!["a".to_string(), "zz".to_string(), "c".to_string()];
    match store.delete_ingredients(&names) {
        Err(StoreError::NotFound(name)) => assert_eq!(name, "zz"),
        other => panic!("expected not found, got {:?}", other),
    }
    let listed = store.list_ingredients().unwrap();
    assert_eq!(listed.len(), 2);
    assert!(named(&listed, "a").is_empty());
    assert_eq!(named(&listed, "c").len(), 1);
}

#[test]
fn bulk_delete_of_all_names_empties_the_store() {
    let store = fresh_store("bulk_delete_all");
    store.add_ingredient("a".to_string(), 1, "u".to_string()).unwrap();
    store.add_ingredient("b".to_string(), 2, "u".to_string()).unwrap();
    store.delete_ingredients(&vec!["b".to_string(), "a".to_string()]).unwrap();
    assert!(store.list_ingredients().unwrap().is_empty());
    store.delete_ingredients(&Vec::new()).unwrap();
}

#[test]
fn edit_keeps_the_unit_and_sets_the_quantity() {
    let store = fresh_store("edit");
    store.add_ingredient("flour".to_string(), 10, "kg".to_string()).unwrap();
    edit_quantity(&store, "flour".to_string(), 3).unwrap();
    let listed = store.list_ingredients().unwrap();
    assert_eq!(listed.len(), 1);
    assert_eq!(listed[0].quantity, 3);
    assert_eq!(listed[0].unit, "kg");
}

#[test]
fn edit_of_missing_name_is_not_found() {
    let store = fresh_store("edit_missing");
    match edit_quantity(&store, "flour".to_string(), 3) {
        Err(StoreError::NotFound(name)) => assert_eq!(name, "flour"),
        other => panic!("expected not found, got {:?}", other),
    }
    assert!(store.list_ingredients().unwrap().is_empty());
}
