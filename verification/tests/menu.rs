use inventory_core::inventory::{Ingredient, StoreError};
use inventory_core::menu::{current_unit, parse_choice, render_listing, MenuChoice};
use inventory_core::quantity::{format_quantity, parse_quantity};
use inventory_core::timestamp::Timestamp;

fn ingredient(name: &str, quantity: u32, unit: &str) -> Ingredient {
    Ingredient {
        name: name.to_string(),
        quantity,
        unit: unit.to_string(),
        last_edited: Timestamp { secs: 0, nanos: 0 },
    }
}

#[test]
fn numbered_entries_select_their_actions() {
    assert_eq!(parse_choice("1"), MenuChoice::List);
    assert_eq!(parse_choice("2"), MenuChoice::Add);
    assert_eq!(parse_choice("3"), MenuChoice::Edit);
    assert_eq!(parse_choice("4"), MenuChoice::Delete);
    assert_eq!(parse_choice("5"), MenuChoice::Exit);
}

#[test]
fn anything_else_is_an_invalid_choice() {
    for input in ["", "0", "6", "9", "11", " 1", "1 ", "one", "+1", "１", "é", "1\n"] {
        assert_eq!(parse_choice(input), MenuChoice::Invalid, "input {:?}", input);
    }
}

#[test]
fn typed_quantities_are_read_in_decimal() {
    assert_eq!(parse_quantity("0"), Some(0));
    assert_eq!(parse_quantity("7"), Some(7));
    assert_eq!(parse_quantity("10"), Some(10));
    assert_eq!(parse_quantity("+10"), Some(10));
    assert_eq!(parse_quantity("007"), Some(7));
    assert_eq!(parse_quantity("4294967295"), Some(u32::MAX));
    assert_eq!(parse_quantity("+4294967295"), Some(u32::MAX));
    assert_eq!(parse_quantity("00000000000000000004294967295"), Some(u32::MAX));
}

#[test]
fn malformed_quantities_ask_again() {
    for input in [
        "", "+", "-", "-1", "-0", "++1", "+-1", "1+", "1.5", "1e3", "ten", " 1", "1 ", "1_000",
        "0x10", "4294967296", "42949672950", "99999999999999999999", "１２", "1é", "é1", "\u{0}",
    ] {
        assert_eq!(parse_quantity(input), None, "input {:?}", input);
    }
}

#[test]
fn typed_quantities_agree_with_the_standard_parser() {
    let mut inputs: Vec<String> = Vec::new();
    for n in [0u64, 1, 9, 10, 99, 100, 4294967294, 4294967295, 4294967296, 4294967305, 5000000000] {
        inputs.push(n.to_string());
        inputs.push(format!("+{}", n));
        inputs.push(format!("-{}", n));
        inputs.push(format!("0{}", n));
        inputs.push(format!("{} ", n));
        inputs.push(format!("{}a", n));
    }
    for a in ['+', '-', '0', '9', ' ', 'x', '/', ':'] {
        for b in ['+', '-', '0', '9', ' ', 'x', '/', ':'] {
            inputs.push(format!("{}{}", a, b));
            inputs.push(format!("{}", a));
        }
    }
    for input in inputs {
        assert_eq!(parse_quantity(&input), input.parse::<u32>().ok(), "input {:?}", input);
    }
}

#[test]
fn empty_listing_prints_one_line() {
    assert_eq!(render_listing(&Vec::new()), vec!["No ingredients found."]);
}

#[test]
fn listing_prints_name_and_quantity_per_row() {
    let listed = vec![ingredient("flour", 10, "kg"), ingredient("", 0, ""), ingredient("a: b", u32::MAX, "x")];
    assert_eq!(render_listing(&listed), vec!["- flour: 10", "- : 0", "- a: b: 4294967295"]);
}

#[test]
fn edit_takes_the_unit_of_the_first_row_of_that_name() {
    let listed = vec![
        ingredient("salt", 1, "g"),
        ingredient("flour", 10, "kg"),
        ingredient("flour", 11, "lb"),
    ];
    assert_eq!(current_unit(&listed, &"flour".to_string()).unwrap(), "kg");
    assert_eq!(current_unit(&listed, &"salt".to_string()).unwrap(), "g");
}

#[test]
fn edit_of_a_name_not_listed_is_not_found() {
    let listed = vec![ingredient("salt", 1, "g")];
    match current_unit(&listed, &"Salt".to_string()) {
        Err(StoreError::NotFound(name)) => assert_eq!(name, "Salt"),
        other => panic!("expected not found, got {:?}", other),
    }
    assert!(matches!(
        current_unit(&Vec::new(), &String::new()),
        Err(StoreError::NotFound(_))
    ));
}

#[test]
fn quantities_are_written_in_decimal() {
    assert_eq!(format_quantity(0), "0");
    assert_eq!(format_quantity(7), "7");
    assert_eq!(format_quantity(10), "10");
    assert_eq!(format_quantity(1005), "1005");
    assert_eq!(format_quantity(u32::MAX), "4294967295");
}

#[test]
fn written_quantities_agree_with_the_standard_text_and_read_back() {
    let mut n: u32 = 0;
    loop {
        assert_eq!(format_quantity(n), n.to_string());
        assert_eq!(parse_quantity(&format_quantity(n)), Some(n));
        n = match n.checked_mul(3).and_then(|m| m.checked_add(1)) {
            Some(next) => next,
            None => break,
        };
    }
    for n in [9, 10, 11, 99, 100, 101, 999_999_999, 1_000_000_000, u32::MAX - 1, u32::MAX] {
        assert_eq!(format_quantity(n), n.to_string());
        assert_eq!(parse_quantity(&format_quantity(n)), Some(n));
    }
}
