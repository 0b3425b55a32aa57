//! The decisions of the console menu: which action a typed choice selects,
//! what a listing prints, and what an edit of a quantity writes.

use crate::inventory::{Ingredient, IngredientView, Inventory, StoreError};
use crate::quantity::{format_quantity, quantity_text};
use vstd::prelude::*;
use vstd::string::StringExecFns;

verus! {

/// What the menu does next.
#[derive(Clone, Copy, Debug, PartialEq, Eq, Structural)]
pub enum MenuChoice {
    List,
    Add,
    Edit,
    Delete,
    Exit,
    /// Anything but the five numbered entries: the menu is shown again.
    Invalid,
}

/// The action that a typed choice selects: the entries are numbered `1` to
/// `5` and match only as typed, one character and nothing around it.
pub open spec fn choice_of(text: Seq<char>) -> MenuChoice {
    if text.len() != 1 {
        MenuChoice::Invalid
    } else if text[0] == '1' {
        MenuChoice::List
    } else if text[0] == '2' {
        MenuChoice::Add
    } else if text[0] == '3' {
        MenuChoice::Edit
    } else if text[0] == '4' {
        MenuChoice::Delete
    } else if text[0] == '5' {
        MenuChoice::Exit
    } else {
        MenuChoice::Invalid
    }
}

/// Reads a typed menu choice.
pub fn parse_choice(input: &str) -> (choice: MenuChoice)
    ensures
        choice == choice_of(input@),
{
    if input.unicode_len() != 1 {
        return MenuChoice::Invalid;
    }
    let typed = input.get_char(0);
    if typed == '1' {
        MenuChoice::List
    } else if typed == '2' {
        MenuChoice::Add
    } else if typed == '3' {
        MenuChoice::Edit
    } else if typed == '4' {
        MenuChoice::Delete
    } else if typed == '5' {
        MenuChoice::Exit
    } else {
        MenuChoice::Invalid
    }
}

/// The line that a listing prints for one ingredient: a dash, the name, a
/// colon and the quantity in decimal.
pub open spec fn line_of(ingredient: IngredientView) -> Seq<char> {
    "- "@ + ingredient.name + ": "@ + quantity_text(ingredient.quantity as nat)
}

/// The lines that a listing prints: one per ingredient, in order, or a
/// single line saying that there are none.
pub fn render_listing(listed: &Vec<Ingredient>) -> (lines: Vec<String>)
    ensures
        listed@.len() == 0 ==> lines@.len() == 1 && lines@[0]@ == "No ingredients found."@,
        listed@.len() > 0 ==> lines@.len() == listed@.len() && forall|i: int|
            0 <= i < listed@.len() ==> (#[trigger] lines@[i])@ == line_of(listed@[i]@),
{
    let mut lines: Vec<String> = Vec::new();
    if listed.len() == 0 {
        lines.push("No ingredients found.".to_owned());
        return lines;
    }
    let mut i: usize = 0;
    while i < listed.len()
        invariant
            i <= listed.len(),
            lines@.len() == i,
            forall|k: int| 0 <= k < i ==> (#[trigger] lines@[k])@ == line_of(listed@[k]@),
        decreases listed.len() - i,
    {
        let quantity = format_quantity(listed[i].quantity);
        let line = "- ".to_owned().concat(listed[i].name.as_str()).concat(": ").concat(
            quantity.as_str(),
        );
        lines.push(line);
        i += 1;
    }
    lines
}

/// The position of the first ingredient of a listing that has this name.
pub open spec fn first_named(listed: Seq<Ingredient>, name: Seq<char>) -> Option<int> {
    if exists|i: int| 0 <= i < listed.len() && (#[trigger] listed[i]).name@ == name {
        Some(
            choose|i: int|
                0 <= i < listed.len() && (#[trigger] listed[i]).name@ == name && forall|j: int|
                    0 <= j < i ==> (#[trigger] listed[j]).name@ != name,
        )
    } else {
        None
    }
}

/// The unit that an edit of `name` keeps: the unit stored under that name,
/// or not found where the listing has no such name.
pub fn current_unit(listed: &Vec<Ingredient>, name: &String) -> (r: Result<String, StoreError>)
    ensures
        match first_named(listed@, name@) {
            Some(i) => r matches Ok(unit) && unit@ == listed@[i].unit@,
            None => r == Err::<String, StoreError>(StoreError::NotFound(*name)),
        },
{
    let mut i: usize = 0;
    while i < listed.len()
        invariant
            i <= listed.len(),
            forall|j: int| 0 <= j < i ==> (#[trigger] listed@[j]).name@ != name@,
        decreases listed.len() - i,
    {
        if listed[i].name == *name {
            proof {
                let found = first_named(listed@, name@)->Some_0;
                assert(listed@[i as int].name@ == name@);
                if found < i {
                    assert(listed@[found].name@ != name@);
                } else if i < found {
                    assert(listed@[i as int].name@ != name@);
                }
            }
            return Ok(listed[i].unit.clone());
        }
        i += 1;
    }
    Err(StoreError::NotFound(name.clone()))
}

/// Sets the quantity stored under `name` and keeps its unit: reads the
/// listing, takes the unit of that name from it and writes the row anew.
///
/// Reports not found, with that name, where the listing has no such name.
pub fn edit_quantity(inventory: &Inventory, name: String, quantity: u32) -> (r: Result<
    (),
    StoreError,
>)
    ensures
        r matches Err(StoreError::NotFound(missing)) ==> missing == name,
{
    let listed = match inventory.list_ingredients() {
        Ok(listed) => listed,
        Err(e) => {
            return Err(e);
        },
    };
    match current_unit(&listed, &name) {
        Ok(unit) => inventory.add_ingredient(name, quantity, unit),
        Err(e) => Err(e),
    }
}

} // verus!
