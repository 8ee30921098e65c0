//! The main menu: its five commands and the lines that show it.

use crate::text::{decimal, decimal_string, same_text};
use vstd::prelude::*;
use vstd::string::*;

verus! {

/// A command of the main menu.
#[derive(Clone, Copy, Debug, PartialEq, Eq, Structural)]
pub enum MainMenu {
    AddBill,
    ViewBills,
    RemoveBill,
    EditBill,
    Exit,
}

/// The command that a line of input selects: the digits `1` to `5`, each
/// alone on the line, select the five commands, and nothing else selects
/// any.
pub open spec fn selects(input: Seq<char>) -> Option<MainMenu> {
    if input.len() != 1 {
        None
    } else if input[0] == '1' {
        Some(MainMenu::AddBill)
    } else if input[0] == '2' {
        Some(MainMenu::ViewBills)
    } else if input[0] == '3' {
        Some(MainMenu::RemoveBill)
    } else if input[0] == '4' {
        Some(MainMenu::EditBill)
    } else if input[0] == '5' {
        Some(MainMenu::Exit)
    } else {
        None
    }
}

/// The lines of the menu when the book holds `total` bills.
pub open spec fn menu_lines(total: nat) -> Seq<Seq<char>> {
    seq![
        "=============================="@,
        "1. Add Bill"@,
        "2. View Bills"@,
        "3. Remove Bill"@,
        "4. Edit Bill"@,
        "5. Exit"@,
        "Total: "@ + decimal(total),
        "Enter your choice:"@,
        "=============================="@,
    ]
}

/// What a sequence of strings says, string by string.
pub open spec fn texts(lines: Seq<String>) -> Seq<Seq<char>> {
    lines.map_values(|line: String| line@)
}

impl MainMenu {
    /// The command that the input selects, if it selects one.
    pub fn from_str(input: &str) -> (r: Option<MainMenu>)
        ensures
            r == selects(input@),
    {
        proof {
            reveal_strlit("1");
            reveal_strlit("2");
            reveal_strlit("3");
            reveal_strlit("4");
            reveal_strlit("5");
            assert(input@.len() == 1 ==> input@ =~= seq![input@[0]]);
            assert("1"@ =~= seq!['1']);
            assert("2"@ =~= seq!['2']);
            assert("3"@ =~= seq!['3']);
            assert("4"@ =~= seq!['4']);
            assert("5"@ =~= seq!['5']);
        }
        if same_text(input, "1") {
            Some(MainMenu::AddBill)
        } else if same_text(input, "2") {
            Some(MainMenu::ViewBills)
        } else if same_text(input, "3") {
            Some(MainMenu::RemoveBill)
        } else if same_text(input, "4") {
            Some(MainMenu::EditBill)
        } else if same_text(input, "5") {
            Some(MainMenu::Exit)
        } else {
            None
        }
    }

    /// The lines that show the menu, with the number of bills in the book.
    pub fn show(total: usize) -> (r: Vec<String>)
        ensures
            texts(r@) == menu_lines(total as nat),
    {
        let mut lines: Vec<String> = Vec::new();
        lines.push(String::from_str("=============================="));
        lines.push(String::from_str("1. Add Bill"));
        lines.push(String::from_str("2. View Bills"));
        lines.push(String::from_str("3. Remove Bill"));
        lines.push(String::from_str("4. Edit Bill"));
        lines.push(String::from_str("5. Exit"));
        let mut count = String::from_str("Total: ");
        count.append(decimal_string(total).as_str());
        lines.push(count);
        lines.push(String::from_str("Enter your choice:"));
        lines.push(String::from_str("=============================="));
        assert(texts(lines@) =~= menu_lines(total as nat));
        lines
    }
}

} // verus!
