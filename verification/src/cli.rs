//! The menu layer: what each menu offers and which operation a selection
//! stands for. Prompting is left to the caller; the decisions are made here.
use vstd::prelude::*;

use crate::text::str_eq;

pub mod compressor_menu;
pub mod converter_menu;

verus! {

/// What a main-menu selection asks for.
#[derive(Clone, Copy, Debug, PartialEq, Eq, Structural)]
pub enum MainOp {
    /// Open the compression operations menu.
    CompressionOps,
    /// Open the conversion operations menu.
    ConversionOps,
    /// Leave the program.
    Exit,
    /// The selection matches no entry of the menu.
    Unrecognized,
}

/// The operation that a main-menu selection stands for.
pub open spec fn main_op_spec(choice: Seq<char>) -> MainOp {
    if choice == "Optimize folder of images"@ {
        MainOp::CompressionOps
    } else if choice == "Perform various conversion operations"@ {
        MainOp::ConversionOps
    } else if choice == "Exit"@ {
        MainOp::Exit
    } else {
        MainOp::Unrecognized
    }
}

/// The entries of the main menu, in the order they are shown.
pub fn main_menu_items() -> (items: Vec<&'static str>)
    ensures
        items@.len() == 3,
        items@[0]@ == "Optimize folder of images"@,
        items@[1]@ == "Perform various conversion operations"@,
        items@[2]@ == "Exit"@,
{
    let mut items: Vec<&'static str> = Vec::new();
    items.push("Optimize folder of images");
    items.push("Perform various conversion operations");
    items.push("Exit");
    items
}

/// Decides which operation a main-menu selection asks for.
pub fn main_menu_operation(choice: &str) -> (r: MainOp)
    ensures
        r == main_op_spec(choice@),
{
    if str_eq(choice, "Optimize folder of images") {
        MainOp::CompressionOps
    } else if str_eq(choice, "Perform various conversion operations") {
        MainOp::ConversionOps
    } else if str_eq(choice, "Exit") {
        MainOp::Exit
    } else {
        MainOp::Unrecognized
    }
}

/// Every entry shown by the main menu stands for a recognized operation.
pub proof fn lemma_main_menu_complete(choice: Seq<char>)
    requires
        choice == "Optimize folder of images"@ || choice == "Perform various conversion operations"@
            || choice == "Exit"@,
    ensures
        main_op_spec(choice) != MainOp::Unrecognized,
{
}

} // verus!
