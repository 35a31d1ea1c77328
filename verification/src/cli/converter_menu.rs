//! The conversion operations menu: its entries and what each stands for.
use vstd::prelude::*;

use crate::text::str_eq;

verus! {

/// What a conversion-menu selection asks for.
#[derive(Clone, Copy, Debug, PartialEq, Eq, Structural)]
pub enum ConverterOp {
    /// Convert every image of a folder to WebP.
    ConvertWebp,
    /// Rename every image of a folder from its capture timestamp.
    Rename,
    /// Return to the main menu.
    GoBack,
    /// The selection matches no entry of the menu.
    Unrecognized,
}

/// The operation that a conversion-menu selection stands for.
pub open spec fn conversion_op_spec(choice: Seq<char>) -> ConverterOp {
    if choice == "Convert a folder of images to WebP"@ {
        ConverterOp::ConvertWebp
    } else if choice == "Rename a folder of images"@ {
        ConverterOp::Rename
    } else if choice == "Go back"@ {
        ConverterOp::GoBack
    } else {
        ConverterOp::Unrecognized
    }
}

/// The entries of the conversion menu, in the order they are shown.
pub fn converter_menu_items() -> (items: Vec<&'static str>)
    ensures
        items@.len() == 3,
        items@[0]@ == "Convert a folder of images to WebP"@,
        items@[1]@ == "Rename a folder of images"@,
        items@[2]@ == "Go back"@,
{
    let mut items: Vec<&'static str> = Vec::new();
    items.push("Convert a folder of images to WebP");
    items.push("Rename a folder of images");
    items.push("Go back");
    items
}

/// Decides which conversion operation a menu selection asks for.
pub fn conversion_operations(choice: &str) -> (r: ConverterOp)
    ensures
        r == conversion_op_spec(choice@),
{
    if str_eq(choice, "Convert a folder of images to WebP") {
        ConverterOp::ConvertWebp
    } else if str_eq(choice, "Rename a folder of images") {
        ConverterOp::Rename
    } else if str_eq(choice, "Go back") {
        ConverterOp::GoBack
    } else {
        ConverterOp::Unrecognized
    }
}

/// Every entry shown by the conversion menu stands for a recognized
/// operation.
pub proof fn lemma_converter_menu_complete(choice: Seq<char>)
    requires
        choice == "Convert a folder of images to WebP"@ || choice == "Rename a folder of images"@
            || choice == "Go back"@,
    ensures
        conversion_op_spec(choice) != ConverterOp::Unrecognized,
{
}

} // verus!
