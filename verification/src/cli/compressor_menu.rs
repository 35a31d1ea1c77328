//! The compression operations menu: its entries and what each stands for.
use vstd::prelude::*;

use crate::text::str_eq;

verus! {

/// What a compression-menu selection asks for.
#[derive(Clone, Copy, Debug, PartialEq, Eq, Structural)]
pub enum CompressorOp {
    /// Compress every image of a folder.
    Compress,
    /// Return to the main menu.
    GoBack,
    /// The selection matches no entry of the menu.
    Unrecognized,
}

/// The operation that a compression-menu selection stands for.
pub open spec fn compression_op_spec(choice: Seq<char>) -> CompressorOp {
    if choice == "Compress a folder of images"@ {
        CompressorOp::Compress
    } else if choice == "Go back"@ {
        CompressorOp::GoBack
    } else {
        CompressorOp::Unrecognized
    }
}

/// The entries of the compression menu, in the order they are shown.
pub fn compressor_menu_items() -> (items: Vec<&'static str>)
    ensures
        items@.len() == 2,
        items@[0]@ == "Compress a folder of images"@,
        items@[1]@ == "Go back"@,
{
    let mut items: Vec<&'static str> = Vec::new();
    items.push("Compress a folder of images");
    items.push("Go back");
    items
}

/// Decides which compression operation a menu selection asks for.
pub fn compression_operations(choice: &str) -> (r: CompressorOp)
    ensures
        r == compression_op_spec(choice@),
{
    if str_eq(choice, "Compress a folder of images") {
        CompressorOp::Compress
    } else if str_eq(choice, "Go back") {
        CompressorOp::GoBack
    } else {
        CompressorOp::Unrecognized
    }
}

/// Every entry shown by the compression menu stands for a recognized
/// operation.
pub proof fn lemma_compressor_menu_complete(choice: Seq<char>)
    requires
        choice == "Compress a folder of images"@ || choice == "Go back"@,
    ensures
        compression_op_spec(choice) != CompressorOp::Unrecognized,
{
}

} // verus!
