//! The list of sales.
use vstd::prelude::*;

verus! {

/// What the list of sales can ask for.
#[derive(Debug, Clone, Copy, PartialEq, Eq, Structural)]
pub enum Message {
    NewSale,
    SelectSale(usize),
}

} // verus!
