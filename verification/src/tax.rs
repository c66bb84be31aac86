//! Tax groups of line items.
use vstd::prelude::*;

verus! {

/// The tax group that a line item is charged under.
#[derive(Debug, Clone, Copy, PartialEq, Eq, Structural)]
pub enum TaxGroup {
    Food,
}

} // verus!
