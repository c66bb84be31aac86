//! The logic of a point-of-sale receipts program: sales made of line items,
//! the editing of a sale, and the screens of the program as a state machine.
//! Rendering, dialogs, PDF output and all floating-point amounts live with
//! the program that drives this library.

pub mod decimal;
pub mod action;
pub mod sale;
pub mod tax;
pub mod list;
pub mod program;
