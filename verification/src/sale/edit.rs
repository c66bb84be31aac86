//! The form that edits a sale.
use vstd::prelude::*;

use crate::action::{Action, ActionView, Effect, EffectView};
use crate::program::Hotkey;
use crate::sale::Instruction;
use crate::tax::TaxGroup;

verus! {

/// A new value for one input of a line item.
///
/// `Price` holds the bit pattern of the `f32` that the price text reads as
/// (`f32::to_bits`), or `None` when the text is empty or no number.
/// `Quantity` holds the text as typed.
#[derive(Debug)]
pub enum Field {
    Name(String),
    Price(Option<u32>),
    Quantity(String),
    TaxGroup(TaxGroup),
}

/// What the form that edits a sale can ask for. The service charge and the
/// gratuity are bit patterns of `f32` values.
#[derive(Debug)]
pub enum Message {
    Cancel,
    Save,
    NameInput(String),
    NameSubmit,
    AddItem,
    RemoveItem(usize),
    UpdateItem(usize, Field),
    SubmitItem(usize),
    UpdateServiceCharge(u32),
    UpdateGratuity(u32),
}


/// What a hotkey asks of the program on the form: Escape cancels the edit,
/// Tab moves the focus on, and Shift+Tab moves it back.
pub open spec fn hotkey_answer(hotkey: Hotkey) -> ActionView {
    match hotkey {
        Hotkey::Escape => ActionView {
            instruction: Some(Instruction::Cancel),
            task: EffectView::Nothing,
        },
        Hotkey::Tab { shift } => ActionView {
            instruction: None,
            task: if shift {
                EffectView::FocusPrevious
            } else {
                EffectView::FocusNext
            },
        },
    }
}

/// Handles a hotkey on the form.
pub fn handle_hotkey(hotkey: Hotkey) -> (action: Action)
    ensures
        action@ == hotkey_answer(hotkey),
{
    match hotkey {
        Hotkey::Escape => Action::instruction(Instruction::Cancel),
        Hotkey::Tab { shift } => if shift {
            Action::task(Effect::FocusPrevious)
        } else {
            Action::task(Effect::FocusNext)
        },
    }
}

} // verus!
