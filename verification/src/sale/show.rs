//! The read-only screen of a sale.
use vstd::prelude::*;

use crate::action::{Action, ActionView, EffectView};
use crate::program::Hotkey;
use crate::sale::Instruction;

verus! {

/// What the read-only screen of a sale can ask for.
#[derive(Debug, Clone, Copy, PartialEq, Eq, Structural)]
pub enum Message {
    Back,
    PrintPDF,
    StartEdit,
}


/// What a hotkey asks of the program on the read-only screen: Escape goes
/// back; other keys ask nothing.
pub open spec fn hotkey_answer(hotkey: Hotkey) -> ActionView {
    match hotkey {
        Hotkey::Escape => ActionView { instruction: Some(Instruction::Back), task: EffectView::Nothing },
        _ => ActionView { instruction: None, task: EffectView::Nothing },
    }
}

/// Handles a hotkey on the read-only screen.
pub fn handle_hotkey(hotkey: Hotkey) -> (action: Action)
    ensures
        action@ == hotkey_answer(hotkey),
{
    match hotkey {
        Hotkey::Escape => Action::instruction(Instruction::Back),
        _ => Action::none(),
    }
}

} // verus!
