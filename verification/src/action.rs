//! What handling a message asks of the program: an instruction for the
//! screen that holds the sale, and a task to run.
use vstd::prelude::*;

use crate::sale::{Instruction, Sale, SaleView};

verus! {

/// An input of the sale form.
#[derive(Debug, Clone, Copy, PartialEq, Eq, Structural)]
pub enum FormField {
    Name,
    Quantity,
    Price,
}

/// A task for the program to run.
#[derive(Debug)]
pub enum Effect {
    /// Nothing to run.
    Nothing,
    /// Move the keyboard focus to the next input.
    FocusNext,
    /// Move the keyboard focus to the previous input.
    FocusPrevious,
    /// Focus the given input of the line item with the given id.
    FocusField(FormField, usize),
    /// Ask where to save a receipt of the sale (a snapshot of it), offering
    /// the given file name, and write it there.
    SavePdf(Sale, String),
    /// Tell the user how saving a receipt went: the path where it was
    /// written, or why it was not.
    ReportPdf(Result<String, String>),
}

/// The mathematical value of an [`Effect`].
pub enum EffectView {
    Nothing,
    FocusNext,
    FocusPrevious,
    FocusField(FormField, usize),
    SavePdf(SaleView, Seq<char>),
    ReportPdf(Result<Seq<char>, Seq<char>>),
}

impl View for Effect {
    type V = EffectView;

    open spec fn view(&self) -> EffectView {
        match self {
            Effect::Nothing => EffectView::Nothing,
            Effect::FocusNext => EffectView::FocusNext,
            Effect::FocusPrevious => EffectView::FocusPrevious,
            Effect::FocusField(f, id) => EffectView::FocusField(*f, *id),
            Effect::SavePdf(s, n) => EffectView::SavePdf(s@, n@),
            Effect::ReportPdf(r) => EffectView::ReportPdf(
                match r {
                    Ok(p) => Ok(p@),
                    Err(e) => Err(e@),
                },
            ),
        }
    }
}

/// An instruction for whoever holds the sale, and a task to run.
#[derive(Debug)]
pub struct Action {
    pub instruction: Option<Instruction>,
    pub task: Effect,
}

/// The mathematical value of an [`Action`].
pub struct ActionView {
    pub instruction: Option<Instruction>,
    pub task: EffectView,
}

impl View for Action {
    type V = ActionView;

    open spec fn view(&self) -> ActionView {
        ActionView { instruction: self.instruction, task: self.task@ }
    }
}

impl Action {
    /// No instruction and nothing to run.
    pub fn none() -> (a: Action)
        ensures
            a@ == (ActionView { instruction: None, task: EffectView::Nothing }),
    {
        Action { instruction: None, task: Effect::Nothing }
    }

    /// Only an instruction.
    pub fn instruction(instruction: Instruction) -> (a: Action)
        ensures
            a@ == (ActionView { instruction: Some(instruction), task: EffectView::Nothing }),
    {
        Action { instruction: Some(instruction), task: Effect::Nothing }
    }

    /// Only a task.
    pub fn task(task: Effect) -> (a: Action)
        ensures
            a@ == (ActionView { instruction: None, task: task@ }),
    {
        Action { instruction: None, task }
    }

    /// The same instruction, with the given task.
    pub fn with_task(self, task: Effect) -> (a: Action)
        ensures
            a@ == (ActionView { instruction: self.instruction, task: task@ }),
    {
        Action { instruction: self.instruction, task }
    }
}

} // verus!
