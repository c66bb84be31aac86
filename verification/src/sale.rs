//! Sales, their line items, and how a message from the sale screens changes
//! a sale.
use vstd::prelude::*;

use crate::action::{Action, ActionView, Effect, EffectView, FormField};
use crate::program::Hotkey;
use crate::decimal::{decimal, decimal_string, parse_u32, parsed_u32};
use crate::tax::TaxGroup;

pub mod edit;
pub mod show;

verus! {

/// Whether a sale is shown or edited.
#[derive(Debug, Clone, Copy, PartialEq, Eq, Structural)]
pub enum Mode {
    View,
    Edit,
}

/// What handling a message asks of the screen that holds the sale.
#[derive(Debug, Clone, Copy, PartialEq, Eq, Structural)]
pub enum Instruction {
    Back,
    Save,
    StartEdit,
    Cancel,
}

/// A line item of a sale.
///
/// `price` is the bit pattern of the item's `f32` price, as `f32::to_bits`
/// gives it; `None` while no price has been entered.
#[derive(Debug)]
pub struct SaleItem {
    pub id: usize,
    pub name: String,
    pub price: Option<u32>,
    pub quantity: Option<u32>,
    pub tax_group: TaxGroup,
}

/// The mathematical value of a [`SaleItem`].
pub struct SaleItemView {
    pub id: usize,
    pub name: Seq<char>,
    pub price: Option<u32>,
    pub quantity: Option<u32>,
    pub tax_group: TaxGroup,
}

impl View for SaleItem {
    type V = SaleItemView;

    open spec fn view(&self) -> SaleItemView {
        SaleItemView {
            id: self.id,
            name: self.name@,
            price: self.price,
            quantity: self.quantity,
            tax_group: self.tax_group,
        }
    }
}

impl Clone for SaleItem {
    fn clone(&self) -> (r: Self)
        ensures
            r == *self,
    {
        SaleItem {
            id: self.id,
            name: self.name.clone(),
            price: self.price,
            quantity: self.quantity,
            tax_group: self.tax_group,
        }
    }
}

/// A fresh line item: nothing entered yet, taxed as food.
pub open spec fn new_item(id: usize) -> SaleItemView {
    SaleItemView {
        id,
        name: Seq::empty(),
        price: None,
        quantity: None,
        tax_group: TaxGroup::Food,
    }
}

impl SaleItem {
    /// A fresh line item with the given id.
    pub fn new(id: usize) -> (item: SaleItem)
        ensures
            item@ == new_item(id),
    {
        SaleItem {
            id,
            name: String::new(),
            price: None,
            quantity: None,
            tax_group: TaxGroup::Food,
        }
    }

    /// The quantity in decimal, or the empty text while none is entered.
    pub fn quantity_string(&self) -> (s: String)
        ensures
            s@ == match self.quantity {
                Some(q) => decimal(q as nat),
                None => Seq::<char>::empty(),
            },
    {
        match self.quantity {
            Some(q) => decimal_string(q as u64),
            None => String::new(),
        }
    }
}

/// A sale. The service charge (a percentage) and the gratuity are bit
/// patterns of `f32` values, as `f32::to_bits` gives them.
#[derive(Debug)]
pub struct Sale {
    pub items: Vec<SaleItem>,
    pub service_charge_percent: Option<u32>,
    pub gratuity_amount: Option<u32>,
    pub name: String,
}

/// The mathematical value of a [`Sale`].
pub struct SaleView {
    pub items: Seq<SaleItemView>,
    pub service_charge_percent: Option<u32>,
    pub gratuity_amount: Option<u32>,
    pub name: Seq<char>,
}

impl View for Sale {
    type V = SaleView;

    open spec fn view(&self) -> SaleView {
        SaleView {
            items: self.items@.map_values(|item: SaleItem| item@),
            service_charge_percent: self.service_charge_percent,
            gratuity_amount: self.gratuity_amount,
            name: self.name@,
        }
    }
}

/// A sale with nothing in it.
pub open spec fn empty_sale() -> SaleView {
    SaleView {
        items: Seq::empty(),
        service_charge_percent: None,
        gratuity_amount: None,
        name: Seq::empty(),
    }
}

impl Clone for Sale {
    fn clone(&self) -> (r: Self)
        ensures
            r@ == self@,
    {
        let items = self.items.clone();
        assert(items@.map_values(|item: SaleItem| item@) =~= self.items@.map_values(
            |item: SaleItem| item@,
        ));
        Sale {
            items,
            service_charge_percent: self.service_charge_percent,
            gratuity_amount: self.gratuity_amount,
            name: self.name.clone(),
        }
    }
}

impl Default for Sale {
    fn default() -> (s: Self)
        ensures
            s@ == empty_sale(),
    {
        let s = Sale {
            items: Vec::new(),
            service_charge_percent: None,
            gratuity_amount: None,
            name: String::new(),
        };
        assert(s@.items =~= Seq::<SaleItemView>::empty());
        s
    }
}


/// The counter after handing out `n`: one more, wrapping to zero past the
/// largest `usize`.
pub open spec fn next_id(n: usize) -> usize {
    if n == usize::MAX {
        0
    } else {
        (n + 1) as usize
    }
}

/// Hands out the counter's value and moves the counter on, wrapping as
/// `AtomicUsize::fetch_add` does.
pub fn take_id(counter: &mut usize) -> (id: usize)
    ensures
        id == *old(counter),
        *final(counter) == next_id(*old(counter)),
{
    let id = *counter;
    if id == usize::MAX {
        *counter = 0;
    } else {
        *counter = id + 1;
    }
    id
}

/// Whether the line item at `i` is the first one with the given id.
pub open spec fn is_first_with_id(items: Seq<SaleItemView>, id: usize, i: int) -> bool {
    &&& 0 <= i < items.len()
    &&& items[i].id == id
    &&& forall|j: int| 0 <= j < i ==> #[trigger] items[j].id != id
}

/// The position of the first line item with the given id, if any.
pub open spec fn first_with_id(items: Seq<SaleItemView>, id: usize) -> Option<int> {
    if exists|i: int| is_first_with_id(items, id, i) {
        Some(choose|i: int| is_first_with_id(items, id, i))
    } else {
        None
    }
}

/// The first line item with a given id is the only one that is first.
pub proof fn lemma_first_with_id(items: Seq<SaleItemView>, id: usize, i: int)
    requires
        is_first_with_id(items, id, i),
    ensures
        first_with_id(items, id) == Some(i),
{
    let k = choose|k: int| is_first_with_id(items, id, k);
    assert(is_first_with_id(items, id, k));
    if k < i {
        assert(items[k].id != id);
    } else if k > i {
        assert(items[i].id != id);
    }
}

/// Whether name, quantity and price of a line item are all entered.
pub open spec fn is_complete(item: SaleItemView) -> bool {
    item.name.len() > 0 && item.quantity is Some && item.price is Some
}

/// The line items whose id differs from `id`, in their order.
pub open spec fn without_id(items: Seq<SaleItemView>, id: usize) -> Seq<SaleItemView> {
    items.filter(|item: SaleItemView| item.id != id)
}

/// A line item with one input changed. A quantity reads as
/// `str::parse::<u32>` reads it; empty text clears it.
pub open spec fn with_field(item: SaleItemView, field: edit::Field) -> SaleItemView {
    match field {
        edit::Field::Name(name) => SaleItemView { name: name@, ..item },
        edit::Field::Price(price) => SaleItemView { price, ..item },
        edit::Field::Quantity(text) => SaleItemView {
            quantity: if text@.len() == 0 {
                None
            } else {
                parsed_u32(text@)
            },
            ..item
        },
        edit::Field::TaxGroup(group) => SaleItemView { tax_group: group, ..item },
    }
}

/// The sale with a fresh line item appended, whose id the counter hands
/// out, and the counter after it.
pub open spec fn with_new_item(sale: SaleView, counter: usize) -> (SaleView, usize) {
    (SaleView { items: sale.items.push(new_item(counter)), ..sale }, next_id(counter))
}

/// The file name offered for the receipt of a sale: its name, or
/// `receipt` while it has none, with `.pdf` after it.
pub open spec fn receipt_file_name(name: Seq<char>) -> Seq<char> {
    (if name.len() == 0 {
        "receipt"@
    } else {
        name
    }) + ".pdf"@
}

/// The sale and the item counter after a message.
pub open spec fn edited(sale: SaleView, counter: usize, message: Message) -> (SaleView, usize) {
    match message {
        Message::Edit(m) => match m {
            edit::Message::NameInput(name) => (SaleView { name: name@, ..sale }, counter),
            edit::Message::NameSubmit => if sale.items.len() == 0 {
                with_new_item(sale, counter)
            } else {
                (sale, counter)
            },
            edit::Message::AddItem => with_new_item(sale, counter),
            edit::Message::RemoveItem(id) => (
                SaleView { items: without_id(sale.items, id), ..sale },
                counter,
            ),
            edit::Message::UpdateItem(id, field) => match first_with_id(sale.items, id) {
                Some(i) => (
                    SaleView {
                        items: sale.items.update(i, with_field(sale.items[i], field)),
                        ..sale
                    },
                    counter,
                ),
                None => (sale, counter),
            },
            edit::Message::SubmitItem(id) => match first_with_id(sale.items, id) {
                Some(i) => if is_complete(sale.items[i]) {
                    with_new_item(sale, counter)
                } else {
                    (sale, counter)
                },
                None => (sale, counter),
            },
            edit::Message::UpdateServiceCharge(v) => (
                SaleView { service_charge_percent: Some(v), ..sale },
                counter,
            ),
            edit::Message::UpdateGratuity(v) => (
                SaleView { gratuity_amount: Some(v), ..sale },
                counter,
            ),
            _ => (sale, counter),
        },
        _ => (sale, counter),
    }
}

/// Where the focus goes when a line item's inputs are submitted: to the
/// first of its name, quantity and price that is missing, and once all are
/// entered to the name of the fresh line item that is appended, whose id is
/// the counter's value.
pub open spec fn submit_focus(items: Seq<SaleItemView>, id: usize, counter: usize) -> EffectView {
    match first_with_id(items, id) {
        Some(i) => if items[i].name.len() == 0 {
            EffectView::FocusField(FormField::Name, id)
        } else if items[i].quantity is None {
            EffectView::FocusField(FormField::Quantity, id)
        } else if items[i].price is None {
            EffectView::FocusField(FormField::Price, id)
        } else {
            EffectView::FocusField(FormField::Name, counter)
        },
        None => EffectView::Nothing,
    }
}

/// What a message asks of the program, given the sale and the item counter
/// before it.
pub open spec fn answer(sale: SaleView, counter: usize, message: Message) -> ActionView {
    match message {
        Message::Show(m) => match m {
            show::Message::Back => ActionView {
                instruction: Some(Instruction::Back),
                task: EffectView::Nothing,
            },
            show::Message::PrintPDF => ActionView {
                instruction: None,
                task: EffectView::SavePdf(sale, receipt_file_name(sale.name)),
            },
            show::Message::StartEdit => ActionView {
                instruction: Some(Instruction::StartEdit),
                task: EffectView::FocusNext,
            },
        },
        Message::PrintPdfComplete(r) => ActionView {
            instruction: None,
            task: EffectView::ReportPdf(
                match r {
                    Ok(p) => Ok(p@),
                    Err(e) => Err(e@),
                },
            ),
        },
        Message::Edit(m) => match m {
            edit::Message::Cancel => ActionView {
                instruction: Some(Instruction::Cancel),
                task: EffectView::Nothing,
            },
            edit::Message::Save => ActionView {
                instruction: Some(Instruction::Save),
                task: EffectView::Nothing,
            },
            edit::Message::NameSubmit => ActionView {
                instruction: None,
                task: EffectView::FocusNext,
            },
            edit::Message::SubmitItem(id) => ActionView {
                instruction: None,
                task: submit_focus(sale.items, id, counter),
            },
            _ => ActionView { instruction: None, task: EffectView::Nothing },
        },
    }
}

/// What the sale screens can ask for. The outcome of saving a receipt holds
/// the path it was written to, as text.
#[derive(Debug)]
pub enum Message {
    Show(show::Message),
    Edit(edit::Message),
    PrintPdfComplete(Result<String, String>),
}

impl Sale {
    /// The position of the first line item with the given id.
    pub fn find_item(&self, id: usize) -> (r: Option<usize>)
        ensures
            match r {
                Some(i) => first_with_id(self@.items, id) == Some(i as int),
                None => first_with_id(self@.items, id) is None,
            },
    {
        let mut i: usize = 0;
        while i < self.items.len()
            invariant
                i <= self.items.len(),
                forall|j: int| 0 <= j < i ==> #[trigger] self@.items[j].id != id,
            decreases self.items.len() - i,
        {
            if self.items[i].id == id {
                proof {
                    lemma_first_with_id(self@.items, id, i as int);
                }
                return Some(i);
            }
            i = i + 1;
        }
        assert forall|k: int| !is_first_with_id(self@.items, id, k) by {
            if 0 <= k < self@.items.len() {
                assert(self@.items[k].id != id);
            }
        }
        None
    }

    /// Appends a fresh line item, whose id the counter hands out.
    pub fn add_item(&mut self, counter: &mut usize)
        ensures
            (final(self)@, *final(counter)) == with_new_item(old(self)@, *old(counter)),
    {
        let id = take_id(counter);
        self.items.push(SaleItem::new(id));
        assert(self@.items =~= old(self)@.items.push(new_item(id)));
    }

    /// Drops every line item with the given id and keeps the others in
    /// their order.
    pub fn remove_item(&mut self, id: usize)
        ensures
            final(self)@ == (SaleView { items: without_id(old(self)@.items, id), ..old(self)@ }),
    {
        let ghost all = self@.items;
        let ghost keep = |item: SaleItemView| item.id != id;
        let mut kept: Vec<SaleItem> = Vec::new();
        let mut i: usize = 0;
        assert(all.take(0).filter(keep) =~= Seq::<SaleItemView>::empty()) by {
            reveal(Seq::filter);
        }
        while i < self.items.len()
            invariant
                i <= self.items.len(),
                all == self@.items,
                keep == (|item: SaleItemView| item.id != id),
                kept@.map_values(|item: SaleItem| item@) == all.take(i as int).filter(keep),
            decreases self.items.len() - i,
        {
            let ghost before = kept@.map_values(|item: SaleItem| item@);
            assert(all.take(i + 1).drop_last() =~= all.take(i as int));
            assert(all.take(i + 1).last() == all[i as int]);
            assert(all.take(i + 1).filter(keep) == if keep(all[i as int]) {
                all.take(i as int).filter(keep).push(all[i as int])
            } else {
                all.take(i as int).filter(keep)
            }) by {
                reveal(Seq::filter);
            }
            if self.items[i].id != id {
                let item = self.items[i].clone();
                kept.push(item);
                assert(kept@.map_values(|item: SaleItem| item@) =~= before.push(all[i as int]));
            }
            i = i + 1;
        }
        assert(all.take(all.len() as int) =~= all);
        self.items = kept;
    }

    /// Changes one input of the first line item with the given id; with no
    /// such item, changes nothing.
    pub fn update_item(&mut self, id: usize, field: edit::Field)
        ensures
            final(self)@ == match first_with_id(old(self)@.items, id) {
                Some(i) => SaleView {
                    items: old(self)@.items.update(i, with_field(old(self)@.items[i], field)),
                    ..old(self)@
                },
                None => old(self)@,
            },
    {
        if let Some(i) = self.find_item(id) {
            let mut item = self.items[i].clone();
            match field {
                edit::Field::Name(name) => item.name = name,
                edit::Field::Price(price) => item.price = price,
                edit::Field::Quantity(text) => {
                    item.quantity = if text.as_str().is_empty() {
                        None
                    } else {
                        parse_u32(text.as_str())
                    };
                },
                edit::Field::TaxGroup(group) => item.tax_group = group,
            }
            self.items.set(i, item);
            assert(self@.items =~= old(self)@.items.update(
                i as int,
                with_field(old(self)@.items[i as int], field),
            ));
        }
    }
}

/// The file name offered for the receipt of a sale.
pub fn receipt_name(sale: &Sale) -> (name: String)
    ensures
        name@ == receipt_file_name(sale@.name),
{
    proof {
        reveal_strlit("receipt");
        reveal_strlit(".pdf");
    }
    let base = if !sale.name.as_str().is_empty() {
        sale.name.clone()
    } else {
        String::from_str("receipt")
    };
    base.concat(".pdf")
}

/// Applies a message from the sale screens to the sale, handing out ids of
/// new line items from `next_item_id`, and says what it asks of the
/// program.
pub fn update(sale: &mut Sale, message: Message, next_item_id: &mut usize) -> (action: Action)
    ensures
        action@ == answer(old(sale)@, *old(next_item_id), message),
        (final(sale)@, *final(next_item_id)) == edited(old(sale)@, *old(next_item_id), message),
{
    match message {
        Message::Show(msg) => match msg {
            show::Message::Back => Action::instruction(Instruction::Back),
            show::Message::PrintPDF => {
                let snapshot = sale.clone();
                let file_name = receipt_name(sale);
                Action::task(Effect::SavePdf(snapshot, file_name))
            },
            show::Message::StartEdit => Action::instruction(Instruction::StartEdit).with_task(
                Effect::FocusNext,
            ),
        },
        Message::PrintPdfComplete(result) => Action::task(Effect::ReportPdf(result)),
        Message::Edit(msg) => match msg {
            edit::Message::Cancel => Action::instruction(Instruction::Cancel),
            edit::Message::Save => Action::instruction(Instruction::Save),
            edit::Message::NameInput(name) => {
                sale.name = name;
                Action::none()
            },
            edit::Message::NameSubmit => {
                if sale.items.len() == 0 {
                    sale.add_item(next_item_id);
                }
                Action::task(Effect::FocusNext)
            },
            edit::Message::AddItem => {
                sale.add_item(next_item_id);
                Action::none()
            },
            edit::Message::RemoveItem(id) => {
                sale.remove_item(id);
                Action::none()
            },
            edit::Message::UpdateItem(id, field) => {
                sale.update_item(id, field);
                Action::none()
            },
            edit::Message::SubmitItem(id) => {
                match sale.find_item(id) {
                    Some(i) => {
                        let item = &sale.items[i];
                        if item.name.as_str().is_empty() {
                            Action::task(Effect::FocusField(FormField::Name, id))
                        } else if item.quantity.is_none() {
                            Action::task(Effect::FocusField(FormField::Quantity, id))
                        } else if item.price.is_none() {
                            Action::task(Effect::FocusField(FormField::Price, id))
                        } else {
                            let new_id = *next_item_id;
                            sale.add_item(next_item_id);
                            Action::task(Effect::FocusField(FormField::Name, new_id))
                        }
                    },
                    None => Action::none(),
                }
            },
            edit::Message::UpdateServiceCharge(v) => {
                sale.service_charge_percent = Some(v);
                Action::none()
            },
            edit::Message::UpdateGratuity(v) => {
                sale.gratuity_amount = Some(v);
                Action::none()
            },
        },
    }
}

/// What a hotkey asks of the program on a sale screen in the given mode.
pub open spec fn hotkey_answer(mode: Mode, hotkey: Hotkey) -> ActionView {
    match mode {
        Mode::View => show::hotkey_answer(hotkey),
        Mode::Edit => edit::hotkey_answer(hotkey),
    }
}

/// Handles a hotkey on a sale screen in the given mode; the sale itself
/// does not enter into it.
pub fn handle_hotkey(_sale: &Sale, mode: Mode, hotkey: Hotkey) -> (action: Action)
    ensures
        action@ == hotkey_answer(mode, hotkey),
{
    match mode {
        Mode::View => show::handle_hotkey(hotkey),
        Mode::Edit => edit::handle_hotkey(hotkey),
    }
}

/// A message from the read-only screen leaves the sale and the item counter
/// as they were. Back asks to go back and StartEdit to start editing with
/// the focus on the first input; printing asks to save a receipt of the
/// very sale on screen, every line item included, offered as its name (or
/// `receipt` while it has none) followed by `.pdf`.
pub proof fn lemma_show_messages(sale: SaleView, counter: usize, m: show::Message)
    ensures
        edited(sale, counter, Message::Show(m)) == (sale, counter),
        ({
            let a = answer(sale, counter, Message::Show(m));
            match m {
                show::Message::Back => a.instruction == Some(Instruction::Back) && a.task
                    == EffectView::Nothing,
                show::Message::StartEdit => a.instruction == Some(Instruction::StartEdit)
                    && a.task == EffectView::FocusNext,
                show::Message::PrintPDF => {
                    &&& a.instruction is None
                    &&& a.task matches EffectView::SavePdf(snapshot, file)
                    &&& snapshot == sale
                    &&& snapshot.items.len() == sale.items.len()
                    &&& (forall|i: int| 0 <= i < sale.items.len() ==> snapshot.items[i] == sale.items[i])
                    &&& file.len() >= 4
                    &&& file.subrange(file.len() - 4, file.len() as int) == ".pdf"@
                    &&& (sale.name.len() > 0 ==> file == sale.name + ".pdf"@)
                    &&& (sale.name.len() == 0 ==> file == "receipt.pdf"@)
                },
            }
        }),
{
    reveal_strlit("receipt");
    reveal_strlit(".pdf");
    reveal_strlit("receipt.pdf");
    let f = receipt_file_name(sale.name);
    if sale.name.len() > 0 {
        assert(f.subrange(f.len() - 4, f.len() as int) =~= ".pdf"@);
    } else {
        assert(f =~= "receipt.pdf"@);
        assert(f.subrange(f.len() - 4, f.len() as int) =~= ".pdf"@);
    }
}

/// Typing a name sets the sale's name to exactly the typed text, whatever it
/// was, and changes nothing else.
pub proof fn lemma_name_input(sale: SaleView, counter: usize, name: String)
    ensures
        ({
            let (after, c) = edited(sale, counter, Message::Edit(edit::Message::NameInput(name)));
            &&& after.name == name@
            &&& after.items == sale.items
            &&& after.service_charge_percent == sale.service_charge_percent
            &&& after.gratuity_amount == sale.gratuity_amount
            &&& c == counter
        }),
        answer(sale, counter, Message::Edit(edit::Message::NameInput(name))).instruction is None,
{
}

/// Adding a line item keeps every line item and appends one with nothing
/// entered, taxed as food, whose id is the counter's value; the counter
/// moves on by one.
pub proof fn lemma_add_item(sale: SaleView, counter: usize)
    ensures
        ({
            let (after, c) = edited(sale, counter, Message::Edit(edit::Message::AddItem));
            &&& after.items.len() == sale.items.len() + 1
            &&& (forall|i: int| 0 <= i < sale.items.len() ==> after.items[i] == sale.items[i])
            &&& after.items.last().id == counter
            &&& after.items.last().name.len() == 0
            &&& after.items.last().price is None
            &&& after.items.last().quantity is None
            &&& after.items.last().tax_group == TaxGroup::Food
            &&& after.name == sale.name
            &&& after.service_charge_percent == sale.service_charge_percent
            &&& after.gratuity_amount == sale.gratuity_amount
            &&& (counter < usize::MAX ==> c == counter + 1)
            &&& (counter == usize::MAX ==> c == 0)
        }),
{
}

/// Changing an input of a line item sets that input of the first item with
/// the id to exactly the new value, whatever it held: a name to the given
/// text, a price to the given value, a quantity to what the text reads as
/// (nothing for empty text), a tax group to the given group. The other
/// inputs of that item, every other item, the sale's own fields and the
/// counter stay as they were. With no item of that id nothing changes.
pub proof fn lemma_update_item(sale: SaleView, counter: usize, id: usize, field: edit::Field)
    ensures
        ({
            let (after, c) = edited(sale, counter, Message::Edit(edit::Message::UpdateItem(id, field)));
            &&& c == counter
            &&& after.name == sale.name
            &&& after.service_charge_percent == sale.service_charge_percent
            &&& after.gratuity_amount == sale.gratuity_amount
            &&& after.items.len() == sale.items.len()
            &&& match first_with_id(sale.items, id) {
                None => after.items == sale.items,
                Some(i) => {
                    let old_item = sale.items[i];
                    let new_item = after.items[i];
                    &&& 0 <= i < sale.items.len()
                    &&& old_item.id == id
                    &&& (forall|j: int| 0 <= j < sale.items.len() && j != i ==> after.items[j] == sale.items[j])
                    &&& new_item.id == old_item.id
                    &&& new_item.name == (match field {
                        edit::Field::Name(n) => n@,
                        _ => old_item.name,
                    })
                    &&& new_item.price == (match field {
                        edit::Field::Price(p) => p,
                        _ => old_item.price,
                    })
                    &&& new_item.quantity == (match field {
                        edit::Field::Quantity(t) => if t@.len() == 0 {
                            None
                        } else {
                            parsed_u32(t@)
                        },
                        _ => old_item.quantity,
                    })
                    &&& new_item.tax_group == (match field {
                        edit::Field::TaxGroup(g) => g,
                        _ => old_item.tax_group,
                    })
                },
            }
        }),
        answer(sale, counter, Message::Edit(edit::Message::UpdateItem(id, field))).instruction is None,
{
    if let Some(i) = first_with_id(sale.items, id) {
        assert(is_first_with_id(sale.items, id, i));
    }
}

/// Submitting a line item's inputs moves the focus to the first of its name,
/// quantity and price that is missing, changing nothing. Once all three are
/// entered a fresh item is appended, with the counter's value as its id, and
/// the focus moves to that new item's name. Submitting an id that no item
/// has changes nothing and asks nothing.
pub proof fn lemma_submit_item(sale: SaleView, counter: usize, id: usize)
    ensures
        ({
            let (after, c) = edited(sale, counter, Message::Edit(edit::Message::SubmitItem(id)));
            let a = answer(sale, counter, Message::Edit(edit::Message::SubmitItem(id)));
            &&& a.instruction is None
            &&& match first_with_id(sale.items, id) {
                None => after == sale && c == counter && a.task == EffectView::Nothing,
                Some(i) => {
                    let item = sale.items[i];
                    &&& item.id == id
                    &&& (item.name.len() == 0 ==> after == sale && c == counter && a.task
                        == EffectView::FocusField(FormField::Name, id))
                    &&& (item.name.len() > 0 && item.quantity is None ==> after == sale && c
                        == counter && a.task == EffectView::FocusField(FormField::Quantity, id))
                    &&& (item.name.len() > 0 && item.quantity is Some && item.price is None
                        ==> after == sale && c == counter && a.task == EffectView::FocusField(
                        FormField::Price,
                        id,
                    ))
                    &&& (item.name.len() > 0 && item.quantity is Some && item.price is Some ==> {
                        &&& after.items.len() == sale.items.len() + 1
                        &&& (forall|j: int| 0 <= j < sale.items.len() ==> after.items[j] == sale.items[j])
                        &&& after.items.last().id == counter
                        &&& after.items.last().name.len() == 0
                        &&& after.items.last().price is None
                        &&& after.items.last().quantity is None
                        &&& a.task == EffectView::FocusField(FormField::Name, after.items.last().id)
                    })
                },
            }
        }),
{
    if let Some(i) = first_with_id(sale.items, id) {
        assert(is_first_with_id(sale.items, id, i));
    }
}

/// Setting the service charge or the gratuity sets exactly that amount and
/// changes nothing else; cancelling and saving change nothing and ask the
/// screen to cancel or save.
pub proof fn lemma_charges_and_form_buttons(sale: SaleView, counter: usize, v: u32)
    ensures
        edited(sale, counter, Message::Edit(edit::Message::UpdateServiceCharge(v))) == (
            SaleView { service_charge_percent: Some(v), ..sale },
            counter,
        ),
        edited(sale, counter, Message::Edit(edit::Message::UpdateGratuity(v))) == (
            SaleView { gratuity_amount: Some(v), ..sale },
            counter,
        ),
        edited(sale, counter, Message::Edit(edit::Message::Cancel)) == (sale, counter),
        edited(sale, counter, Message::Edit(edit::Message::Save)) == (sale, counter),
        answer(sale, counter, Message::Edit(edit::Message::Cancel)).instruction == Some(
            Instruction::Cancel,
        ),
        answer(sale, counter, Message::Edit(edit::Message::Save)).instruction == Some(
            Instruction::Save,
        ),
{
}

/// On the read-only screen only Escape asks for something: to go back.
/// Tab, with or without Shift, asks nothing and runs nothing. On the form,
/// Escape cancels, and Tab moves the focus on (back with Shift) without an
/// instruction.
pub proof fn lemma_hotkeys(hotkey: Hotkey)
    ensures
        hotkey_answer(Mode::View, hotkey).task == EffectView::Nothing,
        (hotkey_answer(Mode::View, hotkey).instruction is Some) <==> (hotkey == Hotkey::Escape),
        hotkey == Hotkey::Escape ==> hotkey_answer(Mode::View, hotkey).instruction == Some(
            Instruction::Back,
        ),
        hotkey == Hotkey::Escape ==> hotkey_answer(Mode::Edit, hotkey) == (ActionView {
            instruction: Some(Instruction::Cancel),
            task: EffectView::Nothing,
        }),
        hotkey == (Hotkey::Tab { shift: false }) ==> hotkey_answer(Mode::Edit, hotkey) == (
        ActionView { instruction: None, task: EffectView::FocusNext }),
        hotkey == (Hotkey::Tab { shift: true }) ==> hotkey_answer(Mode::Edit, hotkey) == (
        ActionView { instruction: None, task: EffectView::FocusPrevious }),
{
}

/// The line items have distinct ids, all below the item counter.
pub open spec fn ids_fresh(items: Seq<SaleItemView>, counter: usize) -> bool {
    &&& forall|i: int, j: int|
        0 <= i < j < items.len() ==> #[trigger] items[i].id != #[trigger] items[j].id
    &&& forall|i: int| 0 <= i < items.len() ==> #[trigger] items[i].id < counter
}

proof fn lemma_filter_keeps_ids_fresh(items: Seq<SaleItemView>, counter: usize, id: usize)
    requires
        ids_fresh(items, counter),
    ensures
        ids_fresh(without_id(items, id), counter),
        forall|k: int| 0 <= k < without_id(items, id).len() ==>
            exists|i: int| 0 <= i < items.len() && #[trigger] without_id(items, id)[k] == items[i],
    decreases items.len(),
{
    reveal(Seq::filter);
    if items.len() > 0 {
        let rest = items.drop_last();
        assert(ids_fresh(rest, counter)) by {
            assert forall|i: int, j: int| 0 <= i < j < rest.len() implies #[trigger] rest[i].id
                != #[trigger] rest[j].id by {
                assert(rest[i] == items[i] && rest[j] == items[j]);
            }
            assert forall|i: int| 0 <= i < rest.len() implies #[trigger] rest[i].id < counter by {
                assert(rest[i] == items[i]);
            }
        }
        lemma_filter_keeps_ids_fresh(rest, counter, id);
        let kept = without_id(rest, id);
        let last = items.last();
        assert(without_id(items, id) == if last.id != id {
            kept.push(last)
        } else {
            kept
        });
        assert forall|k: int| 0 <= k < kept.len() implies #[trigger] kept[k].id != last.id by {
            let i = choose|i: int| 0 <= i < rest.len() && kept[k] == rest[i];
            assert(rest[i] == items[i]);
            assert(items[i].id != items[items.len() - 1].id);
        }
        if last.id != id {
            let out = kept.push(last);
            assert forall|k: int| 0 <= k < out.len() implies exists|i: int|
                0 <= i < items.len() && #[trigger] out[k] == items[i] by {
                if k < kept.len() {
                    let i = choose|i: int| 0 <= i < rest.len() && kept[k] == rest[i];
                    assert(rest[i] == items[i]);
                } else {
                    assert(out[k] == items[items.len() - 1]);
                }
            }
            assert forall|a: int, b: int| 0 <= a < b < out.len() implies #[trigger] out[a].id
                != #[trigger] out[b].id by {
                if b < kept.len() {
                    assert(out[a] == kept[a] && out[b] == kept[b]);
                } else {
                    assert(out[a] == kept[a]);
                }
            }
            assert forall|k: int| 0 <= k < out.len() implies #[trigger] out[k].id < counter by {
                if k < kept.len() {
                    assert(out[k] == kept[k]);
                }
            }
        } else {
            assert forall|k: int| 0 <= k < kept.len() implies exists|i: int|
                0 <= i < items.len() && #[trigger] kept[k] == items[i] by {
                let i = choose|i: int| 0 <= i < rest.len() && kept[k] == rest[i];
                assert(rest[i] == items[i]);
            }
        }
    } else {
        assert(without_id(items, id) =~= items);
    }
}

/// Whatever a sale screen asks, the line items of the sale keep distinct
/// ids below the item counter, as long as the counter has not reached the
/// largest `usize` (past which it wraps to zero).
pub proof fn lemma_item_ids_stay_fresh(sale: SaleView, counter: usize, message: Message)
    requires
        ids_fresh(sale.items, counter),
        counter < usize::MAX,
    ensures
        ids_fresh(edited(sale, counter, message).0.items, edited(sale, counter, message).1),
{
    let (after, c) = edited(sale, counter, message);
    let pushed = sale.items.push(new_item(counter));
    assert(ids_fresh(pushed, next_id(counter))) by {
        assert forall|i: int, j: int| 0 <= i < j < pushed.len() implies #[trigger] pushed[i].id
            != #[trigger] pushed[j].id by {
            assert(pushed[i] == sale.items[i]);
            if j < sale.items.len() {
                assert(pushed[j] == sale.items[j]);
            }
        }
        assert forall|i: int| 0 <= i < pushed.len() implies #[trigger] pushed[i].id < next_id(counter) by {
            if i < sale.items.len() {
                assert(pushed[i] == sale.items[i]);
            }
        }
    }
    match message {
        Message::Edit(edit::Message::RemoveItem(id)) => {
            lemma_filter_keeps_ids_fresh(sale.items, counter, id);
        },
        Message::Edit(edit::Message::UpdateItem(id, field)) => {
            if let Some(i) = first_with_id(sale.items, id) {
                let changed = sale.items.update(i, with_field(sale.items[i], field));
                assert(forall|k: int| 0 <= k < changed.len() ==> #[trigger] changed[k].id == sale.items[k].id);
            }
        },
        _ => {},
    }
}

/// After a line item is removed, no line item has its id, and every other
/// line item stays, in its order.
pub proof fn lemma_removed_item_is_gone(sale: SaleView, counter: usize, id: usize)
    ensures
        forall|k: int| 0 <= k < edited(sale, counter, Message::Edit(edit::Message::RemoveItem(id))).0.items.len()
            ==> #[trigger] edited(sale, counter, Message::Edit(edit::Message::RemoveItem(id))).0.items[k].id != id,
        forall|i: int| 0 <= i < sale.items.len() && sale.items[i].id != id
            ==> edited(sale, counter, Message::Edit(edit::Message::RemoveItem(id))).0.items.contains(#[trigger] sale.items[i]),
{
    let keep = |item: SaleItemView| item.id != id;
    broadcast use Seq::lemma_filter_pred, Seq::lemma_filter_contains;
    assert(edited(sale, counter, Message::Edit(edit::Message::RemoveItem(id))).0.items == sale.items.filter(keep));
}

} // verus!
