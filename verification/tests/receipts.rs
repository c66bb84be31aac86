use receipts::action::{Effect, FormField};
use receipts::decimal::{decimal_string, parse_u32};
use receipts::list;
use receipts::program::{App, Hotkey, Message, Screen};
use receipts::sale::edit::{self, Field};
use receipts::sale::{self, handle_hotkey, receipt_name, show, Instruction, Mode, Sale, SaleItem};
use receipts::tax::TaxGroup;

fn edit_msg(m: edit::Message) -> sale::Message {
    sale::Message::Edit(m)
}

#[test]
fn decimal_string_writes_digits() {
    assert_eq!(decimal_string(0), "0");
    assert_eq!(decimal_string(7), "7");
    assert_eq!(decimal_string(42), "42");
    assert_eq!(decimal_string(1000), "1000");
    assert_eq!(decimal_string(u64::MAX), u64::MAX.to_string());
}

#[test]
fn parse_u32_reads_as_std_does() {
    let cases = [
        "42", "+7", "", "+", "-1", "-0", "007", "4294967295", "4294967296", "12a", " 1", "1 ",
        "99999999999999999999", "0", "+0", "٣",
    ];
    for c in cases {
        assert_eq!(parse_u32(c), c.parse::<u32>().ok(), "text {:?}", c);
    }
    assert_eq!(parse_u32("4294967295"), Some(u32::MAX));
    assert_eq!(parse_u32("4294967296"), None);
    assert_eq!(parse_u32("+"), None);
}

#[test]
fn quantity_reads_back_as_written() {
    for n in [0u32, 1, 9, 10, 99, 100, 12345, u32::MAX] {
        assert_eq!(parse_u32(&decimal_string(n as u64)), Some(n));
    }
}

#[test]
fn quantity_string_is_empty_until_entered() {
    let mut sale = Sale::default();
    let mut next = 5usize;
    sale::update(&mut sale, edit_msg(edit::Message::AddItem), &mut next);
    assert_eq!(sale.items[0].quantity_string(), "");
    sale::update(
        &mut sale,
        edit_msg(edit::Message::UpdateItem(5, Field::Quantity("12".to_string()))),
        &mut next,
    );
    assert_eq!(sale.items[0].quantity_string(), "12");
}

#[test]
fn new_item_is_blank_food() {
    let item = SaleItem::new(3);
    assert_eq!(item.id, 3);
    assert_eq!(item.name, "");
    assert_eq!(item.price, None);
    assert_eq!(item.quantity, None);
    assert_eq!(item.tax_group, TaxGroup::Food);
}

#[test]
fn add_item_hands_out_ids() {
    let mut sale = Sale::default();
    let mut next = 0usize;
    let a = sale::update(&mut sale, edit_msg(edit::Message::AddItem), &mut next);
    assert!(a.instruction.is_none());
    assert!(matches!(a.task, Effect::Nothing));
    sale::update(&mut sale, edit_msg(edit::Message::AddItem), &mut next);
    assert_eq!(next, 2);
    let ids: Vec<usize> = sale.items.iter().map(|i| i.id).collect();
    assert_eq!(ids, vec![0, 1]);
}

#[test]
fn item_counter_wraps() {
    let mut sale = Sale::default();
    let mut next = usize::MAX;
    sale::update(&mut sale, edit_msg(edit::Message::AddItem), &mut next);
    assert_eq!(sale.items[0].id, usize::MAX);
    assert_eq!(next, 0);
}

#[test]
fn name_submit_adds_item_only_when_empty() {
    let mut sale = Sale::default();
    let mut next = 10usize;
    let a = sale::update(&mut sale, edit_msg(edit::Message::NameSubmit), &mut next);
    assert!(matches!(a.task, Effect::FocusNext));
    assert_eq!(sale.items.len(), 1);
    let a = sale::update(&mut sale, edit_msg(edit::Message::NameSubmit), &mut next);
    assert!(matches!(a.task, Effect::FocusNext));
    assert_eq!(sale.items.len(), 1);
    assert_eq!(next, 11);
}

#[test]
fn remove_item_drops_only_that_id() {
    let mut sale = Sale::default();
    let mut next = 0usize;
    for _ in 0..4 {
        sale::update(&mut sale, edit_msg(edit::Message::AddItem), &mut next);
    }
    sale::update(&mut sale, edit_msg(edit::Message::RemoveItem(2)), &mut next);
    let ids: Vec<usize> = sale.items.iter().map(|i| i.id).collect();
    assert_eq!(ids, vec![0, 1, 3]);
    sale::update(&mut sale, edit_msg(edit::Message::RemoveItem(9)), &mut next);
    assert_eq!(sale.items.len(), 3);
}

#[test]
fn update_item_changes_one_field() {
    let mut sale = Sale::default();
    let mut next = 0usize;
    sale::update(&mut sale, edit_msg(edit::Message::AddItem), &mut next);
    sale::update(&mut sale, edit_msg(edit::Message::AddItem), &mut next);
    sale::update(
        &mut sale,
        edit_msg(edit::Message::UpdateItem(1, Field::Name("Tea".to_string()))),
        &mut next,
    );
    sale::update(
        &mut sale,
        edit_msg(edit::Message::UpdateItem(1, Field::Price(Some(2.5f32.to_bits())))),
        &mut next,
    );
    sale::update(
        &mut sale,
        edit_msg(edit::Message::UpdateItem(1, Field::Quantity("+3".to_string()))),
        &mut next,
    );
    sale::update(
        &mut sale,
        edit_msg(edit::Message::UpdateItem(1, Field::TaxGroup(TaxGroup::Food))),
        &mut next,
    );
    assert_eq!(sale.items[1].name, "Tea");
    assert_eq!(sale.items[1].price.map(f32::from_bits), Some(2.5));
    assert_eq!(sale.items[1].quantity, Some(3));
    assert_eq!(sale.items[0].name, "");
    assert_eq!(sale.items[0].quantity, None);
    // unreadable and empty quantities clear it
    sale::update(
        &mut sale,
        edit_msg(edit::Message::UpdateItem(1, Field::Quantity("three".to_string()))),
        &mut next,
    );
    assert_eq!(sale.items[1].quantity, None);
    sale::update(
        &mut sale,
        edit_msg(edit::Message::UpdateItem(1, Field::Quantity("4".to_string()))),
        &mut next,
    );
    sale::update(
        &mut sale,
        edit_msg(edit::Message::UpdateItem(1, Field::Quantity(String::new()))),
        &mut next,
    );
    assert_eq!(sale.items[1].quantity, None);
    // an unknown id changes nothing
    sale::update(
        &mut sale,
        edit_msg(edit::Message::UpdateItem(7, Field::Name("X".to_string()))),
        &mut next,
    );
    assert_eq!(sale.items[0].name, "");
    assert_eq!(sale.items[1].name, "Tea");
}

fn focus_of(a: sale::Message, sale: &mut Sale, next: &mut usize) -> Option<(FormField, usize)> {
    match sale::update(sale, a, next).task {
        Effect::FocusField(f, id) => Some((f, id)),
        _ => None,
    }
}

#[test]
fn submit_item_walks_the_inputs() {
    let mut sale = Sale::default();
    let mut next = 4usize;
    sale::update(&mut sale, edit_msg(edit::Message::AddItem), &mut next);
    let submit = || edit_msg(edit::Message::SubmitItem(4));
    assert_eq!(focus_of(submit(), &mut sale, &mut next), Some((FormField::Name, 4)));
    sale::update(
        &mut sale,
        edit_msg(edit::Message::UpdateItem(4, Field::Name("Soup".to_string()))),
        &mut next,
    );
    assert_eq!(focus_of(submit(), &mut sale, &mut next), Some((FormField::Quantity, 4)));
    sale::update(
        &mut sale,
        edit_msg(edit::Message::UpdateItem(4, Field::Quantity("2".to_string()))),
        &mut next,
    );
    assert_eq!(focus_of(submit(), &mut sale, &mut next), Some((FormField::Price, 4)));
    sale::update(
        &mut sale,
        edit_msg(edit::Message::UpdateItem(4, Field::Price(Some(3.0f32.to_bits())))),
        &mut next,
    );
    assert_eq!(sale.items.len(), 1);
    assert_eq!(focus_of(submit(), &mut sale, &mut next), Some((FormField::Name, 5)));
    assert_eq!(sale.items.len(), 2);
    assert_eq!(sale.items[1].id, 5);
    assert_eq!(focus_of(edit_msg(edit::Message::SubmitItem(99)), &mut sale, &mut next), None);
}

#[test]
fn submitting_an_earlier_item_focuses_the_new_item() {
    let mut sale = Sale::default();
    let mut next = 0usize;
    for _ in 0..3 {
        sale::update(&mut sale, edit_msg(edit::Message::AddItem), &mut next);
    }
    sale::update(
        &mut sale,
        edit_msg(edit::Message::UpdateItem(0, Field::Name("Bread".to_string()))),
        &mut next,
    );
    sale::update(
        &mut sale,
        edit_msg(edit::Message::UpdateItem(0, Field::Quantity("1".to_string()))),
        &mut next,
    );
    sale::update(
        &mut sale,
        edit_msg(edit::Message::UpdateItem(0, Field::Price(Some(1.5f32.to_bits())))),
        &mut next,
    );
    // the new item gets id 3, not the submitted id plus one
    assert_eq!(
        focus_of(edit_msg(edit::Message::SubmitItem(0)), &mut sale, &mut next),
        Some((FormField::Name, 3))
    );
    assert_eq!(sale.items.len(), 4);
    assert_eq!(sale.items[3].id, 3);
    assert_eq!(sale.items[3].name, "");
    assert_eq!(next, 4);
}

#[test]
fn submitting_the_largest_id_does_not_overflow() {
    let mut sale = Sale::default();
    let mut next = usize::MAX;
    sale::update(&mut sale, edit_msg(edit::Message::AddItem), &mut next);
    let id = usize::MAX;
    sale::update(&mut sale, edit_msg(edit::Message::UpdateItem(id, Field::Name("A".to_string()))), &mut next);
    sale::update(&mut sale, edit_msg(edit::Message::UpdateItem(id, Field::Quantity("2".to_string()))), &mut next);
    sale::update(&mut sale, edit_msg(edit::Message::UpdateItem(id, Field::Price(Some(1.0f32.to_bits())))), &mut next);
    assert_eq!(
        focus_of(edit_msg(edit::Message::SubmitItem(id)), &mut sale, &mut next),
        Some((FormField::Name, 0))
    );
    assert_eq!(sale.items[1].id, 0);
}

#[test]
fn many_edits_then_cancel_keep_the_saved_sale() {
    let mut app = App::new();
    app.update(Message::List(list::Message::NewSale));
    send(&mut app, None, edit::Message::NameInput("Kept".to_string()));
    send(&mut app, None, edit::Message::AddItem);
    send(&mut app, None, edit::Message::Save);
    app.update(Message::Sale(Some(1), sale::Message::Show(show::Message::StartEdit)));
    send(&mut app, Some(1), edit::Message::NameInput("Other".to_string()));
    send(&mut app, Some(1), edit::Message::RemoveItem(0));
    send(&mut app, Some(1), edit::Message::AddItem);
    send(&mut app, Some(1), edit::Message::UpdateGratuity(2.0f32.to_bits()));
    app.update(Message::Sale(Some(1), sale::Message::Show(show::Message::Back)));
    assert_eq!(app.sales()[&1].name, "Kept");
    assert_eq!(app.sales()[&1].items.len(), 1);
    assert_eq!(app.sales()[&1].gratuity_amount, None);
    send(&mut app, Some(1), edit::Message::Cancel);
    assert_eq!(app.sale(Some(1)).name, "Kept");
    assert_eq!(app.sale(Some(1)).items.len(), 1);
    assert_eq!(app.sale(Some(1)).items[0].id, 0);
    assert_eq!(app.screen(), Screen::Sale(Mode::View, Some(1)));
}

#[test]
fn service_charge_and_gratuity_are_set() {
    let mut sale = Sale::default();
    let mut next = 0usize;
    sale::update(&mut sale, edit_msg(edit::Message::UpdateServiceCharge(10.0f32.to_bits())), &mut next);
    sale::update(&mut sale, edit_msg(edit::Message::UpdateGratuity(5.0f32.to_bits())), &mut next);
    assert_eq!(sale.service_charge_percent.map(f32::from_bits), Some(10.0));
    assert_eq!(sale.gratuity_amount.map(f32::from_bits), Some(5.0));
    sale::update(&mut sale, edit_msg(edit::Message::NameInput("Lunch".to_string())), &mut next);
    assert_eq!(sale.name, "Lunch");
}

#[test]
fn instructions_from_the_screens() {
    let mut sale = Sale::default();
    let mut next = 0usize;
    let a = sale::update(&mut sale, sale::Message::Show(show::Message::Back), &mut next);
    assert_eq!(a.instruction, Some(Instruction::Back));
    assert!(matches!(a.task, Effect::Nothing));
    let a = sale::update(&mut sale, sale::Message::Show(show::Message::StartEdit), &mut next);
    assert_eq!(a.instruction, Some(Instruction::StartEdit));
    assert!(matches!(a.task, Effect::FocusNext));
    let a = sale::update(&mut sale, edit_msg(edit::Message::Cancel), &mut next);
    assert_eq!(a.instruction, Some(Instruction::Cancel));
    let a = sale::update(&mut sale, edit_msg(edit::Message::Save), &mut next);
    assert_eq!(a.instruction, Some(Instruction::Save));
}

#[test]
fn print_asks_to_save_a_receipt() {
    let mut sale = Sale::default();
    let mut next = 0usize;
    assert_eq!(receipt_name(&sale), "receipt.pdf");
    let a = sale::update(&mut sale, sale::Message::Show(show::Message::PrintPDF), &mut next);
    match a.task {
        Effect::SavePdf(s, name) => {
            assert_eq!(name, "receipt.pdf");
            assert_eq!(s.items.len(), 0);
        }
        _ => panic!("expected a receipt to save"),
    }
    sale.name = "Table 4".to_string();
    let a = sale::update(&mut sale, sale::Message::Show(show::Message::PrintPDF), &mut next);
    match a.task {
        Effect::SavePdf(s, name) => {
            assert_eq!(name, "Table 4.pdf");
            assert_eq!(s.name, "Table 4");
        }
        _ => panic!("expected a receipt to save"),
    }
    let a = sale::update(&mut sale, sale::Message::PrintPdfComplete(Err("Cancelled".to_string())), &mut next);
    match a.task {
        Effect::ReportPdf(Err(e)) => assert_eq!(e, "Cancelled"),
        _ => panic!("expected a report"),
    }
}

#[test]
fn hotkeys_on_sale_screens() {
    let sale = Sale::default();
    let a = handle_hotkey(&sale, Mode::View, Hotkey::Escape);
    assert_eq!(a.instruction, Some(Instruction::Back));
    let a = handle_hotkey(&sale, Mode::View, Hotkey::Tab { shift: false });
    assert_eq!(a.instruction, None);
    assert!(matches!(a.task, Effect::Nothing));
    let a = handle_hotkey(&sale, Mode::Edit, Hotkey::Escape);
    assert_eq!(a.instruction, Some(Instruction::Cancel));
    assert!(matches!(handle_hotkey(&sale, Mode::Edit, Hotkey::Tab { shift: false }).task, Effect::FocusNext));
    assert!(matches!(handle_hotkey(&sale, Mode::Edit, Hotkey::Tab { shift: true }).task, Effect::FocusPrevious));
}

fn send(app: &mut App, id: Option<usize>, m: edit::Message) {
    app.update(Message::Sale(id, sale::Message::Edit(m)));
}

#[test]
fn titles_follow_the_screen() {
    let mut app = App::new();
    assert_eq!(app.title(), "iced Receipts");
    app.update(Message::List(list::Message::NewSale));
    assert_eq!(app.title(), "iced Receipts \u{2022} Untitled sale  \u{2022} Edit");
    send(&mut app, None, edit::Message::NameInput("Lunch".to_string()));
    assert_eq!(app.title(), "iced Receipts \u{2022} Lunch  \u{2022} Edit");
    send(&mut app, None, edit::Message::Save);
    assert_eq!(app.title(), "iced Receipts \u{2022} Lunch (#1)");
}

#[test]
fn new_sale_is_saved_under_a_fresh_id() {
    let mut app = App::new();
    let out = app.update(Message::List(list::Message::NewSale));
    assert!(matches!(out.task, Effect::FocusNext));
    assert_eq!(app.screen(), Screen::Sale(Mode::Edit, None));
    send(&mut app, None, edit::Message::AddItem);
    send(&mut app, None, edit::Message::Save);
    assert_eq!(app.screen(), Screen::Sale(Mode::View, Some(1)));
    assert_eq!(app.sales().len(), 1);
    assert_eq!(app.sales()[&1].items.len(), 1);
    // the draft starts over
    assert_eq!(app.sale(None).items.len(), 0);
    app.update(Message::List(list::Message::NewSale));
    send(&mut app, None, edit::Message::NameInput("Second".to_string()));
    send(&mut app, None, edit::Message::Save);
    assert_eq!(app.screen(), Screen::Sale(Mode::View, Some(2)));
    assert_eq!(app.sales().len(), 2);
    assert_eq!(app.sales()[&1].items.len(), 1);
    assert_eq!(app.sales()[&2].name, "Second");
}

#[test]
fn cancel_discards_edits_of_a_saved_sale() {
    let mut app = App::new();
    app.update(Message::List(list::Message::NewSale));
    send(&mut app, None, edit::Message::NameInput("Dinner".to_string()));
    send(&mut app, None, edit::Message::Save);
    app.update(Message::Sale(Some(1), sale::Message::Show(show::Message::StartEdit)));
    assert_eq!(app.screen(), Screen::Sale(Mode::Edit, Some(1)));
    send(&mut app, Some(1), edit::Message::NameInput("Changed".to_string()));
    send(&mut app, Some(1), edit::Message::AddItem);
    // the saved sale is untouched while the draft is edited
    assert_eq!(app.sales()[&1].name, "Dinner");
    assert_eq!(app.sales()[&1].items.len(), 0);
    assert_eq!(app.sale(Some(1)).name, "Changed");
    send(&mut app, Some(1), edit::Message::Cancel);
    assert_eq!(app.screen(), Screen::Sale(Mode::View, Some(1)));
    assert_eq!(app.sale(Some(1)).name, "Dinner");
    assert_eq!(app.sales()[&1].name, "Dinner");
    assert_eq!(app.title(), "iced Receipts \u{2022} Dinner (#1)");
}

#[test]
fn save_stores_edits_of_a_saved_sale() {
    let mut app = App::new();
    app.update(Message::List(list::Message::NewSale));
    send(&mut app, None, edit::Message::Save);
    app.update(Message::Sale(Some(1), sale::Message::Show(show::Message::StartEdit)));
    send(&mut app, Some(1), edit::Message::NameInput("Brunch".to_string()));
    send(&mut app, Some(1), edit::Message::Save);
    assert_eq!(app.screen(), Screen::Sale(Mode::View, Some(1)));
    assert_eq!(app.sales().len(), 1);
    assert_eq!(app.sales()[&1].name, "Brunch");
}

#[test]
fn cancel_of_a_new_sale_empties_the_draft() {
    let mut app = App::new();
    app.update(Message::List(list::Message::NewSale));
    send(&mut app, None, edit::Message::NameInput("Scrap".to_string()));
    send(&mut app, None, edit::Message::Cancel);
    assert_eq!(app.screen(), Screen::Sale(Mode::View, None));
    assert_eq!(app.sale(None).name, "");
    assert_eq!(app.sales().len(), 0);
}

#[test]
fn back_and_escape_navigate() {
    let mut app = App::new();
    // hotkeys on the list do nothing
    let out = app.update(Message::Hotkey(Hotkey::Escape));
    assert!(matches!(out.task, Effect::Nothing));
    assert_eq!(app.screen(), Screen::List);
    app.update(Message::List(list::Message::NewSale));
    send(&mut app, None, edit::Message::Save);
    app.update(Message::List(list::Message::SelectSale(1)));
    assert_eq!(app.screen(), Screen::Sale(Mode::View, Some(1)));
    app.update(Message::Sale(Some(1), sale::Message::Show(show::Message::StartEdit)));
    // Escape on the form cancels the edit
    app.update(Message::Hotkey(Hotkey::Escape));
    assert_eq!(app.screen(), Screen::Sale(Mode::View, Some(1)));
    // Tab on the form moves the focus
    app.update(Message::Sale(Some(1), sale::Message::Show(show::Message::StartEdit)));
    let out = app.update(Message::Hotkey(Hotkey::Tab { shift: true }));
    assert!(matches!(out.task, Effect::FocusPrevious));
    assert_eq!(out.sale_id, Some(1));
    app.update(Message::Sale(Some(1), sale::Message::Show(show::Message::Back)));
    assert_eq!(app.screen(), Screen::Sale(Mode::View, Some(1)));
    // Escape on the read-only screen goes back to the list
    app.update(Message::Hotkey(Hotkey::Escape));
    assert_eq!(app.screen(), Screen::List);
}

#[test]
fn sale_messages_are_routed_to_their_sale() {
    let mut app = App::new();
    app.update(Message::List(list::Message::NewSale));
    send(&mut app, None, edit::Message::Save);
    let out = app.update(Message::Sale(Some(1), sale::Message::Show(show::Message::PrintPDF)));
    assert_eq!(out.sale_id, Some(1));
    match out.task {
        Effect::SavePdf(_, name) => assert_eq!(name, "receipt.pdf"),
        _ => panic!("expected a receipt to save"),
    }
    let out = app.update(Message::Sale(
        Some(1),
        sale::Message::PrintPdfComplete(Ok("/tmp/receipt.pdf".to_string())),
    ));
    match out.task {
        Effect::ReportPdf(Ok(p)) => assert_eq!(p, "/tmp/receipt.pdf"),
        _ => panic!("expected a report"),
    }
}
