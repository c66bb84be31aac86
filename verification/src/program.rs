//! The screens of the program and the sales it keeps, as a state machine:
//! a message in, the new state and a task for the program out.
use std::collections::HashMap;
use vstd::prelude::*;

use crate::action::{Effect, EffectView};
use crate::decimal::{decimal, decimal_string};
use crate::list;
use crate::sale::{self, Instruction, Mode, Sale, SaleView};

verus! {

broadcast use vstd::std_specs::hash::group_hash_axioms;

/// A key that the program handles itself.
#[derive(Debug, Clone, Copy, PartialEq, Eq, Structural)]
pub enum Hotkey {
    Escape,
    /// Tab, and whether Shift was held with it.
    Tab { shift: bool },
}

/// What is on screen: the list of sales, or one sale in a mode. A sale
/// screen names the saved sale it shows, or none for a sale not saved yet.
#[derive(Debug, Clone, Copy, PartialEq, Eq, Structural)]
pub enum Screen {
    List,
    Sale(Mode, Option<usize>),
}

/// A message to the program. A sale message names the sale it is about,
/// as its screen does.
#[derive(Debug)]
pub enum Message {
    List(list::Message),
    Sale(Option<usize>, sale::Message),
    Hotkey(Hotkey),
}

/// What the program is to run after a message, and the sale that messages
/// coming back from it are about.
#[derive(Debug)]
pub struct Outcome {
    pub task: Effect,
    pub sale_id: Option<usize>,
}

/// The mathematical value of an [`Outcome`].
pub struct OutcomeView {
    pub task: EffectView,
    pub sale_id: Option<usize>,
}

impl View for Outcome {
    type V = OutcomeView;

    open spec fn view(&self) -> OutcomeView {
        OutcomeView { task: self.task@, sale_id: self.sale_id }
    }
}

/// The state of the program: the screen, the saved sales by id, the draft
/// being edited with the id of the sale it was taken from (none for a new
/// sale), and the counters that hand out sale ids and line item ids.
pub struct App {
    screen: Screen,
    sales: HashMap<usize, Sale>,
    draft: (Option<usize>, Sale),
    next_sale_id: usize,
    next_item_id: usize,
}

/// The mathematical value of an [`App`].
pub struct AppView {
    pub screen: Screen,
    pub sales: Map<usize, SaleView>,
    pub draft_id: Option<usize>,
    pub draft: SaleView,
    pub next_sale_id: usize,
    pub next_item_id: usize,
}

impl View for App {
    type V = AppView;

    closed spec fn view(&self) -> AppView {
        AppView {
            screen: self.screen,
            sales: sales_view(self.sales@),
            draft_id: self.draft.0,
            draft: self.draft.1@,
            next_sale_id: self.next_sale_id,
            next_item_id: self.next_item_id,
        }
    }
}

/// The mathematical value of the saved sales.
pub open spec fn sales_view(m: Map<usize, Sale>) -> Map<usize, SaleView> {
    m.map_values(|s: Sale| s@)
}

proof fn lemma_sales_view_insert(m: Map<usize, Sale>, k: usize, s: Sale)
    ensures
        sales_view(m.insert(k, s)) == sales_view(m).insert(k, s@),
{
    assert(sales_view(m.insert(k, s)) =~= sales_view(m).insert(k, s@));
}

proof fn lemma_sales_view_remove_insert(m: Map<usize, Sale>, k: usize, s: Sale)
    requires
        m.contains_key(k),
    ensures
        sales_view(m.remove(k).insert(k, s)) == sales_view(m).insert(k, s@),
        sales_view(m).contains_key(k),
        sales_view(m)[k] == m[k]@,
{
    assert(sales_view(m.remove(k).insert(k, s)) =~= sales_view(m).insert(k, s@));
}

/// Whether `id` names a sale that the program holds: the draft's, or a
/// saved one.
pub open spec fn holds(app: AppView, id: Option<usize>) -> bool {
    app.draft_id == id || (id is Some && app.sales.contains_key(id->0))
}

/// The sale that `id` names: the draft when it is the draft's, else the
/// saved sale.
pub open spec fn selected(app: AppView, id: Option<usize>) -> SaleView {
    if app.draft_id == id {
        app.draft
    } else {
        app.sales[id->0]
    }
}

/// The state is coherent: a draft taken from a saved sale names one that
/// is saved, and a sale screen names a sale that the program holds.
pub open spec fn coherent(app: AppView) -> bool {
    &&& app.sales.dom().finite()
    &&& (app.draft_id matches Some(k) ==> app.sales.contains_key(k))
    &&& (app.screen matches Screen::Sale(_, id) ==> holds(app, id))
}

/// The state with the sale that `id` names replaced, and the item counter
/// set.
pub open spec fn with_selected(app: AppView, id: Option<usize>, sale: SaleView, counter: usize) -> AppView {
    if app.draft_id == id {
        AppView { draft: sale, next_item_id: counter, ..app }
    } else {
        AppView { sales: app.sales.insert(id->0, sale), next_item_id: counter, ..app }
    }
}

/// The state after an instruction from the screen of the sale that
/// `sale_id` names.
///
/// - Back: from the form to the read-only screen of that sale, from the
///   read-only screen to the list.
/// - Save: the draft is stored under the id it was taken from; a new sale
///   gets the next sale id, and the draft starts over empty. The read-only
///   screen of the stored sale follows.
/// - StartEdit: a saved sale is copied into the draft; the form follows.
/// - Cancel: the draft goes back to the saved sale, or to empty for a new
///   one; the read-only screen follows.
pub open spec fn performed(app: AppView, sale_id: Option<usize>, instruction: Instruction) -> AppView {
    match instruction {
        Instruction::Back => match app.screen {
            Screen::List => app,
            Screen::Sale(Mode::Edit, _) => AppView { screen: Screen::Sale(Mode::View, sale_id), ..app },
            Screen::Sale(Mode::View, _) => AppView { screen: Screen::List, ..app },
        },
        Instruction::Save => match app.draft_id {
            Some(k) => AppView {
                sales: app.sales.insert(k, app.draft),
                screen: Screen::Sale(Mode::View, Some(k)),
                ..app
            },
            None => AppView {
                sales: app.sales.insert(app.next_sale_id, app.draft),
                next_sale_id: sale::next_id(app.next_sale_id),
                draft: sale::empty_sale(),
                screen: Screen::Sale(Mode::View, Some(app.next_sale_id)),
                ..app
            },
        },
        Instruction::StartEdit => match sale_id {
            Some(k) => AppView {
                draft_id: Some(k),
                draft: app.sales[k],
                screen: Screen::Sale(Mode::Edit, sale_id),
                ..app
            },
            None => AppView { screen: Screen::Sale(Mode::Edit, sale_id), ..app },
        },
        Instruction::Cancel => match sale_id {
            Some(k) => AppView {
                draft_id: Some(k),
                draft: app.sales[k],
                screen: Screen::Sale(Mode::View, sale_id),
                ..app
            },
            None => AppView {
                draft_id: None,
                draft: sale::empty_sale(),
                screen: Screen::Sale(Mode::View, sale_id),
                ..app
            },
        },
    }
}

/// The state after an optional instruction.
pub open spec fn after(app: AppView, sale_id: Option<usize>, instruction: Option<Instruction>) -> AppView {
    match instruction {
        Some(i) => performed(app, sale_id, i),
        None => app,
    }
}

/// Whether the program can take the message in the given state: a sale
/// picked from the list is saved, and a sale message names a sale that the
/// program holds.
pub open spec fn accepts(app: AppView, message: Message) -> bool {
    match message {
        Message::List(list::Message::SelectSale(id)) => app.sales.contains_key(id),
        Message::Sale(id, m) => holds(app, id),
        _ => true,
    }
}

/// The state after a message, and the outcome.
pub open spec fn step(app: AppView, message: Message) -> (AppView, OutcomeView) {
    match message {
        Message::List(list::Message::NewSale) => (
            AppView {
                draft_id: None,
                draft: sale::empty_sale(),
                screen: Screen::Sale(Mode::Edit, None),
                ..app
            },
            OutcomeView { task: EffectView::FocusNext, sale_id: None },
        ),
        Message::List(list::Message::SelectSale(id)) => (
            AppView { screen: Screen::Sale(Mode::View, Some(id)), ..app },
            OutcomeView { task: EffectView::Nothing, sale_id: None },
        ),
        Message::Hotkey(hotkey) => match app.screen {
            Screen::List => (app, OutcomeView { task: EffectView::Nothing, sale_id: None }),
            Screen::Sale(mode, id) => {
                let a = sale::hotkey_answer(mode, hotkey);
                (after(app, id, a.instruction), OutcomeView { task: a.task, sale_id: id })
            },
        },
        Message::Sale(id, m) => {
            let s = selected(app, id);
            let (s2, counter) = sale::edited(s, app.next_item_id, m);
            let a = sale::answer(s, app.next_item_id, m);
            (
                after(with_selected(app, id, s2, counter), id, a.instruction),
                OutcomeView { task: a.task, sale_id: id },
            )
        },
    }
}

/// The window title in a state.
pub open spec fn title_of(app: AppView) -> Seq<char> {
    match app.screen {
        Screen::List => "iced Receipts"@,
        Screen::Sale(mode, id) => {
            let name = selected(app, id).name;
            let shown = (if name.len() == 0 {
                "Untitled sale"@
            } else {
                name
            }) + " "@ + match id {
                Some(k) => "(#"@ + decimal(k as nat) + ")"@,
                None => Seq::<char>::empty(),
            };
            match mode {
                Mode::View => "iced Receipts \u{2022} "@ + shown,
                Mode::Edit => "iced Receipts \u{2022} "@ + shown + " \u{2022} Edit"@,
            }
        },
    }
}

/// Every saved sale has an id below the sale counter.
pub open spec fn ids_below(app: AppView) -> bool {
    forall|k: usize| app.sales.contains_key(k) ==> k < app.next_sale_id
}

/// Editing the draft leaves the saved sales as they are until the draft is
/// saved: a message about the draft that does not ask to save it does not
/// change any saved sale.
pub proof fn lemma_draft_edits_keep_saved_sales(app: AppView, id: Option<usize>, m: sale::Message)
    requires
        coherent(app),
        app.draft_id == id,
        sale::answer(app.draft, app.next_item_id, m).instruction != Some(Instruction::Save),
    ensures
        step(app, Message::Sale(id, m)).0.sales == app.sales,
{
}

/// Saving the form stores the draft: under the id of the sale it was taken
/// from, or under the next sale id for a new sale, which moves the sale
/// counter on and empties the draft. The read-only screen of the stored
/// sale follows, and the task is to run nothing.
pub proof fn lemma_save_stores_draft(app: AppView, id: Option<usize>)
    requires
        coherent(app),
        app.draft_id == id,
    ensures
        ({
            let (next, out) = step(app, Message::Sale(id, sale::Message::Edit(sale::edit::Message::Save)));
            let key = match id {
                Some(k) => k,
                None => app.next_sale_id,
            };
            &&& next.sales == app.sales.insert(key, app.draft)
            &&& next.screen == Screen::Sale(Mode::View, Some(key))
            &&& next.draft_id == id
            &&& next.draft == (if id is Some { app.draft } else { sale::empty_sale() })
            &&& next.next_sale_id == (if id is Some { app.next_sale_id } else { sale::next_id(app.next_sale_id) })
            &&& out.task == EffectView::Nothing
        }),
{
}

/// Cancelling the form throws the draft's edits away: the draft is the
/// saved sale again (or empty, for a new sale), no saved sale changes, and
/// the read-only screen follows.
pub proof fn lemma_cancel_discards_edits(app: AppView, id: Option<usize>)
    requires
        coherent(app),
        app.draft_id == id,
    ensures
        ({
            let next = step(app, Message::Sale(id, sale::Message::Edit(sale::edit::Message::Cancel))).0;
            &&& next.sales == app.sales
            &&& next.draft_id == id
            &&& next.draft == (match id {
                Some(k) => app.sales[k],
                None => sale::empty_sale(),
            })
            &&& next.screen == Screen::Sale(Mode::View, id)
        }),
{
}

/// Starting to edit a saved sale and cancelling at once gives back the
/// same saved sales, with the sale's read-only screen and a draft equal to
/// it.
pub proof fn lemma_start_edit_then_cancel(app: AppView, k: usize)
    requires
        coherent(app),
        app.sales.contains_key(k),
        holds(app, Some(k)),
    ensures
        ({
            let started = step(app, Message::Sale(Some(k), sale::Message::Show(sale::show::Message::StartEdit))).0;
            let cancelled = step(started, Message::Sale(Some(k), sale::Message::Edit(sale::edit::Message::Cancel))).0;
            &&& started.screen == Screen::Sale(Mode::Edit, Some(k))
            &&& started.draft == app.sales[k]
            &&& cancelled.sales == app.sales
            &&& cancelled.draft == app.sales[k]
            &&& cancelled.screen == Screen::Sale(Mode::View, Some(k))
        }),
{
    let s = selected(app, Some(k));
    assert(with_selected(app, Some(k), s, app.next_item_id).sales == app.sales) by {
        if app.draft_id != Some(k) {
            assert(app.sales.insert(k, app.sales[k]) =~= app.sales);
        }
    }
}

/// Every saved sale keeps an id below the sale counter, so that a new sale
/// never takes the id of a saved one, as long as the counter has not
/// reached the largest `usize` (past which it wraps to zero).
pub proof fn lemma_sale_ids_stay_below(app: AppView, message: Message)
    requires
        coherent(app),
        accepts(app, message),
        ids_below(app),
        app.next_sale_id < usize::MAX,
    ensures
        ids_below(step(app, message).0),
{
}

/// Saving a new sale adds exactly one saved sale and keeps every other.
pub proof fn lemma_new_sale_is_added(app: AppView)
    requires
        coherent(app),
        ids_below(app),
        app.draft_id is None,
    ensures
        ({
            let next = step(app, Message::Sale(None, sale::Message::Edit(sale::edit::Message::Save))).0;
            &&& !app.sales.contains_key(app.next_sale_id)
            &&& next.sales.dom() == app.sales.dom().insert(app.next_sale_id)
            &&& next.sales.len() == app.sales.len() + 1
            &&& forall|k: usize| app.sales.contains_key(k) ==> next.sales[k] == app.sales[k]
        }),
{
    lemma_save_stores_draft(app, None);
}

/// The state stays coherent whatever message it takes.
pub proof fn lemma_step_keeps_coherent(app: AppView, message: Message)
    requires
        coherent(app),
        accepts(app, message),
    ensures
        coherent(step(app, message).0),
{
}

/// Carrying out an instruction from the screen of a sale that the program
/// holds keeps the state coherent, removes no saved sale, and moves the
/// sale counter on at most once.
pub proof fn lemma_perform_keeps_sales(app: AppView, sale_id: Option<usize>, instruction: Instruction)
    requires
        coherent(app),
        holds(app, sale_id),
    ensures
        coherent(performed(app, sale_id, instruction)),
        app.sales.dom().subset_of(performed(app, sale_id, instruction).sales.dom()),
        performed(app, sale_id, instruction).next_sale_id == app.next_sale_id
            || performed(app, sale_id, instruction).next_sale_id == sale::next_id(app.next_sale_id),
{
}

/// The state after a run of messages about the sale that `id` names.
pub open spec fn run(app: AppView, id: Option<usize>, messages: Seq<sale::Message>) -> AppView
    decreases messages.len(),
{
    if messages.len() == 0 {
        app
    } else {
        run(step(app, Message::Sale(id, messages[0])).0, id, messages.drop_first())
    }
}

/// Unsaved edits are discarded: while a saved sale is in the draft, any run
/// of messages about it that does not save it leaves every saved sale as it
/// was and keeps the draft taken from that sale; cancelling then brings the
/// draft back to the saved sale, with its read-only screen.
pub proof fn lemma_unsaved_edits_are_discarded(app: AppView, k: usize, messages: Seq<sale::Message>)
    requires
        coherent(app),
        app.draft_id == Some(k),
        forall|i: int|
            0 <= i < messages.len() ==> !(#[trigger] messages[i] matches sale::Message::Edit(
                sale::edit::Message::Save,
            )),
    ensures
        coherent(run(app, Some(k), messages)),
        run(app, Some(k), messages).sales == app.sales,
        run(app, Some(k), messages).draft_id == Some(k),
        ({
            let next = step(
                run(app, Some(k), messages),
                Message::Sale(Some(k), sale::Message::Edit(sale::edit::Message::Cancel)),
            ).0;
            &&& next.sales == app.sales
            &&& next.draft_id == Some(k)
            &&& next.draft == app.sales[k]
            &&& next.screen == Screen::Sale(Mode::View, Some(k))
        }),
    decreases messages.len(),
{
    if messages.len() > 0 {
        let m = messages[0];
        let first = step(app, Message::Sale(Some(k), m)).0;
        assert(!(m matches sale::Message::Edit(sale::edit::Message::Save)));
        lemma_draft_edits_keep_saved_sales(app, Some(k), m);
        lemma_step_keeps_coherent(app, Message::Sale(Some(k), m));
        let rest = messages.drop_first();
        assert forall|i: int| 0 <= i < rest.len() implies !(#[trigger] rest[i] matches sale::Message::Edit(
            sale::edit::Message::Save,
        )) by {
            assert(rest[i] == messages[i + 1]);
        }
        lemma_unsaved_edits_are_discarded(first, k, rest);
    }
    lemma_cancel_discards_edits(run(app, Some(k), messages), Some(k));
}

/// Starting a new sale empties the draft, whatever it held before: no
/// line items, no name, no service charge or gratuity, taken from no saved
/// sale. The form of the new sale follows with the focus on its first
/// input, and the saved sales and both counters stay as they were.
pub proof fn lemma_new_sale_starts_empty(app: AppView)
    ensures
        ({
            let (next, out) = step(app, Message::List(list::Message::NewSale));
            &&& next.draft_id is None
            &&& next.draft.items.len() == 0
            &&& next.draft.name.len() == 0
            &&& next.draft.service_charge_percent is None
            &&& next.draft.gratuity_amount is None
            &&& next.screen == Screen::Sale(Mode::Edit, None)
            &&& next.sales == app.sales
            &&& next.next_sale_id == app.next_sale_id
            &&& next.next_item_id == app.next_item_id
            &&& out.task == EffectView::FocusNext
        }),
{
}

/// Picking a sale from the list shows it read-only and changes nothing
/// else; a hotkey on the list changes nothing and runs nothing.
pub proof fn lemma_list_messages(app: AppView, id: usize, hotkey: Hotkey)
    ensures
        step(app, Message::List(list::Message::SelectSale(id))).0 == (AppView {
            screen: Screen::Sale(Mode::View, Some(id)),
            ..app
        }),
        app.screen == Screen::List ==> step(app, Message::Hotkey(hotkey)).0 == app,
        app.screen == Screen::List ==> step(app, Message::Hotkey(hotkey)).1.task
            == EffectView::Nothing,
{
}

/// The window title. On the list it is the program's name. On a sale
/// screen it starts with the program's name and a bullet, then the sale's
/// name (or `Untitled sale` while it has none) and a space, then `(#id)`
/// for a saved sale. On the form ` • Edit` follows, whatever the sale:
/// the form's title is the read-only screen's title with ` • Edit` after
/// it, and a read-only screen's title never ends that way.
pub proof fn lemma_title(app: AppView)
    ensures
        app.screen == Screen::List ==> title_of(app) == "iced Receipts"@,
        app.screen matches Screen::Sale(mode, id) ==> ({
            let t = title_of(app);
            let view_title = title_of(AppView { screen: Screen::Sale(Mode::View, id), ..app });
            let name = selected(app, id).name;
            let shown = if name.len() == 0 {
                "Untitled sale"@
            } else {
                name
            };
            &&& t.len() >= 16 + shown.len() as int + 1
            &&& t.subrange(0, 16) == "iced Receipts \u{2022} "@
            &&& t.subrange(16, 16 + shown.len() as int) == shown
            &&& t[16 + shown.len() as int] == ' '
            &&& (mode == Mode::Edit ==> t == view_title + " \u{2022} Edit"@)
            &&& (mode == Mode::Edit ==> t.subrange(t.len() - 7, t.len() as int)
                == " \u{2022} Edit"@)
            &&& (mode == Mode::View ==> t.last() == ')' || t.last() == ' ')
            &&& (mode == Mode::View ==> t.subrange(t.len() - 7, t.len() as int)
                != " \u{2022} Edit"@)
            &&& (id matches Some(k) ==> view_title.subrange(
                view_title.len() - (decimal(k as nat).len() + 3),
                view_title.len() as int,
            ) == "(#"@ + decimal(k as nat) + ")"@)
        }),
{
    reveal_strlit("iced Receipts");
    reveal_strlit("Untitled sale");
    reveal_strlit(" ");
    reveal_strlit("(#");
    reveal_strlit(")");
    reveal_strlit("iced Receipts \u{2022} ");
    reveal_strlit(" \u{2022} Edit");
    if let Screen::Sale(mode, id) = app.screen {
        let t = title_of(app);
        let view_title = title_of(AppView { screen: Screen::Sale(Mode::View, id), ..app });
        let name = selected(app, id).name;
        let shown = if name.len() == 0 {
            "Untitled sale"@
        } else {
            name
        };
        let id_part = match id {
            Some(k) => "(#"@ + decimal(k as nat) + ")"@,
            None => Seq::<char>::empty(),
        };
        let head = "iced Receipts \u{2022} "@;
        assert(view_title =~= head + shown + " "@ + id_part);
        assert(view_title.subrange(0, 16) =~= head);
        assert(view_title.subrange(16, 16 + shown.len() as int) =~= shown);
        assert(view_title[16 + shown.len() as int] == ' ');
        if let Some(k) = id {
            assert(view_title.subrange(
                view_title.len() - (decimal(k as nat).len() + 3),
                view_title.len() as int,
            ) =~= id_part);
        }
        assert(view_title.last() == ')' || view_title.last() == ' ');
        if mode == Mode::Edit {
            assert(t =~= view_title + " \u{2022} Edit"@);
            assert(t.subrange(0, 16) =~= head);
            assert(t.subrange(16, 16 + shown.len() as int) =~= shown);
            assert(t[16 + shown.len() as int] == ' ');
            assert(t.subrange(t.len() - 7, t.len() as int) =~= " \u{2022} Edit"@);
        } else {
            assert(t == view_title);
            assert(t.subrange(t.len() - 7, t.len() as int).last() == t.last());
            assert((" \u{2022} Edit"@).len() == 7);
            assert((" \u{2022} Edit"@)[6] == 't');
        }
    }
}

/// A message about a saved sale that is not in the draft, and that asks
/// for no instruction, changes that saved sale as the sale screens do and
/// touches neither the draft nor any other saved sale; the messages that
/// come back from its task are about the same sale.
pub proof fn lemma_messages_reach_their_sale(app: AppView, k: usize, m: sale::Message)
    requires
        coherent(app),
        app.sales.contains_key(k),
        app.draft_id != Some(k),
        sale::answer(app.sales[k], app.next_item_id, m).instruction is None,
    ensures
        ({
            let (next, out) = step(app, Message::Sale(Some(k), m));
            let (edited_sale, counter) = sale::edited(app.sales[k], app.next_item_id, m);
            &&& next.sales.dom() == app.sales.dom()
            &&& next.sales[k] == edited_sale
            &&& (forall|j: usize| app.sales.contains_key(j) && j != k ==> next.sales[j] == app.sales[j])
            &&& next.draft == app.draft
            &&& next.draft_id == app.draft_id
            &&& next.screen == app.screen
            &&& next.next_item_id == counter
            &&& next.next_sale_id == app.next_sale_id
            &&& out.sale_id == Some(k)
        }),
{
    let (next, out) = step(app, Message::Sale(Some(k), m));
    assert(next.sales.dom() =~= app.sales.dom());
}

/// Going back leaves the form for the read-only screen of the same sale,
/// and the read-only screen for the list; nothing else changes.
pub proof fn lemma_back(app: AppView, id: Option<usize>)
    requires
        coherent(app),
        app.screen matches Screen::Sale(_, sid) && sid == id,
    ensures
        ({
            let next = step(app, Message::Sale(id, sale::Message::Show(sale::show::Message::Back))).0;
            &&& next.sales == app.sales
            &&& next.draft == app.draft
            &&& next.draft_id == app.draft_id
            &&& (app.screen == Screen::Sale(Mode::Edit, id) ==> next.screen == Screen::Sale(Mode::View, id))
            &&& (app.screen == Screen::Sale(Mode::View, id) ==> next.screen == Screen::List)
        }),
{
    if app.draft_id != id {
        let k = id->0;
        assert(app.sales.insert(k, app.sales[k]) =~= app.sales);
    }
}

impl App {
    /// Whether the state is coherent.
    pub closed spec fn wf(&self) -> bool {
        coherent(self@)
    }

    /// The program at start: the list, no sales, an empty draft; sale ids
    /// from 1, line item ids from 0.
    pub fn new() -> (app: App)
        ensures
            app.wf(),
            app@ == (AppView {
                screen: Screen::List,
                sales: Map::empty(),
                draft_id: None,
                draft: sale::empty_sale(),
                next_sale_id: 1,
                next_item_id: 0,
            }),
    {
        let initial_id: usize = 0;
        let app = App {
            screen: Screen::List,
            sales: HashMap::new(),
            draft: (None, Sale::default()),
            next_sale_id: initial_id + 1,
            next_item_id: 0,
        };
        assert(app@.sales =~= Map::<usize, SaleView>::empty());
        app
    }

    /// What is on screen.
    pub fn screen(&self) -> (s: Screen)
        ensures
            s == self@.screen,
    {
        self.screen
    }

    /// The saved sales by id.
    pub fn sales(&self) -> (m: &HashMap<usize, Sale>)
        ensures
            sales_view(m@) == self@.sales,
    {
        &self.sales
    }

    /// Whether `id` names a sale that the program holds.
    pub fn holds_sale(&self, id: Option<usize>) -> (b: bool)
        ensures
            b == holds(self@, id),
    {
        if self.draft.0 == id {
            true
        } else {
            match id {
                Some(k) => self.sales.contains_key(&k),
                None => false,
            }
        }
    }

    /// The sale that `id` names: the draft when it is the draft's, else
    /// the saved sale.
    pub fn sale(&self, id: Option<usize>) -> (s: &Sale)
        requires
            self.wf(),
            holds(self@, id),
        ensures
            s@ == selected(self@, id),
    {
        if self.draft.0 == id {
            &self.draft.1
        } else {
            let k = id.unwrap();
            let s = self.sales.get(&k).unwrap();
            s
        }
    }

    /// The window title: the program's name, and on a sale screen the
    /// sale's name (or `Untitled sale`), its id when it is saved, and
    /// whether it is being edited.
    pub fn title(&self) -> (t: String)
        requires
            self.wf(),
        ensures
            t@ == title_of(self@),
    {
        proof {
            reveal_strlit("iced Receipts");
            reveal_strlit("Untitled sale");
            reveal_strlit(" ");
            reveal_strlit("(#");
            reveal_strlit(")");
            reveal_strlit("iced Receipts \u{2022} ");
            reveal_strlit(" \u{2022} Edit");
        }
        match self.screen {
            Screen::List => String::from_str("iced Receipts"),
            Screen::Sale(mode, id) => {
                let sale = self.sale(id);
                let mut shown = if sale.name.as_str().is_empty() {
                    String::from_str("Untitled sale")
                } else {
                    sale.name.clone()
                };
                shown.append(" ");
                match id {
                    Some(k) => {
                        shown.append("(#");
                        let digits = decimal_string(k as u64);
                        shown.append(digits.as_str());
                        shown.append(")");
                    },
                    None => {},
                }
                let mut t = String::from_str("iced Receipts \u{2022} ");
                t.append(shown.as_str());
                match mode {
                    Mode::View => {},
                    Mode::Edit => t.append(" \u{2022} Edit"),
                }
                t
            },
        }
    }

    /// Carries out an instruction from the screen of the sale that
    /// `sale_id` names.
    fn perform(&mut self, sale_id: Option<usize>, instruction: Instruction)
        requires
            old(self).wf(),
            holds(old(self)@, sale_id),
        ensures
            final(self).wf(),
            final(self)@ == performed(old(self)@, sale_id, instruction),
    {
        match instruction {
            Instruction::Back => match self.screen {
                Screen::List => {},
                Screen::Sale(mode, _) => match mode {
                    Mode::Edit => self.screen = Screen::Sale(Mode::View, sale_id),
                    Mode::View => self.screen = Screen::List,
                },
            },
            Instruction::Save => {
                let final_id = match self.draft.0 {
                    Some(id) => {
                        // storing an edit of a saved sale
                        let copy = self.draft.1.clone();
                        proof {
                            lemma_sales_view_insert(self.sales@, id, copy);
                        }
                        self.sales.insert(id, copy);
                        id
                    },
                    None => {
                        // storing a new sale
                        let new_id = sale::take_id(&mut self.next_sale_id);
                        let mut taken = Sale::default();
                        std::mem::swap(&mut taken, &mut self.draft.1);
                        proof {
                            lemma_sales_view_insert(self.sales@, new_id, taken);
                        }
                        self.sales.insert(new_id, taken);
                        new_id
                    },
                };
                self.screen = Screen::Sale(Mode::View, Some(final_id));
            },
            Instruction::StartEdit => {
                if let Some(id) = sale_id {
                    let copy = self.sales.get(&id).unwrap().clone();
                    self.draft = (Some(id), copy);
                }
                self.screen = Screen::Sale(Mode::Edit, sale_id);
            },
            Instruction::Cancel => {
                match sale_id {
                    Some(id) => {
                        let copy = self.sales.get(&id).unwrap().clone();
                        self.draft = (Some(id), copy);
                    },
                    None => {
                        self.draft = (None, Sale::default());
                    },
                }
                self.screen = Screen::Sale(Mode::View, sale_id);
            },
        }
    }

    /// Takes a message: changes the state as [`step`] says, and returns
    /// the task to run.
    pub fn update(&mut self, message: Message) -> (outcome: Outcome)
        requires
            old(self).wf(),
            accepts(old(self)@, message),
        ensures
            final(self).wf(),
            (final(self)@, outcome@) == step(old(self)@, message),
    {
        match message {
            Message::List(list::Message::NewSale) => {
                self.draft = (None, Sale::default());
                self.screen = Screen::Sale(Mode::Edit, None);
                Outcome { task: Effect::FocusNext, sale_id: None }
            },
            Message::List(list::Message::SelectSale(id)) => {
                self.screen = Screen::Sale(Mode::View, Some(id));
                Outcome { task: Effect::Nothing, sale_id: None }
            },
            Message::Hotkey(hotkey) => match self.screen {
                Screen::List => Outcome { task: Effect::Nothing, sale_id: None },
                Screen::Sale(mode, sale_id) => {
                    let action = sale::handle_hotkey(self.sale(sale_id), mode, hotkey);
                    if let Some(instruction) = action.instruction {
                        self.perform(sale_id, instruction);
                    }
                    Outcome { task: action.task, sale_id }
                },
            },
            Message::Sale(sale_id, msg) => {
                let action = if self.draft.0 == sale_id {
                    sale::update(&mut self.draft.1, msg, &mut self.next_item_id)
                } else {
                    let k = sale_id.unwrap();
                    let mut s = self.sales.remove(&k).unwrap();
                    let a = sale::update(&mut s, msg, &mut self.next_item_id);
                    proof {
                        lemma_sales_view_remove_insert(old(self).sales@, k, s);
                    }
                    self.sales.insert(k, s);
                    a
                };
                if let Some(instruction) = action.instruction {
                    self.perform(sale_id, instruction);
                }
                Outcome { task: action.task, sale_id }
            },
        }
    }
}

} // verus!
