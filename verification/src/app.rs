//! The editor: the transactions of a ledger, the one on show, the field
//! that has the focus, and what each key does to them.

use crate::beancount::{
    empty_posting, filter_transactions, is_transaction, lemma_transactions_are_transactions,
    transaction_fields, transactions_of, PostingField, TransactionTui,
};
use crate::error::BeancountTuiError;
pub use crate::field::{InputField, InputFieldType};
use crate::focus::{Focus, FocusLocation, METADATA_FIELDS, PAYEE_FIELD};
use crate::ledger::BeancountFile;
use crate::textarea::typed_char;
use tui_textarea::{Input, Key};
use vstd::prelude::*;
use vstd::string::StringExecFns;

verus! {

/// Confirmation overlay. While `active`, it is the only consumer of key
/// events.
#[derive(Debug, Clone)]
pub struct Popup {
    pub active: bool,
    pub prompt: String,
}

impl Popup {
    /// Activates the overlay with `prompt` as its message.
    pub fn show(&mut self, prompt: &str)
        ensures
            final(self).active,
            final(self).prompt@ == prompt@,
    {
        self.active = true;
        self.prompt = String::from_str(prompt);
    }

    /// Deactivates the overlay; the message stays as it was.
    pub fn dismiss(&mut self)
        ensures
            !final(self).active,
            final(self).prompt == old(self).prompt,
    {
        self.active = false;
    }
}

/// The editing mode. The editor is always in `Normal`.
#[derive(Debug, PartialEq, Eq, Structural)]
pub enum InputMode {
    Normal,
    Insert,
}

/// What a key asks of the editor while no overlay is shown.
#[derive(Debug, Clone, Copy, PartialEq, Eq, Structural)]
pub enum Command {
    ConfirmClose,
    NextTransaction,
    PrevTransaction,
    FocusRight,
    FocusLeft,
    FocusDown,
    FocusUp,
    AddPosting,
    /// Any other key: it goes to the field that has the focus.
    Edit,
}

/// The command bound to a key: Esc or Ctrl-q asks to close, Ctrl-n and
/// Ctrl-p switch transactions, Ctrl-h, Ctrl-j, Ctrl-k and Ctrl-l move the
/// focus, Ctrl-o adds a posting. Alt and Shift do not change a binding.
pub open spec fn command_of(input: Input) -> Command {
    if input.key == Key::Esc || (input.key == Key::Char('q') && input.ctrl) {
        Command::ConfirmClose
    } else if input.key == Key::Char('n') && input.ctrl {
        Command::NextTransaction
    } else if input.key == Key::Char('p') && input.ctrl {
        Command::PrevTransaction
    } else if input.key == Key::Char('l') && input.ctrl {
        Command::FocusRight
    } else if input.key == Key::Char('h') && input.ctrl {
        Command::FocusLeft
    } else if input.key == Key::Char('j') && input.ctrl {
        Command::FocusDown
    } else if input.key == Key::Char('k') && input.ctrl {
        Command::FocusUp
    } else if input.key == Key::Char('o') && input.ctrl {
        Command::AddPosting
    } else {
        Command::Edit
    }
}

/// The command bound to a key.
pub fn command_for(input: &Input) -> (command: Command)
    ensures
        command == command_of(*input),
{
    match input {
        Input { key: Key::Esc, .. } | Input { key: Key::Char('q'), ctrl: true, .. } => {
            Command::ConfirmClose
        },
        Input { key: Key::Char('n'), ctrl: true, .. } => Command::NextTransaction,
        Input { key: Key::Char('p'), ctrl: true, .. } => Command::PrevTransaction,
        Input { key: Key::Char('l'), ctrl: true, .. } => Command::FocusRight,
        Input { key: Key::Char('h'), ctrl: true, .. } => Command::FocusLeft,
        Input { key: Key::Char('j'), ctrl: true, .. } => Command::FocusDown,
        Input { key: Key::Char('k'), ctrl: true, .. } => Command::FocusUp,
        Input { key: Key::Char('o'), ctrl: true, .. } => Command::AddPosting,
        _ => Command::Edit,
    }
}

/// The question put to the user before the editor closes.
pub open spec fn close_prompt() -> Seq<char> {
    "Do you want to close the application and print the transaction to stdout?"@
}

/// The state of the editor.
#[derive(Debug)]
pub struct App {
    /// Whether the user has confirmed that the editor should close.
    pub exit: bool,
    /// The transactions of the ledger, in the order of the file.
    pub transactions: Vec<TransactionTui>,
    /// Which transaction is on show.
    pub current_index: usize,
    /// The metadata field that has the focus, or had it before focus went
    /// to the postings.
    pub currently_selected_metadata_field: usize,
    /// The posting that has the focus, while focus is on the postings.
    pub currently_selected_posting: usize,
    /// The part of the posting that has the focus.
    pub currently_selected_posting_field: PostingField,
    pub current_mode: InputMode,
    pub current_account: usize,
    /// Whether a posting has the focus, rather than a metadata field.
    pub focus_on_postings: bool,
    pub popup: Popup,
}

impl App {
    /// The transaction on show.
    pub open spec fn current(self) -> TransactionTui {
        self.transactions@[self.current_index as int]
    }

    /// Number of postings of the transaction on show.
    pub open spec fn postings(self) -> int {
        self.current().postings_textareas@.len() as int
    }

    /// The focus, as the moves in [`crate::focus`] see it.
    pub open spec fn focus_state(self) -> Focus {
        Focus {
            on_postings: self.focus_on_postings,
            metadata_field: self.currently_selected_metadata_field as int,
            posting: self.currently_selected_posting as int,
            posting_field: self.currently_selected_posting_field,
        }
    }

    /// There is a transaction on show, and the focus names one of its
    /// fields.
    pub open spec fn wf(self) -> bool {
        &&& self.current_index < self.transactions@.len()
        &&& self.focus_state().wf(self.postings())
    }

    /// This editor with its focus replaced.
    pub open spec fn with_focus(self, focus: Focus) -> App {
        App {
            focus_on_postings: focus.on_postings,
            currently_selected_metadata_field: focus.metadata_field as usize,
            currently_selected_posting: focus.posting as usize,
            currently_selected_posting_field: focus.posting_field,
            ..self
        }
    }

    /// The state after a request for the next (`forward`) or the previous
    /// transaction. At either end of the list nothing changes; otherwise
    /// the neighbour is shown and focus goes to its payee.
    pub open spec fn after_switch(self, forward: bool) -> App {
        if forward && self.current_index + 1 < self.transactions@.len() {
            (App { current_index: (self.current_index + 1) as usize, ..self }).with_focus(
                Focus::initial(),
            )
        } else if !forward && self.current_index > 0 {
            (App { current_index: (self.current_index - 1) as usize, ..self }).with_focus(
                Focus::initial(),
            )
        } else {
            self
        }
    }

    /// The state after a move of the focus to the right (`forward`) or to
    /// the left: along the parts of the posting if a posting has the
    /// focus, along the metadata row otherwise.
    pub open spec fn after_sideways(self, forward: bool) -> App {
        if self.focus_on_postings {
            self.with_focus(self.focus_state().navigate_posting_field(forward))
        } else {
            self.with_focus(self.focus_state().navigate_metadata_field(forward))
        }
    }

    /// The state after a move of the focus down (`forward`) or up: to the
    /// neighbouring posting if a posting has the focus, into the postings
    /// otherwise.
    pub open spec fn after_vertical(self, forward: bool) -> App {
        if self.focus_on_postings {
            self.with_focus(self.focus_state().navigate_posting(self.postings(), forward))
        } else {
            self.with_focus(self.focus_state().enter_postings(self.postings(), forward))
        }
    }

    /// `next` is this editor but for its transactions.
    pub open spec fn same_but_transactions(self, next: App) -> bool {
        next == (App { transactions: next.transactions, ..self })
    }

    /// `next` is this editor with the closing question on show.
    pub open spec fn closing(self, next: App) -> bool {
        &&& next == (App { popup: next.popup, ..self })
        &&& next.popup.active
        &&& next.popup.prompt@ == close_prompt()
    }

    /// `next` is this editor with one empty posting appended to the
    /// transaction on show. The focus stays where it is.
    pub open spec fn posting_added(self, next: App) -> bool {
        &&& self.same_but_transactions(next)
        &&& next.transactions@.len() == self.transactions@.len()
        &&& forall|i: int|
            0 <= i < self.transactions@.len() && i != self.current_index
                ==> #[trigger] next.transactions@[i] == self.transactions@[i]
        &&& next.current().metadata_textareas == self.current().metadata_textareas
        &&& next.current().postings_textareas@.len() == self.postings() + 1
        &&& next.current().postings_textareas@.drop_last() == self.current().postings_textareas@
        &&& next.current()@.postings == self.current()@.postings.push(empty_posting())
    }

    /// `next` differs from this editor at most in the field that has the
    /// focus, which keeps its type.
    pub open spec fn field_edited(self, next: App) -> bool {
        &&& self.same_but_transactions(next)
        &&& next.transactions@.len() == self.transactions@.len()
        &&& forall|i: int|
            0 <= i < self.transactions@.len() && i != self.current_index
                ==> #[trigger] next.transactions@[i] == self.transactions@[i]
        &&& if self.focus_on_postings {
            let posting = self.currently_selected_posting as int;
            let field = self.currently_selected_posting_field;
            &&& next.current().metadata_textareas == self.current().metadata_textareas
            &&& next.current().postings_textareas@.len() == self.postings()
            &&& forall|k: int|
                0 <= k < self.postings() && k != posting
                    ==> #[trigger] next.current().postings_textareas@[k]
                    == self.current().postings_textareas@[k]
            &&& next.current().postings_textareas@[posting]
                == self.current().postings_textareas@[posting].with_field(
                field,
                next.current().postings_textareas@[posting].field_spec(field),
            )
            &&& next.current().postings_textareas@[posting].field_spec(field).input_type
                == self.current().postings_textareas@[posting].field_spec(field).input_type
        } else {
            let field = self.currently_selected_metadata_field as int;
            &&& next.current().postings_textareas == self.current().postings_textareas
            &&& forall|k: int|
                0 <= k < METADATA_FIELDS && k != field
                    ==> #[trigger] next.current().metadata_textareas[k]
                    == self.current().metadata_textareas[k]
            &&& next.current().metadata_textareas[field].input_type
                == self.current().metadata_textareas[field].input_type
        }
    }

    /// What a key does while no overlay is shown: `next` is the state that
    /// this one goes to on `input`.
    pub open spec fn key_handled(self, input: Input, next: App) -> bool {
        match command_of(input) {
            Command::ConfirmClose => self.closing(next),
            Command::NextTransaction => next == self.after_switch(true),
            Command::PrevTransaction => next == self.after_switch(false),
            Command::FocusRight => next == self.after_sideways(true),
            Command::FocusLeft => next == self.after_sideways(false),
            Command::FocusDown => next == self.after_vertical(true),
            Command::FocusUp => next == self.after_vertical(false),
            Command::AddPosting => self.posting_added(next),
            Command::Edit => {
                &&& self.field_edited(next)
                &&& typed_char(input) matches Some(c) ==> (self.current_field()@.ready()
                    ==> next.current_field()@ == self.current_field()@.with_inserted(seq![c]))
            },
        }
    }

    /// What a key does while the overlay is shown: Esc takes the overlay
    /// away, Enter confirms that the editor should close, and no other key
    /// does anything.
    pub open spec fn popup_key_handled(self, input: Input, next: App) -> bool {
        if input.key == Key::Esc {
            &&& next == (App { popup: next.popup, ..self })
            &&& !next.popup.active
            &&& next.popup.prompt == self.popup.prompt
        } else if input.key == Key::Enter {
            next == (App { exit: true, ..self })
        } else {
            next == self
        }
    }

    /// An editor for the transactions of a ledger, the first one on show
    /// and focus on its payee. A ledger without a transaction is refused.
    pub fn new(beancount: BeancountFile) -> (app: Result<App, BeancountTuiError>)
        ensures
            match app {
                Ok(app) => {
                    &&& app.wf()
                    &&& !app.exit
                    &&& app.current_index == 0
                    &&& app.focus_state() == Focus::initial()
                    &&& app.current_mode == InputMode::Normal
                    &&& app.current_account == 0
                    &&& !app.popup.active
                    &&& app.popup.prompt@.len() == 0
                    &&& app.transactions@.len() == transactions_of(beancount.directives@).len()
                    &&& forall|i: int|
                        0 <= i < app.transactions@.len() ==> (#[trigger] app.transactions@[i])@
                            == transaction_fields(transactions_of(beancount.directives@)[i])
                },
                Err(e) => {
                    &&& e is NoTransactions
                    &&& transactions_of(beancount.directives@).len() == 0
                },
            },
    {
        let ghost all = beancount.directives@;
        let directives = filter_transactions(beancount);
        proof {
            lemma_transactions_are_transactions(all);
        }
        let mut transactions: Vec<TransactionTui> = Vec::new();
        let mut i: usize = 0;
        while i < directives.len()
            invariant
                i <= directives@.len(),
                directives@ == transactions_of(all),
                forall|k: int| 0 <= k < directives@.len() ==> is_transaction(#[trigger] directives@[k]),
                transactions@.len() == i,
                forall|k: int|
                    0 <= k < i ==> (#[trigger] transactions@[k])@ == transaction_fields(
                        directives@[k],
                    ),
            decreases directives@.len() - i,
        {
            // The filter has kept transactions only, so this cannot fail.
            let transaction = TransactionTui::try_from(&directives[i]).expect(
                "Couldn't parse transaction!",
            );
            transactions.push(transaction);
            i = i + 1;
        }
        if transactions.len() == 0 {
            return Err(BeancountTuiError::NoTransactions);
        }
        Ok(
            App {
                exit: false,
                transactions,
                current_index: 0,
                currently_selected_metadata_field: PAYEE_FIELD,
                currently_selected_posting: 0,
                currently_selected_posting_field: PostingField::Account,
                current_mode: InputMode::Normal,
                current_account: 0,
                focus_on_postings: false,
                popup: Popup { active: false, prompt: String::new() },
            },
        )
    }

    /// Whether there is a transaction on show and the focus names one of
    /// its fields.
    pub fn is_well_formed(&self) -> (ok: bool)
        ensures
            ok == self.wf(),
    {
        if self.current_index >= self.transactions.len() {
            return false;
        }
        if self.currently_selected_metadata_field >= METADATA_FIELDS {
            return false;
        }
        !self.focus_on_postings || self.currently_selected_posting
            < self.transactions[self.current_index].postings_textareas.len()
    }

    /// The field that has the focus.
    pub open spec fn location(self) -> FocusLocation {
        if self.focus_on_postings {
            FocusLocation::Posting(
                self.currently_selected_posting,
                self.currently_selected_posting_field,
            )
        } else {
            FocusLocation::Metadata(self.currently_selected_metadata_field)
        }
    }

    /// The field that has the focus.
    pub fn focus_location(&self) -> (location: FocusLocation)
        ensures
            location == self.location(),
    {
        if self.focus_on_postings {
            FocusLocation::Posting(
                self.currently_selected_posting,
                self.currently_selected_posting_field,
            )
        } else {
            FocusLocation::Metadata(self.currently_selected_metadata_field)
        }
    }

    /// Whether the metadata field at `index` is the one to highlight.
    pub fn is_metadata_field_selected(&self, index: usize) -> (selected: bool)
        ensures
            selected == (self.location() == FocusLocation::Metadata(index)),
    {
        index == self.currently_selected_metadata_field && !self.focus_on_postings
    }

    /// Whether `field` of the posting at `index` is the one to highlight.
    pub fn is_posting_field_selected(&self, index: usize, field: PostingField) -> (selected: bool)
        ensures
            selected == (self.location() == FocusLocation::Posting(index, field)),
    {
        index == self.currently_selected_posting && field == self.currently_selected_posting_field
            && self.focus_on_postings
    }

    /// Routes one key: to the overlay while it is shown, to the editor
    /// otherwise.
    pub fn handle_events(&mut self, input: Input)
        requires
            old(self).wf(),
        ensures
            final(self).wf(),
            if old(self).popup.active {
                old(self).popup_key_handled(input, *final(self))
            } else {
                old(self).key_handled(input, *final(self))
            },
    {
        if self.popup.active {
            self.handle_popup_key_event(input)
        } else {
            self.handle_key_event(input)
        }
    }

    /// Handles a key while the overlay is shown.
    pub fn handle_popup_key_event(&mut self, input: Input)
        ensures
            old(self).popup_key_handled(input, *final(self)),
            old(self).wf() ==> final(self).wf(),
    {
        match input {
            Input { key: Key::Esc, .. } => self.popup.dismiss(),
            Input { key: Key::Enter, .. } => self.exit(),
            _ => (),
        }
    }

    /// Handles a key while no overlay is shown: carries out the command
    /// bound to it, or hands it to the field that has the focus.
    pub fn handle_key_event(&mut self, input: Input)
        requires
            old(self).wf(),
        ensures
            final(self).wf(),
            old(self).key_handled(input, *final(self)),
    {
        match command_for(&input) {
            Command::ConfirmClose => self.confirm_close(),
            Command::NextTransaction => self.next_transaction(),
            Command::PrevTransaction => self.prev_transaction(),
            Command::FocusRight => {
                if self.focus_on_postings {
                    self.navigate_posting_field(true);
                } else {
                    self.navigate_metadata_field(true);
                }
            },
            Command::FocusLeft => {
                if self.focus_on_postings {
                    self.navigate_posting_field(false);
                } else {
                    self.navigate_metadata_field(false);
                }
            },
            Command::FocusDown => {
                if self.focus_on_postings {
                    self.navigate_posting(true);
                } else {
                    self.enter_postings(true);
                }
            },
            Command::FocusUp => {
                if self.focus_on_postings {
                    self.navigate_posting(false);
                } else {
                    self.enter_postings(false);
                }
            },
            Command::AddPosting => self.add_posting(),
            Command::Edit => {
                self.current_field_mut().input(input);
            },
        }
    }

    /// The field that has the focus, for editing.
    pub fn current_field_mut(&mut self) -> (field: &mut InputField)
        requires
            old(self).wf(),
        ensures
            *field == old(self).current_field(),
            *final(field) == final(self).current_field(),
            final(field).input_type == old(self).current_field().input_type ==> old(
                self,
            ).field_edited(*final(self)),
    {
        let current_transaction = &mut self.transactions[self.current_index];
        if self.focus_on_postings {
            current_transaction.postings_textareas[self.currently_selected_posting].get_field_mut(
                &self.currently_selected_posting_field,
            )
        } else {
            &mut current_transaction.metadata_textareas[self.currently_selected_metadata_field]
        }
    }

    /// The field that has the focus.
    pub open spec fn current_field(self) -> InputField {
        if self.focus_on_postings {
            self.current().postings_textareas@[self.currently_selected_posting as int].field_spec(
                self.currently_selected_posting_field,
            )
        } else {
            self.current().metadata_textareas[self.currently_selected_metadata_field as int]
        }
    }

    /// Moves the focus along the metadata row, wrapping at both ends.
    pub fn navigate_metadata_field(&mut self, forward: bool)
        requires
            old(self).wf(),
        ensures
            final(self).wf(),
            *final(self) == old(self).with_focus(
                old(self).focus_state().navigate_metadata_field(forward),
            ),
    {
        if forward {
            self.currently_selected_metadata_field = (self.currently_selected_metadata_field + 1)
                % METADATA_FIELDS;
        } else {
            self.currently_selected_metadata_field = (self.currently_selected_metadata_field
                + METADATA_FIELDS - 1) % METADATA_FIELDS;
        }
    }

    /// Moves the focus from the metadata row into the postings: onto the
    /// first posting if `from_top`, onto the last one otherwise. Where the
    /// transaction has no posting, focus stays on the metadata row.
    pub fn enter_postings(&mut self, from_top: bool)
        requires
            old(self).wf(),
            !old(self).focus_on_postings,
        ensures
            final(self).wf(),
            *final(self) == old(self).with_focus(
                old(self).focus_state().enter_postings(old(self).postings(), from_top),
            ),
    {
        let n_postings = self.transactions[self.current_index].postings_textareas.len();
        if n_postings > 0 {
            self.focus_on_postings = true;
            self.currently_selected_posting = if from_top {
                0
            } else {
                n_postings - 1
            };
            self.currently_selected_posting_field = PostingField::Account;
        }
    }

    /// Moves the focus to the next posting, or to the previous one. Past
    /// either end of the list focus goes back to the metadata row.
    pub fn navigate_posting(&mut self, forward: bool)
        requires
            old(self).wf(),
            old(self).focus_on_postings,
        ensures
            final(self).wf(),
            *final(self) == old(self).with_focus(
                old(self).focus_state().navigate_posting(old(self).postings(), forward),
            ),
    {
        let n_postings = self.transactions[self.current_index].postings_textareas.len();
        if forward {
            let next_posting = self.currently_selected_posting + 1;
            if next_posting >= n_postings {
                self.focus_on_postings = false
            } else {
                self.currently_selected_posting = next_posting
            }
        } else {
            let prev_posting = self.currently_selected_posting.checked_sub(1);
            match prev_posting {
                None => self.focus_on_postings = false,
                Some(prev_posting) => self.currently_selected_posting = prev_posting,
            }
        }
    }

    /// Moves the focus along the parts of the posting that has it.
    pub fn navigate_posting_field(&mut self, forward: bool)
        requires
            old(self).wf(),
            old(self).focus_on_postings,
        ensures
            final(self).wf(),
            *final(self) == old(self).with_focus(
                old(self).focus_state().navigate_posting_field(forward),
            ),
    {
        let current_transaction = &self.transactions[self.current_index];
        let current_posting =
            &current_transaction.postings_textareas[self.currently_selected_posting];
        let next = current_posting.next_field(&self.currently_selected_posting_field, forward);
        self.currently_selected_posting_field = next;
    }

    /// Shows the transaction after the current one, focus on its payee.
    /// On the last transaction nothing changes.
    pub fn next_transaction(&mut self)
        requires
            old(self).wf(),
        ensures
            final(self).wf(),
            *final(self) == old(self).after_switch(true),
            old(self).current_index == old(self).transactions@.len() - 1 ==> *final(self) == *old(
                self,
            ),
    {
        if self.current_index < self.transactions.len() - 1 {
            self.current_index = self.current_index.saturating_add(1);
            self.reset_focus();
        }
    }

    /// Shows the transaction before the current one, focus on its payee.
    /// On the first transaction nothing changes.
    pub fn prev_transaction(&mut self)
        requires
            old(self).wf(),
        ensures
            final(self).wf(),
            *final(self) == old(self).after_switch(false),
            old(self).current_index == 0 ==> *final(self) == *old(self),
    {
        if self.current_index > 0 {
            self.current_index = self.current_index.saturating_sub(1);
            self.reset_focus();
        }
    }

    fn reset_focus(&mut self)
        ensures
            *final(self) == old(self).with_focus(Focus::initial()),
    {
        self.focus_on_postings = false;
        self.currently_selected_metadata_field = PAYEE_FIELD;
        self.currently_selected_posting = 0;
        self.currently_selected_posting_field = PostingField::Account;
    }

    /// Asks the user whether the editor should close.
    pub fn confirm_close(&mut self)
        ensures
            old(self).closing(*final(self)),
            old(self).wf() ==> final(self).wf(),
    {
        self.popup.show("Do you want to close the application and print the transaction to stdout?")
    }

    /// Records that the editor should close.
    pub fn exit(&mut self)
        ensures
            *final(self) == (App { exit: true, ..*old(self) }),
    {
        self.exit = true;
    }

    /// Appends an empty posting to the transaction on show.
    pub fn add_posting(&mut self)
        requires
            old(self).wf(),
        ensures
            final(self).wf(),
            old(self).posting_added(*final(self)),
    {
        let current_transaction = &mut self.transactions[self.current_index];
        current_transaction.add_posting();
    }
}

/// Showing the overlay and then answering with Esc leaves the editor as it
/// was before: the same transaction on show, the same focus, the same text
/// in every field, and no overlay.
pub proof fn law_cancelled_overlay_changes_nothing(
    before: App,
    shown: App,
    after: App,
    input: Input,
)
    requires
        shown == (App { popup: shown.popup, ..before }),
        shown.popup.active,
        input.key == Key::Esc,
        shown.popup_key_handled(input, after),
    ensures
        !after.popup.active,
        after.popup.prompt == shown.popup.prompt,
        after == (App { popup: after.popup, ..before }),
        after.exit == before.exit,
        after.current_index == before.current_index,
        after.focus_state() == before.focus_state(),
        after.transactions == before.transactions,
{
}

/// A key that moves the focus or switches to another transaction changes no
/// field: what has been typed stays, also in the transactions that are not
/// on show.
pub proof fn law_navigation_keeps_every_field(app: App, input: Input, next: App)
    requires
        app.key_handled(input, next),
        command_of(input) != Command::ConfirmClose,
        command_of(input) != Command::AddPosting,
        command_of(input) != Command::Edit,
    ensures
        next.transactions == app.transactions,
        next.exit == app.exit,
        next.popup == app.popup,
{
}

/// Enter, while the overlay is shown, closes the editor whatever had the
/// focus, and changes nothing else.
pub proof fn law_confirmed_close_exits(shown: App, after: App, input: Input)
    requires
        input.key == Key::Enter,
        shown.popup_key_handled(input, after),
    ensures
        after.exit,
        after == (App { exit: true, ..shown }),
{
}

} // verus!
