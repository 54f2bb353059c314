//! Transactions as the editor holds them: every part of a transaction in an
//! input field of its own, and the text a transaction is written back as.

use crate::error::BeancountTuiError;
use crate::field::{InputField, InputFieldType, InputFieldView};
use crate::ledger::{
    decimal_text, decimal_to_string, BeancountFile, Directive, DirectiveContent, Posting,
};
use crate::utils::{char_to_string, format_date, format_date_spec};
use vstd::prelude::*;
use vstd::string::StringExecFns;

verus! {

/// The three parts of a posting.
#[derive(Clone, Copy, Debug, PartialEq, Eq, Structural)]
pub enum PostingField {
    Account,
    Amount,
    Currency,
}

impl PostingField {
    /// The part after this one, in the cycle account, amount, currency,
    /// account; the part before it if `forward` is false.
    pub open spec fn cycle(self, forward: bool) -> PostingField {
        match (self, forward) {
            (PostingField::Account, true) => PostingField::Amount,
            (PostingField::Amount, true) => PostingField::Currency,
            (PostingField::Currency, true) => PostingField::Account,
            (PostingField::Account, false) => PostingField::Currency,
            (PostingField::Currency, false) => PostingField::Amount,
            (PostingField::Amount, false) => PostingField::Account,
        }
    }
}

/// One posting of a transaction under edit.
#[derive(Debug)]
pub struct PostingTui {
    pub account_textarea: InputField,
    pub amount_textarea: InputField,
    pub currency_textarea: InputField,
}

/// A posting under edit as contracts see it.
pub struct PostingView {
    pub account: InputFieldView,
    pub amount: InputFieldView,
    pub currency: InputFieldView,
}

impl PostingView {
    /// The posting on a line of its own: four spaces, the account, four
    /// spaces, the amount, one space, the currency.
    pub open spec fn line(self) -> Seq<char> {
        seq![' ', ' ', ' ', ' '] + self.account.text() + seq![' ', ' ', ' ', ' ']
            + self.amount.text() + seq![' '] + self.currency.text()
    }
}

impl View for PostingTui {
    type V = PostingView;

    open spec fn view(&self) -> PostingView {
        PostingView {
            account: self.account_textarea@,
            amount: self.amount_textarea@,
            currency: self.currency_textarea@,
        }
    }
}

/// A field that has just been made: `text` as its only line, the cursor at
/// the start, nothing selected.
pub open spec fn fresh_field(input_type: InputFieldType, text: Seq<char>) -> InputFieldView {
    InputFieldView { input_type, lines: seq![text], cursor: (0nat, 0nat), selecting: false }
}

/// The fields that a parsed posting is edited in. Without an amount, the
/// amount and the currency are empty.
pub open spec fn posting_fields(posting: Posting) -> PostingView {
    PostingView {
        account: fresh_field(InputFieldType::Account, posting.account@),
        amount: fresh_field(
            InputFieldType::Amount,
            match posting.amount {
                Some(amount) => decimal_text(amount.value),
                None => Seq::empty(),
            },
        ),
        currency: fresh_field(
            InputFieldType::Currency,
            match posting.amount {
                Some(amount) => amount.currency@,
                None => Seq::empty(),
            },
        ),
    }
}

/// A posting with nothing in it.
pub open spec fn empty_posting() -> PostingView {
    PostingView {
        account: fresh_field(InputFieldType::Account, Seq::empty()),
        amount: fresh_field(InputFieldType::Amount, Seq::empty()),
        currency: fresh_field(InputFieldType::Currency, Seq::empty()),
    }
}

impl PostingTui {
    /// The fields for a parsed posting.
    pub fn from_posting(value: &Posting) -> (posting: PostingTui)
        ensures
            posting@ == posting_fields(*value),
    {
        let account_textarea = InputField::new(InputFieldType::Account, value.account.clone());
        let (amount, currency) = match &value.amount {
            Some(a) => (decimal_to_string(&a.value), a.currency.clone()),
            None => (String::new(), String::new()),
        };
        let amount_textarea = InputField::new(InputFieldType::Amount, amount);
        let currency_textarea = InputField::new(InputFieldType::Currency, currency);
        PostingTui { account_textarea, amount_textarea, currency_textarea }
    }

    /// The fields for a parsed posting. This never fails.
    pub fn try_from(value: Posting) -> (posting: Result<PostingTui, BeancountTuiError>)
        ensures
            posting matches Ok(p) && p@ == posting_fields(value),
    {
        Ok(PostingTui::from_posting(&value))
    }

    /// A posting whose three fields are empty.
    pub fn empty() -> (posting: PostingTui)
        ensures
            posting@ == empty_posting(),
    {
        PostingTui {
            account_textarea: InputField::new(InputFieldType::Account, String::new()),
            amount_textarea: InputField::new(InputFieldType::Amount, String::new()),
            currency_textarea: InputField::new(InputFieldType::Currency, String::new()),
        }
    }

    /// The part of a posting that focus moves to from `current_field`.
    pub fn next_field(&self, current_field: &PostingField, forward: bool) -> (next: PostingField)
        ensures
            next == current_field.cycle(forward),
    {
        match (current_field, forward) {
            (PostingField::Account, true) => PostingField::Amount,
            (PostingField::Amount, true) => PostingField::Currency,
            (PostingField::Currency, true) => PostingField::Account,
            (PostingField::Account, false) => PostingField::Currency,
            (PostingField::Currency, false) => PostingField::Amount,
            (PostingField::Amount, false) => PostingField::Account,
        }
    }

    /// The field for one part of this posting.
    pub open spec fn field_spec(self, field: PostingField) -> InputField {
        match field {
            PostingField::Account => self.account_textarea,
            PostingField::Amount => self.amount_textarea,
            PostingField::Currency => self.currency_textarea,
        }
    }

    /// This posting with `value` in place of one of its fields.
    pub open spec fn with_field(self, field: PostingField, value: InputField) -> PostingTui {
        match field {
            PostingField::Account => PostingTui { account_textarea: value, ..self },
            PostingField::Amount => PostingTui { amount_textarea: value, ..self },
            PostingField::Currency => PostingTui { currency_textarea: value, ..self },
        }
    }

    /// The field for one part of this posting, for editing. The other two
    /// parts stay as they are.
    pub fn get_field_mut(&mut self, field: &PostingField) -> (textarea: &mut InputField)
        ensures
            *textarea == old(self).field_spec(*field),
            *final(self) == old(self).with_field(*field, *final(textarea)),
    {
        match field {
            PostingField::Account => &mut self.account_textarea,
            PostingField::Amount => &mut self.amount_textarea,
            PostingField::Currency => &mut self.currency_textarea,
        }
    }

    /// The field for one part of this posting.
    pub fn get_field(&self, field: &PostingField) -> (textarea: &InputField)
        ensures
            *textarea == self.field_spec(*field),
    {
        match field {
            PostingField::Account => &self.account_textarea,
            PostingField::Amount => &self.amount_textarea,
            PostingField::Currency => &self.currency_textarea,
        }
    }
}

/// One transaction under edit: its four metadata fields, in the order date,
/// flag, payee, narration, and its postings.
#[derive(Debug)]
pub struct TransactionTui {
    pub metadata_textareas: [InputField; 4],
    pub postings_textareas: Vec<PostingTui>,
}

/// A transaction under edit as contracts see it.
pub struct TransactionView {
    pub metadata: Seq<InputFieldView>,
    pub postings: Seq<PostingView>,
}

/// The lines of the postings, a newline between consecutive ones.
pub open spec fn posting_block(postings: Seq<PostingView>) -> Seq<char>
    decreases postings.len(),
{
    if postings.len() == 0 {
        Seq::empty()
    } else if postings.len() == 1 {
        postings[0].line()
    } else {
        posting_block(postings.drop_last()) + seq!['\n'] + postings.last().line()
    }
}

impl TransactionView {
    /// The four metadata texts with single spaces between them.
    pub open spec fn metadata_line(self) -> Seq<char> {
        self.metadata[0].text() + seq![' '] + self.metadata[1].text() + seq![' ']
            + self.metadata[2].text() + seq![' '] + self.metadata[3].text()
    }

    /// The transaction as ledger text: the metadata line, a newline, and
    /// the postings on a line each.
    pub open spec fn format(self) -> Seq<char> {
        self.metadata_line() + seq!['\n'] + posting_block(self.postings)
    }
}

impl View for TransactionTui {
    type V = TransactionView;

    open spec fn view(&self) -> TransactionView {
        TransactionView {
            metadata: self.metadata_textareas@.map_values(|f: InputField| f@),
            postings: self.postings_textareas@.map_values(|p: PostingTui| p@),
        }
    }
}

/// Whether a directive is a transaction.
pub open spec fn is_transaction(directive: Directive) -> bool {
    directive.content is Transaction
}

/// The fields that a parsed transaction is edited in. A missing flag is
/// shown as `*`, a missing payee or narration as an empty text.
pub open spec fn transaction_fields(directive: Directive) -> TransactionView
    recommends
        is_transaction(directive),
{
    let transaction = directive.content->Transaction_0;
    TransactionView {
        metadata: seq![
            fresh_field(InputFieldType::Date, format_date_spec(directive.date)),
            fresh_field(
                InputFieldType::Flag,
                match transaction.flag {
                    Some(c) => seq![c],
                    None => seq!['*'],
                },
            ),
            fresh_field(
                InputFieldType::Payee,
                match transaction.payee {
                    Some(payee) => payee@,
                    None => Seq::empty(),
                },
            ),
            fresh_field(
                InputFieldType::Narration,
                match transaction.narration {
                    Some(narration) => narration@,
                    None => Seq::empty(),
                },
            ),
        ],
        postings: transaction.postings@.map_values(|p: Posting| posting_fields(p)),
    }
}

impl TransactionTui {
    /// The fields for a parsed directive, which must be a transaction.
    pub fn try_from(value: &Directive) -> (record: Result<TransactionTui, BeancountTuiError>)
        ensures
            match record {
                Ok(r) => is_transaction(*value) && r@ == transaction_fields(*value),
                Err(e) => {
                    &&& !is_transaction(*value)
                    &&& e matches BeancountTuiError::Parser(message)
                    &&& message@ == "Can only parse Transactions"@
                },
            },
    {
        let transaction = match &value.content {
            DirectiveContent::Transaction(transaction) => transaction,
            _ => {
                return Err(
                    BeancountTuiError::Parser(String::from_str("Can only parse Transactions")),
                );
            },
        };
        let date_textarea = InputField::new(InputFieldType::Date, format_date(&value.date));
        let flag_textarea = InputField::new(
            InputFieldType::Flag,
            match transaction.flag {
                Some(c) => char_to_string(c),
                None => char_to_string('*'),
            },
        );
        let payee_textarea = InputField::new(
            InputFieldType::Payee,
            match &transaction.payee {
                Some(payee) => payee.clone(),
                None => String::new(),
            },
        );
        let narration_textarea = InputField::new(
            InputFieldType::Narration,
            match &transaction.narration {
                Some(narration) => narration.clone(),
                None => String::new(),
            },
        );
        let mut postings_textareas: Vec<PostingTui> = Vec::new();
        let mut i: usize = 0;
        while i < transaction.postings.len()
            invariant
                i <= transaction.postings@.len(),
                postings_textareas@.len() == i,
                forall|k: int|
                    0 <= k < i ==> (#[trigger] postings_textareas@[k])@ == posting_fields(
                        transaction.postings@[k],
                    ),
            decreases transaction.postings@.len() - i,
        {
            postings_textareas.push(PostingTui::from_posting(&transaction.postings[i]));
            i = i + 1;
        }
        let record = TransactionTui {
            metadata_textareas: [date_textarea, flag_textarea, payee_textarea, narration_textarea],
            postings_textareas,
        };
        assert(record@.metadata == transaction_fields(*value).metadata);
        assert(record@.postings == transaction_fields(*value).postings);
        Ok(record)
    }

    /// Appends a posting whose three fields are empty. Nothing else
    /// changes.
    pub fn add_posting(&mut self)
        ensures
            final(self).metadata_textareas == old(self).metadata_textareas,
            final(self).postings_textareas@.len() == old(self).postings_textareas@.len() + 1,
            final(self).postings_textareas@.drop_last() == old(self).postings_textareas@,
            final(self)@.metadata == old(self)@.metadata,
            final(self)@.postings == old(self)@.postings.push(empty_posting()),
    {
        self.postings_textareas.push(PostingTui::empty());
    }

    /// The transaction as ledger text.
    pub fn format_transaction(&self) -> (text: String)
        ensures
            text@ == self@.format(),
    {
        proof {
            reveal_strlit(" ");
            reveal_strlit("    ");
            reveal_strlit("\n");
        }
        let mut text = self.metadata_textareas[0].text();
        text.append(" ");
        text.append(self.metadata_textareas[1].text().as_str());
        text.append(" ");
        text.append(self.metadata_textareas[2].text().as_str());
        text.append(" ");
        text.append(self.metadata_textareas[3].text().as_str());
        text.append("\n");
        let ghost head = text@;
        let mut i: usize = 0;
        while i < self.postings_textareas.len()
            invariant
                i <= self.postings_textareas@.len(),
                text@ == head + posting_block(self@.postings.take(i as int)),
                " "@ == seq![' '],
                "    "@ == seq![' ', ' ', ' ', ' '],
                "\n"@ == seq!['\n'],
            decreases self.postings_textareas@.len() - i,
        {
            assert(self@.postings.take(i + 1).drop_last() == self@.postings.take(i as int));
            let posting = &self.postings_textareas[i];
            if i > 0 {
                text.append("\n");
            }
            text.append("    ");
            text.append(posting.account_textarea.text().as_str());
            text.append("    ");
            text.append(posting.amount_textarea.text().as_str());
            text.append(" ");
            text.append(posting.currency_textarea.text().as_str());
            i = i + 1;
        }
        assert(self@.postings.take(i as int) == self@.postings);
        text
    }
}

/// The transactions among `directives`, in the same order.
pub open spec fn transactions_of(directives: Seq<Directive>) -> Seq<Directive> {
    directives.filter(|d: Directive| is_transaction(d))
}

/// Everything that [`transactions_of`] keeps is a transaction.
pub proof fn lemma_transactions_are_transactions(directives: Seq<Directive>)
    ensures
        forall|i: int|
            0 <= i < transactions_of(directives).len() ==> is_transaction(
                #[trigger] transactions_of(directives)[i],
            ),
    decreases directives.len(),
{
    reveal(Seq::filter);
    if directives.len() > 0 {
        lemma_transactions_are_transactions(directives.drop_last());
    }
}

/// Keeps the transactions of a ledger, in the order of the file, and drops
/// every other directive.
pub fn filter_transactions(beancount_file: BeancountFile) -> (transactions: Vec<Directive>)
    ensures
        transactions@ == transactions_of(beancount_file.directives@),
{
    let ghost all = beancount_file.directives@;
    let mut transactions: Vec<Directive> = Vec::new();
    for directive in it: beancount_file.directives
        invariant
            it.seq() == all,
            transactions@ == transactions_of(all.take(it.index() as int)),
    {
        proof {
            reveal(Seq::filter);
            assert(all.take(it.index() + 1).drop_last() == all.take(it.index() as int));
        }
        let wanted = match &directive.content {
            DirectiveContent::Transaction(_) => true,
            _ => false,
        };
        if wanted {
            transactions.push(directive);
        }
    }
    assert(all.take(all.len() as int) == all);
    transactions
}

} // verus!
