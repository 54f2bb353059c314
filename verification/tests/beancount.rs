use beancount_tui::beancount::{filter_transactions, PostingField, PostingTui, TransactionTui};
use beancount_tui::error::BeancountTuiError;
use beancount_tui::field::{InputField, InputFieldType};
use beancount_tui::ledger::{
    Amount, BeancountFile, Date, Directive, DirectiveContent, Posting, Transaction,
};
use beancount_tui::utils::format_date;
use rust_decimal::Decimal;
use tui_textarea::{Input, Key};

fn directive(content: DirectiveContent) -> Directive {
    Directive { date: Date { year: 2024, month: 1, day: 1 }, content }
}

fn transaction(payee: &str) -> DirectiveContent {
    DirectiveContent::Transaction(Transaction {
        flag: None,
        payee: Some(payee.to_string()),
        narration: None,
        postings: vec![],
    })
}

fn payee_of(directive: &Directive) -> Option<String> {
    match &directive.content {
        DirectiveContent::Transaction(t) => t.payee.clone(),
        _ => None,
    }
}

fn record(date: &str, flag: &str, payee: &str, narration: &str) -> TransactionTui {
    TransactionTui {
        metadata_textareas: [
            InputField::new(InputFieldType::Date, date.to_string()),
            InputField::new(InputFieldType::Flag, flag.to_string()),
            InputField::new(InputFieldType::Payee, payee.to_string()),
            InputField::new(InputFieldType::Narration, narration.to_string()),
        ],
        postings_textareas: vec![],
    }
}

fn posting_tui(account: &str, amount: &str, currency: &str) -> PostingTui {
    PostingTui {
        account_textarea: InputField::new(InputFieldType::Account, account.to_string()),
        amount_textarea: InputField::new(InputFieldType::Amount, amount.to_string()),
        currency_textarea: InputField::new(InputFieldType::Currency, currency.to_string()),
    }
}

#[test]
fn filter_keeps_transactions_in_order() {
    let file = BeancountFile {
        directives: vec![
            directive(DirectiveContent::Open),
            directive(transaction("A")),
            directive(DirectiveContent::Balance),
            directive(transaction("B")),
            directive(DirectiveContent::Price),
        ],
    };
    let kept = filter_transactions(file);
    assert_eq!(kept.len(), 2);
    assert_eq!(payee_of(&kept[0]), Some("A".to_string()));
    assert_eq!(payee_of(&kept[1]), Some("B".to_string()));
}

#[test]
fn filter_drops_every_other_kind() {
    let file = BeancountFile {
        directives: vec![
            directive(DirectiveContent::Price),
            directive(DirectiveContent::Balance),
            directive(DirectiveContent::Open),
            directive(DirectiveContent::Close),
            directive(DirectiveContent::Pad),
            directive(DirectiveContent::Commodity),
            directive(DirectiveContent::Event),
            directive(DirectiveContent::Other),
        ],
    };
    assert!(filter_transactions(file).is_empty());
    assert!(filter_transactions(BeancountFile { directives: vec![] }).is_empty());
}

#[test]
fn format_writes_metadata_and_postings() {
    let mut record = record("2024-01-01", "*", "Test", "Note");
    record.postings_textareas.push(posting_tui("Assets:Cash", "10.00", "USD"));
    assert_eq!(
        record.format_transaction(),
        "2024-01-01 * Test Note\n    Assets:Cash    10.00 USD"
    );
}

#[test]
fn format_puts_each_posting_on_its_own_line() {
    let mut record = record("2024-02-29", "!", "", "");
    record.postings_textareas.push(posting_tui("Assets:Cash", "-3", "CHF"));
    record.postings_textareas.push(posting_tui("Expenses:Food", "", ""));
    record.postings_textareas.push(posting_tui("", "", ""));
    assert_eq!(
        record.format_transaction(),
        "2024-02-29 !  \n    Assets:Cash    -3 CHF\n    Expenses:Food     \n         "
    );
}

#[test]
fn format_without_postings_ends_with_a_newline() {
    assert_eq!(record("2024-01-01", "*", "Test", "Note").format_transaction(), "2024-01-01 * Test Note\n");
}

#[test]
fn format_joins_the_lines_of_a_field_with_spaces() {
    let mut record = record("2024-01-01", "*", "Test", "ab");
    let narration = &mut record.metadata_textareas[3];
    narration.input(Input { key: Key::Right, ctrl: false, alt: false, shift: false });
    narration.input(Input { key: Key::Enter, ctrl: false, alt: false, shift: false });
    assert_eq!(narration.lines(), vec!["a".to_string(), "b".to_string()]);
    assert_eq!(narration.text(), "a b");
    assert_eq!(record.format_transaction(), "2024-01-01 * Test a b\n");
}

#[test]
fn transaction_fields_come_from_the_directive() {
    let parsed = Directive {
        date: Date { year: 2023, month: 5, day: 7 },
        content: DirectiveContent::Transaction(Transaction {
            flag: Some('!'),
            payee: Some("Grocery store".to_string()),
            narration: Some("Grocery shopping".to_string()),
            postings: vec![
                Posting {
                    account: "Assets:Cash".to_string(),
                    amount: Some(Amount { value: Decimal::new(-1000, 2), currency: "CHF".to_string() }),
                },
                Posting { account: "Expenses:Groceries".to_string(), amount: None },
            ],
        }),
    };
    let record = TransactionTui::try_from(&parsed).expect("a transaction");
    let metadata: Vec<String> = record.metadata_textareas.iter().map(|f| f.text()).collect();
    assert_eq!(metadata, vec!["2023-05-07", "!", "Grocery store", "Grocery shopping"]);
    let types: Vec<InputFieldType> = record.metadata_textareas.iter().map(|f| f.input_type).collect();
    assert_eq!(
        types,
        vec![
            InputFieldType::Date,
            InputFieldType::Flag,
            InputFieldType::Payee,
            InputFieldType::Narration
        ]
    );
    assert_eq!(record.postings_textareas.len(), 2);
    let first = &record.postings_textareas[0];
    assert_eq!(first.account_textarea.text(), "Assets:Cash");
    assert_eq!(first.amount_textarea.text(), "-10.00");
    assert_eq!(first.currency_textarea.text(), "CHF");
    assert_eq!(first.account_textarea.input_type, InputFieldType::Account);
    assert_eq!(first.amount_textarea.input_type, InputFieldType::Amount);
    assert_eq!(first.currency_textarea.input_type, InputFieldType::Currency);
    let second = &record.postings_textareas[1];
    assert_eq!(second.account_textarea.text(), "Expenses:Groceries");
    assert_eq!(second.amount_textarea.text(), "");
    assert_eq!(second.currency_textarea.text(), "");
    assert_eq!(
        record.format_transaction(),
        "2023-05-07 ! Grocery store Grocery shopping\n    Assets:Cash    -10.00 CHF\n    Expenses:Groceries     "
    );
}

#[test]
fn missing_metadata_gets_defaults() {
    let parsed = directive(DirectiveContent::Transaction(Transaction {
        flag: None,
        payee: None,
        narration: None,
        postings: vec![],
    }));
    let record = TransactionTui::try_from(&parsed).expect("a transaction");
    let metadata: Vec<String> = record.metadata_textareas.iter().map(|f| f.text()).collect();
    assert_eq!(metadata, vec!["2024-01-01", "*", "", ""]);
    assert!(record.postings_textareas.is_empty());
}

#[test]
fn only_transactions_can_be_edited() {
    for content in [
        DirectiveContent::Price,
        DirectiveContent::Balance,
        DirectiveContent::Open,
        DirectiveContent::Close,
        DirectiveContent::Pad,
        DirectiveContent::Commodity,
        DirectiveContent::Event,
        DirectiveContent::Other,
    ] {
        match TransactionTui::try_from(&directive(content)) {
            Err(BeancountTuiError::Parser(message)) => {
                assert_eq!(message, "Can only parse Transactions")
            }
            other => panic!("expected a parser error, got {:?}", other),
        }
    }
}

#[test]
fn error_messages() {
    assert_eq!(BeancountTuiError::Parser("anything".to_string()).message(), "couldn't parse input");
    assert_eq!(BeancountTuiError::NoTransactions.message(), "no transactions to edit");
}

#[test]
fn posting_fields_show_the_amount_as_text() {
    let cases = [
        (Decimal::new(1000, 2), "10.00"),
        (Decimal::new(10, 0), "10"),
        (Decimal::new(-15, 1), "-1.5"),
        (Decimal::new(5, 3), "0.005"),
        (Decimal::new(0, 0), "0"),
    ];
    for (value, text) in cases {
        let posting = Posting {
            account: "Assets:Cash".to_string(),
            amount: Some(Amount { value, currency: "USD".to_string() }),
        };
        let fields = PostingTui::try_from(posting).expect("never fails");
        assert_eq!(fields.amount_textarea.text(), text);
        assert_eq!(fields.currency_textarea.text(), "USD");
        assert_eq!(fields.account_textarea.text(), "Assets:Cash");
    }
}

#[test]
fn posting_without_amount_has_empty_fields() {
    let posting = Posting { account: "Assets:Cash".to_string(), amount: None };
    let fields = PostingTui::from_posting(&posting);
    assert_eq!(fields.account_textarea.text(), "Assets:Cash");
    assert_eq!(fields.amount_textarea.lines(), vec![String::new()]);
    assert_eq!(fields.currency_textarea.lines(), vec![String::new()]);
}

#[test]
fn add_posting_on_a_record() {
    let mut record = record("2024-01-01", "*", "Test", "Note");
    record.postings_textareas.push(posting_tui("Assets:Cash", "10.00", "USD"));
    record.add_posting();
    record.add_posting();
    assert_eq!(record.postings_textareas.len(), 3);
    for index in [1, 2] {
        let added = &record.postings_textareas[index];
        assert_eq!(added.account_textarea.text(), "");
        assert_eq!(added.amount_textarea.text(), "");
        assert_eq!(added.currency_textarea.text(), "");
        assert_eq!(added.account_textarea.input_type, InputFieldType::Account);
        assert_eq!(added.amount_textarea.input_type, InputFieldType::Amount);
        assert_eq!(added.currency_textarea.input_type, InputFieldType::Currency);
    }
    assert_eq!(record.postings_textareas[0].account_textarea.text(), "Assets:Cash");
    assert_eq!(
        record.format_transaction(),
        "2024-01-01 * Test Note\n    Assets:Cash    10.00 USD\n         \n         "
    );
}

#[test]
fn next_field_cycles_through_three_parts() {
    let posting = PostingTui::empty();
    for start in [PostingField::Account, PostingField::Amount, PostingField::Currency] {
        for forward in [true, false] {
            let one = posting.next_field(&start, forward);
            let two = posting.next_field(&one, forward);
            let three = posting.next_field(&two, forward);
            assert_ne!(one, start);
            assert_ne!(two, start);
            assert_eq!(three, start);
            assert_eq!(posting.next_field(&one, !forward), start);
        }
    }
    assert_eq!(posting.next_field(&PostingField::Account, true), PostingField::Amount);
    assert_eq!(posting.next_field(&PostingField::Amount, true), PostingField::Currency);
    assert_eq!(posting.next_field(&PostingField::Currency, true), PostingField::Account);
    assert_eq!(posting.next_field(&PostingField::Account, false), PostingField::Currency);
}

#[test]
fn get_field_picks_the_part() {
    let mut posting = posting_tui("Assets:Cash", "10.00", "USD");
    assert_eq!(posting.get_field(&PostingField::Account).text(), "Assets:Cash");
    assert_eq!(posting.get_field(&PostingField::Amount).text(), "10.00");
    assert_eq!(posting.get_field(&PostingField::Currency).text(), "USD");
    posting.get_field_mut(&PostingField::Amount).insert_str("-");
    assert_eq!(posting.get_field(&PostingField::Account).text(), "Assets:Cash");
    assert_eq!(posting.get_field(&PostingField::Amount).text(), "-10.00");
    assert_eq!(posting.get_field(&PostingField::Currency).text(), "USD");
}

#[test]
fn dates_are_written_with_two_digit_month_and_day() {
    assert_eq!(format_date(&Date { year: 2024, month: 1, day: 1 }), "2024-01-01");
    assert_eq!(format_date(&Date { year: 2024, month: 10, day: 9 }), "2024-10-09");
    assert_eq!(format_date(&Date { year: 1999, month: 12, day: 31 }), "1999-12-31");
    assert_eq!(format_date(&Date { year: 5, month: 3, day: 2 }), "5-03-02");
    assert_eq!(format_date(&Date { year: 0, month: 0, day: 0 }), "0-00-00");
    assert_eq!(format_date(&Date { year: 65535, month: 255, day: 100 }), "65535-255-100");
}
