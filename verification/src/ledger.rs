//! A parsed ledger, as far as the editor reads it.

use rust_decimal::Decimal;
use vstd::prelude::*;

verus! {

/// `rust_decimal::Decimal`. The editor carries amounts through unread and
/// only asks for their text.
#[verifier::external_type_specification]
#[verifier::external_body]
pub struct ExDecimal(Decimal);

/// The text of a decimal number: what its `Display` impl writes when no
/// precision is asked for.
pub uninterp spec fn decimal_text(value: Decimal) -> Seq<char>;

/// `Decimal::to_string`, which goes through `Display`. That impl reads
/// nothing but the number.
#[verifier::external_body]
pub(crate) fn decimal_to_string(value: &Decimal) -> (text: String)
    ensures
        text@ == decimal_text(*value),
{
    value.to_string()
}

/// A calendar date. Nothing checks that the day exists.
#[derive(Debug, Clone, Copy, PartialEq, Eq)]
pub struct Date {
    pub year: u16,
    pub month: u8,
    pub day: u8,
}

/// A number of units of a currency.
#[derive(Debug)]
pub struct Amount {
    pub value: Decimal,
    pub currency: String,
}

/// One line item of a transaction.
#[derive(Debug)]
pub struct Posting {
    pub account: String,
    pub amount: Option<Amount>,
}

/// A dated financial event.
#[derive(Debug)]
pub struct Transaction {
    pub flag: Option<char>,
    pub payee: Option<String>,
    pub narration: Option<String>,
    pub postings: Vec<Posting>,
}

/// What a directive is about. Only transactions carry content here: the
/// editor discards the rest.
#[derive(Debug)]
pub enum DirectiveContent {
    Transaction(Transaction),
    Price,
    Balance,
    Open,
    Close,
    Pad,
    Commodity,
    Event,
    Other,
}

/// One entry of a ledger.
#[derive(Debug)]
pub struct Directive {
    pub date: Date,
    pub content: DirectiveContent,
}

/// The directives of a ledger in the order of the file.
#[derive(Debug)]
pub struct BeancountFile {
    pub directives: Vec<Directive>,
}

} // verus!
