//! Editing model for the transactions of a Beancount ledger.
//!
//! A ledger is loaded into an [`app::App`], which keeps every part of every
//! transaction in an input field of its own. Key events move the focus
//! between the fields, switch between transactions, add postings, or go to
//! the field that has the focus. [`beancount::TransactionTui::format_transaction`]
//! writes an edited transaction back as ledger text.
//!
//! The text of a field is kept by `tui_textarea`, and amounts are
//! `rust_decimal` numbers; what this crate takes on trust of them stands in
//! [`textarea`] and [`ledger`]. One function of std is taken on trust too,
//! [`utils`] holds it. Everything else is verified.

pub mod app;
pub mod beancount;
pub mod error;
pub mod field;
pub mod focus;
pub mod ledger;
pub mod textarea;
pub mod ui;
pub mod utils;
