//! What can go wrong when a ledger is loaded.

use vstd::prelude::*;
use vstd::string::StringExecFns;

verus! {

/// Why a ledger cannot be edited.
#[derive(Debug)]
pub enum BeancountTuiError {
    /// A directive could not be turned into an editable transaction.
    Parser(String),
    /// The ledger holds no transaction, so there is nothing to edit.
    NoTransactions,
}

impl BeancountTuiError {
    /// The text shown to the user for this error.
    pub open spec fn message_spec(self) -> Seq<char> {
        match self {
            BeancountTuiError::Parser(_) => "couldn't parse input"@,
            BeancountTuiError::NoTransactions => "no transactions to edit"@,
        }
    }

    /// The text shown to the user for this error.
    pub fn message(&self) -> (message: String)
        ensures
            message@ == self.message_spec(),
    {
        match self {
            BeancountTuiError::Parser(_) => String::from_str("couldn't parse input"),
            BeancountTuiError::NoTransactions => String::from_str("no transactions to edit"),
        }
    }
}

} // verus!
