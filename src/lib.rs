//! An account ledger: an identifier with an ordered list of signed
//! transactions, the balance those transactions sum to, and the report lines
//! that describe them.

mod account;
mod error;
mod report;

pub use account::{
    lemma_balance_order_independent, lemma_empty_account_sum, lemma_sum_permutation, sum_amounts,
    Account, Transaction,
};
pub use error::AccountError;
pub use report::{decimal, digit_char, digits, push_decimal};
