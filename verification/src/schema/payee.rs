use crate::text::opt_text;
use vstd::prelude::*;

verus! {

/// The destination of a payment. `plaid_id` is the natural key; `method_id`
/// is the canonical id that the payment processor assigned.
#[derive(Debug, PartialEq, Eq)]
pub struct Payee {
    pub plaid_id: Option<String>,
    pub method_id: Option<String>,
    pub loan_account_number: Option<u64>,
}

/// `Payee` as contracts see it: each text as the characters that it holds.
pub struct PayeeView {
    pub plaid_id: Option<Seq<char>>,
    pub method_id: Option<Seq<char>>,
    pub loan_account_number: Option<u64>,
}

impl View for Payee {
    type V = PayeeView;

    open spec fn view(&self) -> PayeeView {
        PayeeView {
            plaid_id: opt_text(self.plaid_id),
            method_id: opt_text(self.method_id),
            loan_account_number: self.loan_account_number,
        }
    }
}

impl Clone for Payee {
    fn clone(&self) -> (r: Self)
        ensures
            r == *self,
    {
        Payee {
            plaid_id: self.plaid_id.clone(),
            method_id: self.method_id.clone(),
            loan_account_number: self.loan_account_number,
        }
    }
}

impl Payee {
    /// The element that opens a payee in a document.
    pub const XML_IDENTIFIER: &'static str = "Payee";

    /// The record with no field set.
    pub open spec fn empty() -> Payee {
        Payee {
            plaid_id: None,
            method_id: None,
            loan_account_number: None,
        }
    }

    /// A record with no field set.
    pub fn new() -> (r: Self)
        ensures
            r == Self::empty(),
    {
        Payee {
            plaid_id: None,
            method_id: None,
            loan_account_number: None,
        }
    }
}

} // verus!
