use crate::text::opt_text;
use vstd::prelude::*;

verus! {

/// One payment instruction. The three references are canonical ids; the
/// amount is in minor units.
#[derive(Debug, PartialEq, Eq)]
pub struct Transaction {
    pub method_id: Option<String>,
    pub employee_id: Option<String>,
    pub payee_id: Option<String>,
    pub payor_id: Option<String>,
    pub xml_id: Option<u64>,
    pub amount: Option<u64>,
}

/// `Transaction` as contracts see it: each text as the characters that it
/// holds.
pub struct TransactionView {
    pub method_id: Option<Seq<char>>,
    pub employee_id: Option<Seq<char>>,
    pub payee_id: Option<Seq<char>>,
    pub payor_id: Option<Seq<char>>,
    pub xml_id: Option<u64>,
    pub amount: Option<u64>,
}

impl View for Transaction {
    type V = TransactionView;

    open spec fn view(&self) -> TransactionView {
        TransactionView {
            method_id: opt_text(self.method_id),
            employee_id: opt_text(self.employee_id),
            payee_id: opt_text(self.payee_id),
            payor_id: opt_text(self.payor_id),
            xml_id: self.xml_id,
            amount: self.amount,
        }
    }
}

impl Clone for Transaction {
    fn clone(&self) -> (r: Self)
        ensures
            r == *self,
    {
        Transaction {
            method_id: self.method_id.clone(),
            employee_id: self.employee_id.clone(),
            payee_id: self.payee_id.clone(),
            payor_id: self.payor_id.clone(),
            xml_id: self.xml_id,
            amount: self.amount,
        }
    }
}

impl Transaction {
    /// The element that opens a transaction block in a document.
    pub const XML_IDENTIFIER: &'static str = "row";

    /// The record with no field set.
    pub open spec fn empty() -> Transaction {
        Transaction {
            method_id: None,
            employee_id: None,
            payee_id: None,
            payor_id: None,
            xml_id: None,
            amount: None,
        }
    }

    /// A record with no field set.
    pub fn new() -> (r: Self)
        ensures
            r == Self::empty(),
    {
        Transaction {
            method_id: None,
            employee_id: None,
            payee_id: None,
            payor_id: None,
            xml_id: None,
            amount: None,
        }
    }
}

} // verus!
