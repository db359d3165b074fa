use crate::entities::{Error, ErrorView};
use crate::schema::transaction::Transaction;
use crate::text::{decimal, decimal_text};
use vstd::prelude::*;

verus! {

/// The instruction to move money: an amount in minor units from a source to
/// a destination, both canonical ids.
#[derive(Debug, PartialEq, Eq)]
pub struct Payment {
    pub amount: u64,
    pub source: String,
    pub destination: String,
    pub description: String,
}

/// `Payment` as contracts see it: each text as the characters that it holds.
pub struct PaymentView {
    pub amount: u64,
    pub source: Seq<char>,
    pub destination: Seq<char>,
    pub description: Seq<char>,
}

impl View for Payment {
    type V = PaymentView;

    open spec fn view(&self) -> PaymentView {
        PaymentView {
            amount: self.amount,
            source: self.source@,
            destination: self.destination@,
            description: self.description@,
        }
    }
}

impl Clone for Payment {
    fn clone(&self) -> (r: Self)
        ensures
            r == *self,
    {
        Payment {
            amount: self.amount,
            source: self.source.clone(),
            destination: self.destination.clone(),
            description: self.description.clone(),
        }
    }
}

/// The payment that a transaction asks for: its amount, from its payor to
/// its payee, described by the number of the upload it came with. A data
/// error names the first of these that the transaction lacks.
pub open spec fn payment_of(t: Transaction) -> Result<PaymentView, ErrorView> {
    if t.amount is None {
        Err(ErrorView::InvalidDataError("Transaction has no amount"@))
    } else if t.payor_id is None {
        Err(ErrorView::InvalidDataError("Transaction has no payor"@))
    } else if t.payee_id is None {
        Err(ErrorView::InvalidDataError("Transaction has no payee"@))
    } else if t.xml_id is None {
        Err(ErrorView::InvalidDataError("Transaction has no upload"@))
    } else {
        Ok(
            PaymentView {
                amount: t.amount->0,
                source: t.payor_id->0@,
                destination: t.payee_id->0@,
                description: decimal_text(t.xml_id->0 as nat),
            },
        )
    }
}

/// `Ok` with the payload's view, `Err` with the error's view.
pub open spec fn payment_result(r: Result<Payment, Error>) -> Result<PaymentView, ErrorView> {
    match r {
        Ok(payment) => Ok(payment@),
        Err(e) => Err(e@),
    }
}

impl Payment {
    /// Builds the payment that a transaction asks for.
    pub fn from_transaction(t: &Transaction) -> (r: Result<Payment, Error>)
        ensures
            payment_result(r) == payment_of(*t),
    {
        let amount: u64 = match t.amount {
            Some(amount) => amount,
            None => {
                return Err(Error::invalid("Transaction has no amount"));
            },
        };
        let source = match &t.payor_id {
            Some(id) => id.clone(),
            None => {
                return Err(Error::invalid("Transaction has no payor"));
            },
        };
        let destination = match &t.payee_id {
            Some(id) => id.clone(),
            None => {
                return Err(Error::invalid("Transaction has no payee"));
            },
        };
        let upload: u64 = match t.xml_id {
            Some(id) => id,
            None => {
                return Err(Error::invalid("Transaction has no upload"));
            },
        };
        Ok(Payment { amount, source, destination, description: decimal(upload) })
    }
}

} // verus!
