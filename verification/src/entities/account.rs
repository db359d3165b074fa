use crate::entities::{Error, ErrorView};
use crate::schema::payee::Payee;
use crate::schema::payor::Payor;
use crate::text::{decimal, decimal_text};
use vstd::prelude::*;
use vstd::string::StringExecFns;

verus! {

/// The registration of a destination account, held by an identity that the
/// payment processor already knows.
#[derive(Debug, PartialEq, Eq)]
pub struct DestAccount {
    pub holder_id: String,
    pub liability: Liability,
}

/// The loan account that a destination account stands for.
#[derive(Debug, PartialEq, Eq)]
pub struct Liability {
    pub mch_id: String,
    pub account_number: String,
}

/// The registration of a source account.
#[derive(Debug, PartialEq, Eq)]
pub struct SourceAccount {
    pub holder_id: String,
    pub ach: ACH,
}

/// The bank account that a source account stands for.
#[derive(Debug, PartialEq, Eq)]
pub struct ACH {
    pub routing: String,
    pub number: String,
    pub ach_type: String,
}

/// `Liability` as contracts see it: each text as the characters that it holds.
pub struct LiabilityView {
    pub mch_id: Seq<char>,
    pub account_number: Seq<char>,
}

/// `DestAccount` as contracts see it: each text as the characters that it
/// holds.
pub struct DestAccountView {
    pub holder_id: Seq<char>,
    pub liability: LiabilityView,
}

/// `ACH` as contracts see it: each text as the characters that it holds.
pub struct ACHView {
    pub routing: Seq<char>,
    pub number: Seq<char>,
    pub ach_type: Seq<char>,
}

/// `SourceAccount` as contracts see it: each text as the characters that it
/// holds.
pub struct SourceAccountView {
    pub holder_id: Seq<char>,
    pub ach: ACHView,
}

impl View for Liability {
    type V = LiabilityView;

    open spec fn view(&self) -> LiabilityView {
        LiabilityView { mch_id: self.mch_id@, account_number: self.account_number@ }
    }
}

impl View for DestAccount {
    type V = DestAccountView;

    open spec fn view(&self) -> DestAccountView {
        DestAccountView { holder_id: self.holder_id@, liability: self.liability@ }
    }
}

impl View for ACH {
    type V = ACHView;

    open spec fn view(&self) -> ACHView {
        ACHView { routing: self.routing@, number: self.number@, ach_type: self.ach_type@ }
    }
}

impl View for SourceAccount {
    type V = SourceAccountView;

    open spec fn view(&self) -> SourceAccountView {
        SourceAccountView { holder_id: self.holder_id@, ach: self.ach@ }
    }
}

impl Clone for Liability {
    fn clone(&self) -> (r: Self)
        ensures
            r == *self,
    {
        Liability { mch_id: self.mch_id.clone(), account_number: self.account_number.clone() }
    }
}

impl Clone for DestAccount {
    fn clone(&self) -> (r: Self)
        ensures
            r == *self,
    {
        DestAccount { holder_id: self.holder_id.clone(), liability: self.liability.clone() }
    }
}

impl Clone for ACH {
    fn clone(&self) -> (r: Self)
        ensures
            r == *self,
    {
        ACH {
            routing: self.routing.clone(),
            number: self.number.clone(),
            ach_type: self.ach_type.clone(),
        }
    }
}

impl Clone for SourceAccount {
    fn clone(&self) -> (r: Self)
        ensures
            r == *self,
    {
        SourceAccount { holder_id: self.holder_id.clone(), ach: self.ach.clone() }
    }
}

/// The destination account of a payee, not yet given to its holder: it is
/// filed under the payee's own natural id. A data error names the first
/// field that the payee lacks.
pub open spec fn dest_account_of(payee: Payee) -> Result<DestAccountView, ErrorView> {
    if payee.plaid_id is None {
        Err(ErrorView::InvalidDataError("Payee has no natural id"@))
    } else if payee.loan_account_number is None {
        Err(ErrorView::InvalidDataError("Payee has no account number"@))
    } else {
        Ok(
            DestAccountView {
                holder_id: payee.plaid_id->0@,
                liability: LiabilityView {
                    mch_id: "mch_2"@,
                    account_number: decimal_text(payee.loan_account_number->0 as nat),
                },
            },
        )
    }
}

/// The source account of a payor, not yet given to a holder. A data error
/// names the first field that the payor lacks.
pub open spec fn source_account_of(payor: Payor) -> Result<SourceAccountView, ErrorView> {
    if payor.aba_routing is None {
        Err(ErrorView::InvalidDataError("Payor has no routing number"@))
    } else if payor.account_number is None {
        Err(ErrorView::InvalidDataError("Payor has no account number"@))
    } else {
        Ok(
            SourceAccountView {
                holder_id: ""@,
                ach: ACHView {
                    routing: decimal_text(payor.aba_routing->0 as nat),
                    number: decimal_text(payor.account_number->0 as nat),
                    ach_type: "checking"@,
                },
            },
        )
    }
}

/// `Ok` with the payload's view, `Err` with the error's view.
pub open spec fn dest_account_result(r: Result<DestAccount, Error>) -> Result<
    DestAccountView,
    ErrorView,
> {
    match r {
        Ok(account) => Ok(account@),
        Err(e) => Err(e@),
    }
}

/// `Ok` with the payload's view, `Err` with the error's view.
pub open spec fn source_account_result(r: Result<SourceAccount, Error>) -> Result<
    SourceAccountView,
    ErrorView,
> {
    match r {
        Ok(account) => Ok(account@),
        Err(e) => Err(e@),
    }
}

impl DestAccount {
    /// Builds the destination account of a payee.
    pub fn from_payee(payee: &Payee) -> (r: Result<DestAccount, Error>)
        ensures
            dest_account_result(r) == dest_account_of(*payee),
    {
        let holder = match &payee.plaid_id {
            Some(id) => id.clone(),
            None => {
                return Err(Error::invalid("Payee has no natural id"));
            },
        };
        let number: u64 = match payee.loan_account_number {
            Some(number) => number,
            None => {
                return Err(Error::invalid("Payee has no account number"));
            },
        };
        Ok(
            DestAccount {
                holder_id: holder,
                liability: Liability {
                    mch_id: String::from_str("mch_2"),
                    account_number: decimal(number),
                },
            },
        )
    }
}

impl SourceAccount {
    /// Builds the source account of a payor.
    pub fn from_payor(payor: &Payor) -> (r: Result<SourceAccount, Error>)
        ensures
            source_account_result(r) == source_account_of(*payor),
    {
        let routing: u64 = match payor.aba_routing {
            Some(routing) => routing,
            None => {
                return Err(Error::invalid("Payor has no routing number"));
            },
        };
        let number: u64 = match payor.account_number {
            Some(number) => number,
            None => {
                return Err(Error::invalid("Payor has no account number"));
            },
        };
        Ok(
            SourceAccount {
                holder_id: String::from_str(""),
                ach: ACH {
                    routing: decimal(routing),
                    number: decimal(number),
                    ach_type: String::from_str("checking"),
                },
            },
        )
    }
}

} // verus!
