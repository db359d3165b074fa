use crate::text::opt_text;
use vstd::prelude::*;

verus! {

/// The entity that funds a transaction. `dunkin_id` is the natural key;
/// `method_id` is the canonical id that the payment processor assigned.
#[derive(Debug, PartialEq, Eq)]
pub struct Payor {
    pub dunkin_id: Option<String>,
    pub method_id: Option<String>,
    pub aba_routing: Option<u64>,
    pub account_number: Option<u64>,
    pub payor_name: Option<String>,
    pub dba: Option<String>,
    pub ein: Option<String>,
    pub address_id: Option<u64>,
}

/// `Payor` as contracts see it: each text as the characters that it holds.
pub struct PayorView {
    pub dunkin_id: Option<Seq<char>>,
    pub method_id: Option<Seq<char>>,
    pub aba_routing: Option<u64>,
    pub account_number: Option<u64>,
    pub payor_name: Option<Seq<char>>,
    pub dba: Option<Seq<char>>,
    pub ein: Option<Seq<char>>,
    pub address_id: Option<u64>,
}

impl View for Payor {
    type V = PayorView;

    open spec fn view(&self) -> PayorView {
        PayorView {
            dunkin_id: opt_text(self.dunkin_id),
            method_id: opt_text(self.method_id),
            aba_routing: self.aba_routing,
            account_number: self.account_number,
            payor_name: opt_text(self.payor_name),
            dba: opt_text(self.dba),
            ein: opt_text(self.ein),
            address_id: self.address_id,
        }
    }
}

impl Clone for Payor {
    fn clone(&self) -> (r: Self)
        ensures
            r == *self,
    {
        Payor {
            dunkin_id: self.dunkin_id.clone(),
            method_id: self.method_id.clone(),
            aba_routing: self.aba_routing,
            account_number: self.account_number,
            payor_name: self.payor_name.clone(),
            dba: self.dba.clone(),
            ein: self.ein.clone(),
            address_id: self.address_id,
        }
    }
}

impl Payor {
    /// The element that opens a payor in a document.
    pub const XML_IDENTIFIER: &'static str = "Payor";

    /// The record with no field set.
    pub open spec fn empty() -> Payor {
        Payor {
            dunkin_id: None,
            method_id: None,
            aba_routing: None,
            account_number: None,
            payor_name: None,
            dba: None,
            ein: None,
            address_id: None,
        }
    }

    /// A record with no field set.
    pub fn new() -> (r: Self)
        ensures
            r == Self::empty(),
    {
        Payor {
            dunkin_id: None,
            method_id: None,
            aba_routing: None,
            account_number: None,
            payor_name: None,
            dba: None,
            ein: None,
            address_id: None,
        }
    }
}

} // verus!
