use crate::text::opt_text;
use vstd::prelude::*;

verus! {

/// A mailing address tied to a payor. Two addresses with the same four
/// fields are one row of the store.
#[derive(Debug, PartialEq, Eq)]
pub struct Address {
    pub id: Option<u64>,
    pub line1: Option<String>,
    pub city: Option<String>,
    pub state: Option<String>,
    pub zip: Option<u64>,
}

/// `Address` as contracts see it: each text as the characters that it holds.
pub struct AddressView {
    pub id: Option<u64>,
    pub line1: Option<Seq<char>>,
    pub city: Option<Seq<char>>,
    pub state: Option<Seq<char>>,
    pub zip: Option<u64>,
}

impl View for Address {
    type V = AddressView;

    open spec fn view(&self) -> AddressView {
        AddressView {
            id: self.id,
            line1: opt_text(self.line1),
            city: opt_text(self.city),
            state: opt_text(self.state),
            zip: self.zip,
        }
    }
}

impl Clone for Address {
    fn clone(&self) -> (r: Self)
        ensures
            r == *self,
    {
        Address {
            id: self.id,
            line1: self.line1.clone(),
            city: self.city.clone(),
            state: self.state.clone(),
            zip: self.zip,
        }
    }
}

impl Address {
    /// The element that opens an address in a document.
    pub const XML_IDENTIFIER: &'static str = "Address";

    /// The record with no field set.
    pub open spec fn empty() -> Address {
        Address {
            id: None,
            line1: None,
            city: None,
            state: None,
            zip: None,
        }
    }

    /// A record with no field set.
    pub fn new() -> (r: Self)
        ensures
            r == Self::empty(),
    {
        Address {
            id: None,
            line1: None,
            city: None,
            state: None,
            zip: None,
        }
    }
}

} // verus!
