use crate::text::opt_text;
use vstd::prelude::*;

verus! {

/// A pay recipient as the employer knows it. `dunkin_id` is the natural key;
/// `method_id` is the canonical id that the payment processor assigned.
#[derive(Debug, PartialEq, Eq)]
pub struct Employee {
    pub dunkin_id: Option<String>,
    pub method_id: Option<String>,
    pub dunkin_branch: Option<String>,
    pub first_name: Option<String>,
    pub last_name: Option<String>,
    pub dob: Option<String>,
    pub phone_number: Option<String>,
}

/// `Employee` as contracts see it: each text as the characters that it holds.
pub struct EmployeeView {
    pub dunkin_id: Option<Seq<char>>,
    pub method_id: Option<Seq<char>>,
    pub dunkin_branch: Option<Seq<char>>,
    pub first_name: Option<Seq<char>>,
    pub last_name: Option<Seq<char>>,
    pub dob: Option<Seq<char>>,
    pub phone_number: Option<Seq<char>>,
}

impl View for Employee {
    type V = EmployeeView;

    open spec fn view(&self) -> EmployeeView {
        EmployeeView {
            dunkin_id: opt_text(self.dunkin_id),
            method_id: opt_text(self.method_id),
            dunkin_branch: opt_text(self.dunkin_branch),
            first_name: opt_text(self.first_name),
            last_name: opt_text(self.last_name),
            dob: opt_text(self.dob),
            phone_number: opt_text(self.phone_number),
        }
    }
}

impl Clone for Employee {
    fn clone(&self) -> (r: Self)
        ensures
            r == *self,
    {
        Employee {
            dunkin_id: self.dunkin_id.clone(),
            method_id: self.method_id.clone(),
            dunkin_branch: self.dunkin_branch.clone(),
            first_name: self.first_name.clone(),
            last_name: self.last_name.clone(),
            dob: self.dob.clone(),
            phone_number: self.phone_number.clone(),
        }
    }
}

impl Employee {
    /// The element that opens an employee in a document.
    pub const XML_IDENTIFIER: &'static str = "Employee";

    /// The record with no field set.
    pub open spec fn empty() -> Employee {
        Employee {
            dunkin_id: None,
            method_id: None,
            dunkin_branch: None,
            first_name: None,
            last_name: None,
            dob: None,
            phone_number: None,
        }
    }

    /// A record with no field set.
    pub fn new() -> (r: Self)
        ensures
            r == Self::empty(),
    {
        Employee {
            dunkin_id: None,
            method_id: None,
            dunkin_branch: None,
            first_name: None,
            last_name: None,
            dob: None,
            phone_number: None,
        }
    }
}

} // verus!
