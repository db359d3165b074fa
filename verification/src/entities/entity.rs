use crate::entities::{Error, ErrorView};
use crate::schema::employee::Employee;
use vstd::prelude::*;
use vstd::string::StringExecFns;

verus! {

/// The registration of a person with the payment processor.
#[derive(Debug, PartialEq, Eq)]
pub struct Entity {
    pub entity_type: String,
    pub individual: Individual,
    pub address: Address,
}

/// The person that a registration is about.
#[derive(Debug, PartialEq, Eq)]
pub struct Individual {
    pub first_name: String,
    pub last_name: String,
    pub dob: String,
    pub email: String,
    pub phone: String,
}

/// The address that a registration gives.
#[derive(Debug, PartialEq, Eq)]
pub struct Address {
    pub line1: String,
    pub line2: String,
    pub city: String,
    pub state: String,
    pub zip: String,
}

/// `Entity` as contracts see it: each text as the characters that it holds.
pub struct EntityView {
    pub entity_type: Seq<char>,
    pub individual: IndividualView,
    pub address: AddressView,
}

/// `Individual` as contracts see it: each text as the characters that it
/// holds.
pub struct IndividualView {
    pub first_name: Seq<char>,
    pub last_name: Seq<char>,
    pub dob: Seq<char>,
    pub email: Seq<char>,
    pub phone: Seq<char>,
}

/// `Address` as contracts see it: each text as the characters that it holds.
pub struct AddressView {
    pub line1: Seq<char>,
    pub line2: Seq<char>,
    pub city: Seq<char>,
    pub state: Seq<char>,
    pub zip: Seq<char>,
}

impl View for Individual {
    type V = IndividualView;

    open spec fn view(&self) -> IndividualView {
        IndividualView {
            first_name: self.first_name@,
            last_name: self.last_name@,
            dob: self.dob@,
            email: self.email@,
            phone: self.phone@,
        }
    }
}

impl View for Address {
    type V = AddressView;

    open spec fn view(&self) -> AddressView {
        AddressView {
            line1: self.line1@,
            line2: self.line2@,
            city: self.city@,
            state: self.state@,
            zip: self.zip@,
        }
    }
}

impl View for Entity {
    type V = EntityView;

    open spec fn view(&self) -> EntityView {
        EntityView {
            entity_type: self.entity_type@,
            individual: self.individual@,
            address: self.address@,
        }
    }
}

impl Clone for Individual {
    fn clone(&self) -> (r: Self)
        ensures
            r == *self,
    {
        Individual {
            first_name: self.first_name.clone(),
            last_name: self.last_name.clone(),
            dob: self.dob.clone(),
            email: self.email.clone(),
            phone: self.phone.clone(),
        }
    }
}

impl Clone for Address {
    fn clone(&self) -> (r: Self)
        ensures
            r == *self,
    {
        Address {
            line1: self.line1.clone(),
            line2: self.line2.clone(),
            city: self.city.clone(),
            state: self.state.clone(),
            zip: self.zip.clone(),
        }
    }
}

impl Clone for Entity {
    fn clone(&self) -> (r: Self)
        ensures
            r == *self,
    {
        Entity {
            entity_type: self.entity_type.clone(),
            individual: self.individual.clone(),
            address: self.address.clone(),
        }
    }
}

/// The registration that stands for an employee with the given names. Date
/// of birth, phone and address are the employer's, the same for everyone.
pub open spec fn entity_for(first: Seq<char>, last: Seq<char>) -> EntityView {
    EntityView {
        entity_type: "individual"@,
        individual: IndividualView {
            first_name: first,
            last_name: last,
            dob: "1997-03-18"@,
            email: first + "."@ + last + "@dunkins.com"@,
            phone: "+15121231111"@,
        },
        address: AddressView {
            line1: "3300 N Interstate 35"@,
            line2: ""@,
            city: "Austin"@,
            state: "TX"@,
            zip: "78705"@,
        },
    }
}

/// What building the registration of an employee yields: the registration
/// where both names are there, else a data error that says which is missing.
pub open spec fn entity_of(employee: Employee) -> Result<EntityView, ErrorView> {
    match (employee.first_name, employee.last_name) {
        (None, _) => Err(ErrorView::InvalidDataError("Employee has no first name"@)),
        (Some(_), None) => Err(ErrorView::InvalidDataError("Employee has no last name"@)),
        (Some(first), Some(last)) => Ok(entity_for(first@, last@)),
    }
}

/// `Ok` with the payload's view, `Err` with the error's view.
pub open spec fn entity_result(r: Result<Entity, Error>) -> Result<EntityView, ErrorView> {
    match r {
        Ok(entity) => Ok(entity@),
        Err(e) => Err(e@),
    }
}

impl Entity {
    /// Builds the registration of an employee.
    pub fn from_employee(employee: &Employee) -> (r: Result<Entity, Error>)
        ensures
            entity_result(r) == entity_of(*employee),
    {
        let first = match &employee.first_name {
            Some(name) => name.clone(),
            None => {
                return Err(Error::invalid("Employee has no first name"));
            },
        };
        let last = match &employee.last_name {
            Some(name) => name.clone(),
            None => {
                return Err(Error::invalid("Employee has no last name"));
            },
        };
        let mut email = first.clone();
        email.append(".");
        email.append(last.as_str());
        email.append("@dunkins.com");
        Ok(
            Entity {
                entity_type: String::from_str("individual"),
                individual: Individual {
                    first_name: first,
                    last_name: last,
                    dob: String::from_str("1997-03-18"),
                    email,
                    phone: String::from_str("+15121231111"),
                },
                address: Address {
                    line1: String::from_str("3300 N Interstate 35"),
                    line2: String::from_str(""),
                    city: String::from_str("Austin"),
                    state: String::from_str("TX"),
                    zip: String::from_str("78705"),
                },
            },
        )
    }
}

} // verus!
