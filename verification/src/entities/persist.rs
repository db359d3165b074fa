//! Deciding how a record is resolved, from the rows that the local store
//! holds under the record's natural key.
//!
//! No row: the record is new. A new employee or payee is registered with
//! the payment processor and then written; a new address is only written;
//! a new payor is refused, because the payors are a closed list. One row or
//! more: the record is known, and the first row's id is taken over. The
//! store is not asked to hold a natural key once only, so more than one row
//! may come back; nothing is registered or written then either.

use crate::entities::account::{dest_account_of, DestAccount, DestAccountView};
use crate::entities::entity::{entity_of, Entity, EntityView};
use crate::entities::{Error, ErrorView};
use crate::schema::address::Address;
use crate::schema::employee::Employee;
use crate::schema::payee::Payee;
use crate::schema::payor::Payor;
use crate::schema::{clause_texts, sql_number, sql_text, Clause, SqlString};
use crate::text::opt_text;
use vstd::prelude::*;
use vstd::string::StringExecFns;

verus! {

/// How a record with a canonical id is resolved.
#[derive(Debug, PartialEq, Eq)]
pub enum Resolution<P> {
    /// The record is known under this canonical id.
    Reuse(String),
    /// The record is new and is registered with this payload.
    Register(P),
}

/// `Resolution`, with the payload as its view.
pub enum Decision<V> {
    Reuse(String),
    Register(V),
}

/// How an address is resolved.
#[derive(Clone, Copy, Debug, PartialEq, Eq, Structural)]
pub enum AddressResolution {
    /// The address is known; its row's id is this.
    Known(Option<u64>),
    /// The address is new and is written.
    Insert,
}

/// The equalities by which an employee is looked up: its natural id.
pub open spec fn employee_key(e: Employee) -> Seq<(Seq<char>, Seq<char>)> {
    seq![("DunkinId"@, sql_text(opt_text(e.dunkin_id)))]
}

/// The equalities by which a payor is looked up: its natural id.
pub open spec fn payor_key(p: Payor) -> Seq<(Seq<char>, Seq<char>)> {
    seq![("DunkinId"@, sql_text(opt_text(p.dunkin_id)))]
}

/// The equalities by which a payee is looked up: its natural id.
pub open spec fn payee_key(p: Payee) -> Seq<(Seq<char>, Seq<char>)> {
    seq![("PlaidId"@, sql_text(opt_text(p.plaid_id)))]
}

/// The equalities by which an address is looked up: all four fields.
pub open spec fn address_key(a: Address) -> Seq<(Seq<char>, Seq<char>)> {
    seq![
        ("Line1"@, sql_text(opt_text(a.line1))),
        ("City"@, sql_text(opt_text(a.city))),
        ("StateName"@, sql_text(opt_text(a.state))),
        ("Zip"@, sql_number(a.zip)),
    ]
}

/// What is said of a payor that the store does not know.
pub open spec fn unknown_payor_text(p: Payor) -> Seq<char> {
    "Payor "@ + sql_text(opt_text(p.dunkin_id)) + " is not one of the known payors"@
}

/// How an employee is resolved from the rows found under its natural id.
/// An employee without a natural id is refused, whatever the rows.
pub open spec fn employee_resolution(e: Employee, rows: Seq<Employee>) -> Result<
    Decision<EntityView>,
    ErrorView,
> {
    if e.dunkin_id is None {
        Err(ErrorView::InvalidDataError("Employee has no natural id"@))
    } else if rows.len() == 0 {
        match entity_of(e) {
            Ok(entity) => Ok(Decision::Register(entity)),
            Err(error) => Err(error),
        }
    } else {
        match rows[0].method_id {
            Some(id) => Ok(Decision::Reuse(id)),
            None => Err(ErrorView::InvalidDataError("Employee row has no canonical id"@)),
        }
    }
}

/// How a payor is resolved from the rows found under its natural id: its
/// canonical id. A payor without a natural id is refused, whatever the
/// rows; a payor without a row is refused, by name.
pub open spec fn payor_resolution(p: Payor, rows: Seq<Payor>) -> Result<String, ErrorView> {
    if p.dunkin_id is None {
        Err(ErrorView::InvalidDataError("Payor has no natural id"@))
    } else if rows.len() == 0 {
        Err(ErrorView::InvalidDataError(unknown_payor_text(p)))
    } else {
        match rows[0].method_id {
            Some(id) => Ok(id),
            None => Err(ErrorView::InvalidDataError("Payor row has no canonical id"@)),
        }
    }
}

/// How a payee is resolved from the rows found under its natural id. A new
/// payee's account is held by `holder`, the canonical id of the employee.
/// A payee without a natural id is refused, whatever the rows.
pub open spec fn payee_resolution(p: Payee, rows: Seq<Payee>, holder: Seq<char>) -> Result<
    Decision<DestAccountView>,
    ErrorView,
> {
    if p.plaid_id is None {
        Err(ErrorView::InvalidDataError("Payee has no natural id"@))
    } else if rows.len() == 0 {
        match dest_account_of(p) {
            Ok(account) => Ok(Decision::Register(DestAccountView { holder_id: holder, ..account })),
            Err(error) => Err(error),
        }
    } else {
        match rows[0].method_id {
            Some(id) => Ok(Decision::Reuse(id)),
            None => Err(ErrorView::InvalidDataError("Payee row has no canonical id"@)),
        }
    }
}

/// How an address is resolved from the rows that hold its four fields.
pub open spec fn address_resolution(rows: Seq<Address>) -> AddressResolution {
    if rows.len() == 0 {
        AddressResolution::Insert
    } else {
        AddressResolution::Known(rows[0].id)
    }
}

/// Whether a decision on an employee is the one that the rules give.
pub open spec fn is_employee_resolution(
    r: Result<Resolution<Entity>, Error>,
    want: Result<Decision<EntityView>, ErrorView>,
) -> bool {
    match (r, want) {
        (Ok(Resolution::Reuse(id)), Ok(Decision::Reuse(known))) => id == known,
        (Ok(Resolution::Register(entity)), Ok(Decision::Register(payload))) => entity@ == payload,
        (Err(error), Err(cause)) => error@ == cause,
        _ => false,
    }
}

/// Whether a decision on a payee is the one that the rules give.
pub open spec fn is_payee_resolution(
    r: Result<Resolution<DestAccount>, Error>,
    want: Result<Decision<DestAccountView>, ErrorView>,
) -> bool {
    match (r, want) {
        (Ok(Resolution::Reuse(id)), Ok(Decision::Reuse(known))) => id == known,
        (Ok(Resolution::Register(account)), Ok(Decision::Register(payload))) => account@
            == payload,
        (Err(error), Err(cause)) => error@ == cause,
        _ => false,
    }
}

/// Whether a decision on a payor is the one that the rules give.
pub open spec fn is_payor_resolution(r: Result<String, Error>, want: Result<String, ErrorView>) -> bool {
    match (r, want) {
        (Ok(id), Ok(known)) => id == known,
        (Err(error), Err(cause)) => error@ == cause,
        _ => false,
    }
}

/// Resolving a record against the local store: by which equalities it is
/// looked up, and what is decided from the rows that were found.
pub trait Persist: Sized {
    /// What the decision needs besides the rows.
    type Dependencies;

    /// What is decided.
    type Outcome;

    /// The equalities by which the record is looked up.
    spec fn key(&self) -> Seq<(Seq<char>, Seq<char>)>;

    /// Whether a decision is the one that the rules give for the record,
    /// the rows found and what else the decision needs.
    spec fn decided(
        &self,
        rows: Seq<Self>,
        dependency: Self::Dependencies,
        decision: Result<Self::Outcome, Error>,
    ) -> bool;

    /// The equalities by which the record is looked up.
    fn lookup(&self) -> (r: Vec<Clause>)
        ensures
            clause_texts(r@) == self.key(),
    ;

    /// Decides how the record is resolved.
    fn persist(&self, rows: &Vec<Self>, dependency: Self::Dependencies) -> (r: Result<
        Self::Outcome,
        Error,
    >)
        ensures
            self.decided(rows@, dependency, r),
    ;
}

impl Persist for Employee {
    type Dependencies = ();

    type Outcome = Resolution<Entity>;

    open spec fn key(&self) -> Seq<(Seq<char>, Seq<char>)> {
        employee_key(*self)
    }

    open spec fn decided(
        &self,
        rows: Seq<Employee>,
        dependency: (),
        decision: Result<Resolution<Entity>, Error>,
    ) -> bool {
        is_employee_resolution(decision, employee_resolution(*self, rows))
    }

    fn lookup(&self) -> (r: Vec<Clause>) {
        let r = vec![
            Clause { field: "DunkinId", value: SqlString::from_opt_string(&self.dunkin_id) },
        ];
        assert(clause_texts(r@) =~= employee_key(*self));
        r
    }

    fn persist(&self, rows: &Vec<Employee>, dependency: ()) -> (r: Result<
        Resolution<Entity>,
        Error,
    >) {
        if self.dunkin_id.is_none() {
            Err(Error::invalid("Employee has no natural id"))
        } else if rows.len() == 0 {
            match Entity::from_employee(self) {
                Ok(entity) => Ok(Resolution::Register(entity)),
                Err(error) => Err(error),
            }
        } else {
            match &rows[0].method_id {
                Some(id) => Ok(Resolution::Reuse(id.clone())),
                None => Err(Error::invalid("Employee row has no canonical id")),
            }
        }
    }
}

impl Persist for Payor {
    type Dependencies = ();

    type Outcome = String;

    open spec fn key(&self) -> Seq<(Seq<char>, Seq<char>)> {
        payor_key(*self)
    }

    open spec fn decided(
        &self,
        rows: Seq<Payor>,
        dependency: (),
        decision: Result<String, Error>,
    ) -> bool {
        is_payor_resolution(decision, payor_resolution(*self, rows))
    }

    fn lookup(&self) -> (r: Vec<Clause>) {
        let r = vec![
            Clause { field: "DunkinId", value: SqlString::from_opt_string(&self.dunkin_id) },
        ];
        assert(clause_texts(r@) =~= payor_key(*self));
        r
    }

    fn persist(&self, rows: &Vec<Payor>, dependency: ()) -> (r: Result<String, Error>) {
        if self.dunkin_id.is_none() {
            Err(Error::invalid("Payor has no natural id"))
        } else if rows.len() == 0 {
            let mut cause = String::from_str("Payor ");
            let id = SqlString::from_opt_string(&self.dunkin_id);
            cause.append(id.as_str());
            cause.append(" is not one of the known payors");
            Err(Error::InvalidDataError(cause))
        } else {
            match &rows[0].method_id {
                Some(id) => Ok(id.clone()),
                None => Err(Error::invalid("Payor row has no canonical id")),
            }
        }
    }
}

impl Persist for Payee {
    /// The canonical id of the employee, under which a new payee's account
    /// is registered.
    type Dependencies = String;

    type Outcome = Resolution<DestAccount>;

    open spec fn key(&self) -> Seq<(Seq<char>, Seq<char>)> {
        payee_key(*self)
    }

    open spec fn decided(
        &self,
        rows: Seq<Payee>,
        dependency: String,
        decision: Result<Resolution<DestAccount>, Error>,
    ) -> bool {
        is_payee_resolution(decision, payee_resolution(*self, rows, dependency@))
    }

    fn lookup(&self) -> (r: Vec<Clause>) {
        let r = vec![
            Clause { field: "PlaidId", value: SqlString::from_opt_string(&self.plaid_id) },
        ];
        assert(clause_texts(r@) =~= payee_key(*self));
        r
    }

    fn persist(&self, rows: &Vec<Payee>, dependency: String) -> (r: Result<
        Resolution<DestAccount>,
        Error,
    >) {
        if self.plaid_id.is_none() {
            Err(Error::invalid("Payee has no natural id"))
        } else if rows.len() == 0 {
            match DestAccount::from_payee(self) {
                Ok(account) => {
                    let mut account = account;
                    account.holder_id = dependency;
                    Ok(Resolution::Register(account))
                },
                Err(error) => Err(error),
            }
        } else {
            match &rows[0].method_id {
                Some(id) => Ok(Resolution::Reuse(id.clone())),
                None => Err(Error::invalid("Payee row has no canonical id")),
            }
        }
    }
}

impl Persist for Address {
    type Dependencies = ();

    type Outcome = AddressResolution;

    open spec fn key(&self) -> Seq<(Seq<char>, Seq<char>)> {
        address_key(*self)
    }

    open spec fn decided(
        &self,
        rows: Seq<Address>,
        dependency: (),
        decision: Result<AddressResolution, Error>,
    ) -> bool {
        decision == Ok::<AddressResolution, Error>(address_resolution(rows))
    }

    fn lookup(&self) -> (r: Vec<Clause>) {
        let r = vec![
            Clause { field: "Line1", value: SqlString::from_opt_string(&self.line1) },
            Clause { field: "City", value: SqlString::from_opt_string(&self.city) },
            Clause { field: "StateName", value: SqlString::from_opt_string(&self.state) },
            Clause { field: "Zip", value: SqlString::from_opt_u64(self.zip) },
        ];
        assert(clause_texts(r@) =~= address_key(*self));
        r
    }

    fn persist(&self, rows: &Vec<Address>, dependency: ()) -> (r: Result<
        AddressResolution,
        Error,
    >) {
        if rows.len() == 0 {
            Ok(AddressResolution::Insert)
        } else {
            Ok(AddressResolution::Known(rows[0].id))
        }
    }
}

} // verus!
