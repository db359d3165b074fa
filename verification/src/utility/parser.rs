//! Reading a document into transaction blocks.
//!
//! A document is a flat run of events. A transaction block opens with a
//! `row` element; inside it an `Employee`, a `Payor` (which may hold an
//! `Address`) and a `Payee` element each open a record, and the text of the
//! other elements fills the fields of whichever record is open, chosen by
//! the lowercased name of the element last opened.

use crate::schema::address::Address;
use crate::schema::employee::Employee;
use crate::schema::payee::Payee;
use crate::schema::payor::Payor;
use crate::text::{
    amount_cents, lowercase, lowercase_text, parse_amount, parse_u64, same_text, u64_value,
};
use vstd::prelude::*;

verus! {

/// One event of a document, reduced to what the reading depends on.
#[derive(Debug, PartialEq, Eq)]
pub enum DocEvent {
    /// An element opens; the text is its local name.
    StartElement(String),
    /// An element closes; the text is its local name.
    EndElement(String),
    /// Text between tags that is not only whitespace.
    Characters(String),
    /// Text between tags that is only whitespace.
    Whitespace,
    /// Anything else that a well-formed document may hold.
    Other,
    /// The document is over.
    EndDocument,
    /// The document could not be read further.
    Error,
}

impl Clone for DocEvent {
    fn clone(&self) -> (r: Self)
        ensures
            r == *self,
    {
        match self {
            DocEvent::StartElement(name) => DocEvent::StartElement(name.clone()),
            DocEvent::EndElement(name) => DocEvent::EndElement(name.clone()),
            DocEvent::Characters(text) => DocEvent::Characters(text.clone()),
            DocEvent::Whitespace => DocEvent::Whitespace,
            DocEvent::Other => DocEvent::Other,
            DocEvent::EndDocument => DocEvent::EndDocument,
            DocEvent::Error => DocEvent::Error,
        }
    }
}

/// The events that `xml::reader::EventReader`, with its default settings,
/// yields for a document, each reduced to a `DocEvent`, up to and including
/// the first end of document or error.
pub uninterp spec fn document_events(bytes: Seq<u8>) -> Seq<DocEvent>;

/// `xml::reader::EventReader::new` on the bytes, iterated to its end: the
/// iterator yields each event once and stops after the end of the document
/// or the first error. Elements keep their local name, text its content;
/// every other event (the declaration, a processing instruction, CDATA)
/// becomes `Other`. The result is a function of the bytes alone; the
/// contract gives it the name `document_events`.
#[verifier::external_body]
pub(crate) fn read_events(bytes: &[u8]) -> (events: Vec<DocEvent>)
    ensures
        events@ == document_events(bytes@),
{
    xml::reader::EventReader::new(bytes).into_iter().map(|event| match event {
        Ok(xml::reader::XmlEvent::StartElement { name, .. }) => DocEvent::StartElement(name.local_name),
        Ok(xml::reader::XmlEvent::EndElement { name }) => DocEvent::EndElement(name.local_name),
        Ok(xml::reader::XmlEvent::Characters(text)) => DocEvent::Characters(text),
        Ok(xml::reader::XmlEvent::Whitespace(_)) => DocEvent::Whitespace,
        Ok(xml::reader::XmlEvent::EndDocument) => DocEvent::EndDocument,
        Ok(_) => DocEvent::Other,
        Err(_) => DocEvent::Error,
    }).collect()
}

/// The events of a document.
pub fn tokenize(bytes: &[u8]) -> (events: Vec<DocEvent>)
    ensures
        events@ == document_events(bytes@),
{
    read_events(bytes)
}

/// Why a transaction block came to nothing, in the two kinds that a reader
/// of the log tells apart: the document did not hold what a block must
/// hold, or resolving the block failed.
#[derive(Clone, Copy, Debug, PartialEq, Eq, Structural)]
pub enum ParseError {
    UnexpectedElement,
    IOError,
}

impl ParseError {
    /// The line that describes the failure.
    pub open spec fn text(self) -> Seq<char> {
        match self {
            ParseError::UnexpectedElement => "Unexpected element error"@,
            ParseError::IOError => "IO error"@,
        }
    }

    /// Describes the failure in one line.
    pub fn message(&self) -> (r: &'static str)
        ensures
            r@ == self.text(),
    {
        match self {
            ParseError::UnexpectedElement => "Unexpected element error",
            ParseError::IOError => "IO error",
        }
    }

    /// The kind under which a block that cannot be taken up is logged.
    pub fn from_malformed(malformed: Malformed) -> (r: ParseError)
        ensures
            r == ParseError::UnexpectedElement,
    {
        ParseError::UnexpectedElement
    }
}

impl From<crate::entities::Error> for ParseError {
    fn from(value: crate::entities::Error) -> (r: ParseError) {
        ParseError::IOError
    }
}

impl vstd::std_specs::convert::FromSpecImpl<crate::entities::Error> for ParseError {
    open spec fn obeys_from_spec() -> bool {
        true
    }

    open spec fn from_spec(value: crate::entities::Error) -> ParseError {
        ParseError::IOError
    }
}

/// Why a transaction block cannot be taken up.
#[derive(Clone, Copy, Debug, PartialEq, Eq, Structural)]
pub enum Malformed {
    MissingEmployee,
    MissingPayor,
    MissingPayee,
    MissingAmount,
    /// A field that holds a number could not be read as one.
    BadNumber,
}

/// How the reading of a transaction block ended.
#[derive(Clone, Copy, Debug, PartialEq, Eq, Structural)]
pub enum RowEnd {
    /// The block closed, or an event that cannot stand in a block ended it.
    Closed,
    /// A field that holds a number could not be read as one.
    Unreadable,
    /// The document could not be read further.
    Aborted,
}

/// What a transaction block has yielded so far.
#[derive(Debug, PartialEq, Eq)]
pub struct Draft {
    pub employee: Option<Employee>,
    pub payor: Option<Payor>,
    pub address: Option<Address>,
    pub payee: Option<Payee>,
    pub amount: Option<u64>,
}

/// A transaction block with everything that resolving it needs: the three
/// records, the payor's address where the document gave one, and the amount
/// in minor units.
#[derive(Debug, PartialEq, Eq)]
pub struct Block {
    pub employee: Employee,
    pub payor: Payor,
    pub address: Option<Address>,
    pub payee: Payee,
    pub amount: u64,
}

impl Clone for Block {
    fn clone(&self) -> (r: Self)
        ensures
            r == *self,
    {
        Block {
            employee: self.employee.clone(),
            payor: self.payor.clone(),
            address: match &self.address {
                Some(a) => Some(a.clone()),
                None => None,
            },
            payee: self.payee.clone(),
            amount: self.amount,
        }
    }
}

impl Draft {
    /// The draft that has yielded nothing yet.
    pub open spec fn empty() -> Draft {
        Draft { employee: None, payor: None, address: None, payee: None, amount: None }
    }

    /// A draft that has yielded nothing yet.
    pub fn new() -> (r: Draft)
        ensures
            r == Draft::empty(),
    {
        Draft { employee: None, payor: None, address: None, payee: None, amount: None }
    }
}

/// The employee after a text was read under the given lowercased tag.
pub open spec fn employee_with(e: Employee, tag: Seq<char>, text: String) -> Employee {
    if tag == "dunkinid"@ {
        Employee { dunkin_id: Some(text), ..e }
    } else if tag == "dunkinbranch"@ {
        Employee { dunkin_branch: Some(text), ..e }
    } else if tag == "firstname"@ {
        Employee { first_name: Some(text), ..e }
    } else if tag == "lastname"@ {
        Employee { last_name: Some(text), ..e }
    } else if tag == "dob"@ {
        Employee { dob: Some(text), ..e }
    } else if tag == "phonenumber"@ {
        Employee { phone_number: Some(text), ..e }
    } else {
        e
    }
}

/// The payee after a text was read under the given lowercased tag; `None`
/// where the tag asks for a number and the text is none.
pub open spec fn payee_with(p: Payee, tag: Seq<char>, text: String) -> Option<Payee> {
    if tag == "plaidid"@ {
        Some(Payee { plaid_id: Some(text), ..p })
    } else if tag == "loanaccountnumber"@ {
        match u64_value(text@) {
            Some(n) => Some(Payee { loan_account_number: Some(n), ..p }),
            None => None,
        }
    } else {
        Some(p)
    }
}

/// The address after a text was read under the given lowercased tag; `None`
/// where the tag asks for a number and the text is none.
pub open spec fn address_with(a: Address, tag: Seq<char>, text: String) -> Option<Address> {
    if tag == "line1"@ {
        Some(Address { line1: Some(text), ..a })
    } else if tag == "city"@ {
        Some(Address { city: Some(text), ..a })
    } else if tag == "state"@ {
        Some(Address { state: Some(text), ..a })
    } else if tag == "zip"@ {
        match u64_value(text@) {
            Some(n) => Some(Address { zip: Some(n), ..a }),
            None => None,
        }
    } else {
        Some(a)
    }
}

/// The payor after a text was read under the given lowercased tag; `None`
/// where the tag asks for a number and the text is none.
pub open spec fn payor_with(p: Payor, tag: Seq<char>, text: String) -> Option<Payor> {
    if tag == "dunkinid"@ {
        Some(Payor { dunkin_id: Some(text), ..p })
    } else if tag == "name"@ {
        Some(Payor { payor_name: Some(text), ..p })
    } else if tag == "dba"@ {
        Some(Payor { dba: Some(text), ..p })
    } else if tag == "ein"@ {
        Some(Payor { ein: Some(text), ..p })
    } else if tag == "accountnumber"@ {
        match u64_value(text@) {
            Some(n) => Some(Payor { account_number: Some(n), ..p }),
            None => None,
        }
    } else if tag == "abarouting"@ {
        match u64_value(text@) {
            Some(n) => Some(Payor { aba_routing: Some(n), ..p }),
            None => None,
        }
    } else {
        Some(p)
    }
}

/// Reads a text into the employee, under the given lowercased tag.
pub fn set_employee_field(e: &mut Employee, tag: &str, text: &String)
    ensures
        *final(e) == employee_with(*old(e), tag@, *text),
{
    if same_text(tag, "dunkinid") {
        e.dunkin_id = Some(text.clone());
    } else if same_text(tag, "dunkinbranch") {
        e.dunkin_branch = Some(text.clone());
    } else if same_text(tag, "firstname") {
        e.first_name = Some(text.clone());
    } else if same_text(tag, "lastname") {
        e.last_name = Some(text.clone());
    } else if same_text(tag, "dob") {
        e.dob = Some(text.clone());
    } else if same_text(tag, "phonenumber") {
        e.phone_number = Some(text.clone());
    }
}

/// Reads a text into the payee, under the given lowercased tag. Says
/// whether the text could be read; the payee is left as it was where not.
pub fn set_payee_field(p: &mut Payee, tag: &str, text: &String) -> (ok: bool)
    ensures
        ok == (payee_with(*old(p), tag@, *text) is Some),
        ok ==> Some(*final(p)) == payee_with(*old(p), tag@, *text),
        !ok ==> *final(p) == *old(p),
{
    if same_text(tag, "plaidid") {
        p.plaid_id = Some(text.clone());
    } else if same_text(tag, "loanaccountnumber") {
        match parse_u64(text.as_str()) {
            Some(n) => {
                p.loan_account_number = Some(n);
            },
            None => {
                return false;
            },
        }
    }
    true
}

/// Reads a text into the address, under the given lowercased tag. Says
/// whether the text could be read; the address is left as it was where not.
pub fn set_address_field(a: &mut Address, tag: &str, text: &String) -> (ok: bool)
    ensures
        ok == (address_with(*old(a), tag@, *text) is Some),
        ok ==> Some(*final(a)) == address_with(*old(a), tag@, *text),
        !ok ==> *final(a) == *old(a),
{
    if same_text(tag, "line1") {
        a.line1 = Some(text.clone());
    } else if same_text(tag, "city") {
        a.city = Some(text.clone());
    } else if same_text(tag, "state") {
        a.state = Some(text.clone());
    } else if same_text(tag, "zip") {
        match parse_u64(text.as_str()) {
            Some(n) => {
                a.zip = Some(n);
            },
            None => {
                return false;
            },
        }
    }
    true
}

/// Reads a text into the payor, under the given lowercased tag. Says
/// whether the text could be read; the payor is left as it was where not.
pub fn set_payor_field(p: &mut Payor, tag: &str, text: &String) -> (ok: bool)
    ensures
        ok == (payor_with(*old(p), tag@, *text) is Some),
        ok ==> Some(*final(p)) == payor_with(*old(p), tag@, *text),
        !ok ==> *final(p) == *old(p),
{
    if same_text(tag, "dunkinid") {
        p.dunkin_id = Some(text.clone());
    } else if same_text(tag, "name") {
        p.payor_name = Some(text.clone());
    } else if same_text(tag, "dba") {
        p.dba = Some(text.clone());
    } else if same_text(tag, "ein") {
        p.ein = Some(text.clone());
    } else if same_text(tag, "accountnumber") {
        match parse_u64(text.as_str()) {
            Some(n) => {
                p.account_number = Some(n);
            },
            None => {
                return false;
            },
        }
    } else if same_text(tag, "abarouting") {
        match parse_u64(text.as_str()) {
            Some(n) => {
                p.aba_routing = Some(n);
            },
            None => {
                return false;
            },
        }
    }
    true
}

/// The draft after a text was read at the level of the block, under the
/// given lowercased tag: only the amount stands there. `None` where the
/// amount cannot be read.
pub open spec fn draft_with(d: Draft, tag: Seq<char>, text: String) -> Option<Draft> {
    if tag == "amount"@ {
        match amount_cents(text@) {
            Some(amount) => Some(Draft { amount: Some(amount), ..d }),
            None => None,
        }
    } else {
        Some(d)
    }
}

/// Reads a text into the draft of a block, under the given lowercased tag.
/// Says whether the text could be read; the draft is left as it was where
/// not.
pub fn set_transaction_field(d: &mut Draft, tag: &str, text: &String) -> (ok: bool)
    ensures
        ok == (draft_with(*old(d), tag@, *text) is Some),
        ok ==> Some(*final(d)) == draft_with(*old(d), tag@, *text),
        !ok ==> *final(d) == *old(d),
{
    if same_text(tag, "amount") {
        match parse_amount(text.as_str()) {
            Some(amount) => {
                d.amount = Some(amount);
            },
            None => {
                return false;
            },
        }
    }
    true
}

/// Reading an employee from `pos` on, with `cur` the element last opened
/// and `e` what was read so far: the employee and where the reading
/// stopped. It stops behind the closing `Employee` element or behind an
/// event that cannot stand in a record, and before the end of the document
/// or an error.
pub open spec fn employee_scan(events: Seq<DocEvent>, pos: int, cur: Seq<char>, e: Employee) -> (
    Employee,
    int,
)
    decreases events.len() - pos,
{
    if pos < 0 || pos >= events.len() {
        (e, pos)
    } else {
        match events[pos] {
            DocEvent::StartElement(name) => employee_scan(events, pos + 1, name@, e),
            DocEvent::EndElement(name) => if name@ == "Employee"@ {
                (e, pos + 1)
            } else {
                employee_scan(events, pos + 1, cur, e)
            },
            DocEvent::Characters(text) => employee_scan(
                events,
                pos + 1,
                cur,
                employee_with(e, lowercase_text(cur), text),
            ),
            DocEvent::Whitespace => employee_scan(events, pos + 1, cur, e),
            DocEvent::Other => (e, pos + 1),
            DocEvent::EndDocument => (e, pos),
            DocEvent::Error => (e, pos),
        }
    }
}

/// Reading a payee from `pos` on. As `employee_scan`; the record is `None`
/// where a number could not be read, and the reading then stops behind the
/// text that was meant to hold it.
pub open spec fn payee_scan(events: Seq<DocEvent>, pos: int, cur: Seq<char>, p: Payee) -> (
    Option<Payee>,
    int,
)
    decreases events.len() - pos,
{
    if pos < 0 || pos >= events.len() {
        (Some(p), pos)
    } else {
        match events[pos] {
            DocEvent::StartElement(name) => payee_scan(events, pos + 1, name@, p),
            DocEvent::EndElement(name) => if name@ == "Payee"@ {
                (Some(p), pos + 1)
            } else {
                payee_scan(events, pos + 1, cur, p)
            },
            DocEvent::Characters(text) => match payee_with(p, lowercase_text(cur), text) {
                Some(q) => payee_scan(events, pos + 1, cur, q),
                None => (None, pos + 1),
            },
            DocEvent::Whitespace => payee_scan(events, pos + 1, cur, p),
            DocEvent::Other => (Some(p), pos + 1),
            DocEvent::EndDocument => (Some(p), pos),
            DocEvent::Error => (Some(p), pos),
        }
    }
}

/// Reading an address from `pos` on. As `payee_scan`.
pub open spec fn address_scan(events: Seq<DocEvent>, pos: int, cur: Seq<char>, a: Address) -> (
    Option<Address>,
    int,
)
    decreases events.len() - pos,
{
    if pos < 0 || pos >= events.len() {
        (Some(a), pos)
    } else {
        match events[pos] {
            DocEvent::StartElement(name) => address_scan(events, pos + 1, name@, a),
            DocEvent::EndElement(name) => if name@ == "Address"@ {
                (Some(a), pos + 1)
            } else {
                address_scan(events, pos + 1, cur, a)
            },
            DocEvent::Characters(text) => match address_with(a, lowercase_text(cur), text) {
                Some(b) => address_scan(events, pos + 1, cur, b),
                None => (None, pos + 1),
            },
            DocEvent::Whitespace => address_scan(events, pos + 1, cur, a),
            DocEvent::Other => (Some(a), pos + 1),
            DocEvent::EndDocument => (Some(a), pos),
            DocEvent::Error => (Some(a), pos),
        }
    }
}

/// A scan never goes back, and never beyond the end of the document.
pub proof fn address_scan_bounds(events: Seq<DocEvent>, pos: int, cur: Seq<char>, a: Address)
    requires
        0 <= pos <= events.len(),
    ensures
        pos <= address_scan(events, pos, cur, a).1 <= events.len(),
    decreases events.len() - pos,
{
    if pos < events.len() {
        match events[pos] {
            DocEvent::StartElement(name) => address_scan_bounds(events, pos + 1, name@, a),
            DocEvent::EndElement(name) => address_scan_bounds(events, pos + 1, cur, a),
            DocEvent::Characters(text) => match address_with(a, lowercase_text(cur), text) {
                Some(b) => address_scan_bounds(events, pos + 1, cur, b),
                None => {},
            },
            DocEvent::Whitespace => address_scan_bounds(events, pos + 1, cur, a),
            _ => {},
        }
    }
}

/// As `address_scan_bounds`, of an employee.
pub proof fn employee_scan_bounds(events: Seq<DocEvent>, pos: int, cur: Seq<char>, e: Employee)
    requires
        0 <= pos <= events.len(),
    ensures
        pos <= employee_scan(events, pos, cur, e).1 <= events.len(),
    decreases events.len() - pos,
{
    if pos < events.len() {
        match events[pos] {
            DocEvent::StartElement(name) => employee_scan_bounds(events, pos + 1, name@, e),
            DocEvent::EndElement(name) => employee_scan_bounds(events, pos + 1, cur, e),
            DocEvent::Characters(text) => employee_scan_bounds(
                events,
                pos + 1,
                cur,
                employee_with(e, lowercase_text(cur), text),
            ),
            DocEvent::Whitespace => employee_scan_bounds(events, pos + 1, cur, e),
            _ => {},
        }
    }
}

/// As `address_scan_bounds`, of a payee.
pub proof fn payee_scan_bounds(events: Seq<DocEvent>, pos: int, cur: Seq<char>, p: Payee)
    requires
        0 <= pos <= events.len(),
    ensures
        pos <= payee_scan(events, pos, cur, p).1 <= events.len(),
    decreases events.len() - pos,
{
    if pos < events.len() {
        match events[pos] {
            DocEvent::StartElement(name) => payee_scan_bounds(events, pos + 1, name@, p),
            DocEvent::EndElement(name) => payee_scan_bounds(events, pos + 1, cur, p),
            DocEvent::Characters(text) => match payee_with(p, lowercase_text(cur), text) {
                Some(q) => payee_scan_bounds(events, pos + 1, cur, q),
                None => {},
            },
            DocEvent::Whitespace => payee_scan_bounds(events, pos + 1, cur, p),
            _ => {},
        }
    }
}

/// Reading a payor from `pos` on, with `a` the address that it holds so
/// far. As `payee_scan`; an `Address` element inside it is read as an
/// address, and the last one read is the payor's.
pub open spec fn payor_scan(
    events: Seq<DocEvent>,
    pos: int,
    cur: Seq<char>,
    p: Payor,
    a: Option<Address>,
) -> (Option<(Payor, Option<Address>)>, int)
    decreases events.len() - pos,
{
    if pos < 0 || pos >= events.len() {
        (Some((p, a)), pos)
    } else {
        match events[pos] {
            DocEvent::StartElement(name) => if name@ == "Address"@ {
                let inner = address_scan(events, pos + 1, Seq::<char>::empty(), Address::empty());
                proof {
                    address_scan_bounds(events, pos + 1, Seq::<char>::empty(), Address::empty());
                }
                match inner.0 {
                    Some(address) => payor_scan(events, inner.1, name@, p, Some(address)),
                    None => (None, inner.1),
                }
            } else {
                payor_scan(events, pos + 1, name@, p, a)
            },
            DocEvent::EndElement(name) => if name@ == "Payor"@ {
                (Some((p, a)), pos + 1)
            } else {
                payor_scan(events, pos + 1, cur, p, a)
            },
            DocEvent::Characters(text) => match payor_with(p, lowercase_text(cur), text) {
                Some(q) => payor_scan(events, pos + 1, cur, q, a),
                None => (None, pos + 1),
            },
            DocEvent::Whitespace => payor_scan(events, pos + 1, cur, p, a),
            DocEvent::Other => (Some((p, a)), pos + 1),
            DocEvent::EndDocument => (Some((p, a)), pos),
            DocEvent::Error => (Some((p, a)), pos),
        }
    }
}

/// As `address_scan_bounds`, of a payor.
pub proof fn payor_scan_bounds(
    events: Seq<DocEvent>,
    pos: int,
    cur: Seq<char>,
    p: Payor,
    a: Option<Address>,
)
    requires
        0 <= pos <= events.len(),
    ensures
        pos <= payor_scan(events, pos, cur, p, a).1 <= events.len(),
    decreases events.len() - pos,
{
    if pos < events.len() {
        match events[pos] {
            DocEvent::StartElement(name) => {
                if name@ == "Address"@ {
                    let inner = address_scan(
                        events,
                        pos + 1,
                        Seq::<char>::empty(),
                        Address::empty(),
                    );
                    address_scan_bounds(events, pos + 1, Seq::<char>::empty(), Address::empty());
                    match inner.0 {
                        Some(address) => payor_scan_bounds(
                            events,
                            inner.1,
                            name@,
                            p,
                            Some(address),
                        ),
                        None => {},
                    }
                } else {
                    payor_scan_bounds(events, pos + 1, name@, p, a);
                }
            },
            DocEvent::EndElement(name) => payor_scan_bounds(events, pos + 1, cur, p, a),
            DocEvent::Characters(text) => match payor_with(p, lowercase_text(cur), text) {
                Some(q) => payor_scan_bounds(events, pos + 1, cur, q, a),
                None => {},
            },
            DocEvent::Whitespace => payor_scan_bounds(events, pos + 1, cur, p, a),
            _ => {},
        }
    }
}

/// Reading a transaction block from `pos` on, behind its opening element:
/// what it yielded, where the reading stopped and how it ended.
///
/// An `Employee`, `Payor` or `Payee` element opens a record, which is read
/// to its end and replaces an earlier one of its kind. Text under an
/// `amount` element is the amount. The block ends behind its closing `row`
/// element. An event that cannot stand in a block ends it early, as does
/// the end of the document; a number that cannot be read makes it
/// unreadable; an error aborts it.
pub open spec fn row_scan(events: Seq<DocEvent>, pos: int, cur: Seq<char>, d: Draft) -> (
    Draft,
    int,
    RowEnd,
)
    decreases events.len() - pos,
{
    if pos < 0 || pos >= events.len() {
        (d, pos, RowEnd::Closed)
    } else {
        match events[pos] {
            DocEvent::StartElement(name) => if name@ == "Employee"@ {
                let inner = employee_scan(
                    events,
                    pos + 1,
                    Seq::<char>::empty(),
                    Employee::empty(),
                );
                proof {
                    employee_scan_bounds(events, pos + 1, Seq::<char>::empty(), Employee::empty());
                }
                row_scan(events, inner.1, name@, Draft { employee: Some(inner.0), ..d })
            } else if name@ == "Payor"@ {
                let inner = payor_scan(
                    events,
                    pos + 1,
                    Seq::<char>::empty(),
                    Payor::empty(),
                    None,
                );
                proof {
                    payor_scan_bounds(events, pos + 1, Seq::<char>::empty(), Payor::empty(), None);
                }
                match inner.0 {
                    Some((payor, address)) => row_scan(
                        events,
                        inner.1,
                        name@,
                        Draft { payor: Some(payor), address: address, ..d },
                    ),
                    None => (d, inner.1, RowEnd::Unreadable),
                }
            } else if name@ == "Payee"@ {
                let inner = payee_scan(events, pos + 1, Seq::<char>::empty(), Payee::empty());
                proof {
                    payee_scan_bounds(events, pos + 1, Seq::<char>::empty(), Payee::empty());
                }
                match inner.0 {
                    Some(payee) => row_scan(
                        events,
                        inner.1,
                        name@,
                        Draft { payee: Some(payee), ..d },
                    ),
                    None => (d, inner.1, RowEnd::Unreadable),
                }
            } else {
                row_scan(events, pos + 1, name@, d)
            },
            DocEvent::EndElement(name) => if name@ == "row"@ {
                (d, pos + 1, RowEnd::Closed)
            } else {
                row_scan(events, pos + 1, cur, d)
            },
            DocEvent::Characters(text) => match draft_with(d, lowercase_text(cur), text) {
                Some(filled) => row_scan(events, pos + 1, cur, filled),
                None => (d, pos + 1, RowEnd::Unreadable),
            },
            DocEvent::Whitespace => row_scan(events, pos + 1, cur, d),
            DocEvent::Other => (d, pos + 1, RowEnd::Closed),
            DocEvent::EndDocument => (d, pos, RowEnd::Closed),
            DocEvent::Error => (d, pos, RowEnd::Aborted),
        }
    }
}

/// As `address_scan_bounds`, of a transaction block.
pub proof fn row_scan_bounds(events: Seq<DocEvent>, pos: int, cur: Seq<char>, d: Draft)
    requires
        0 <= pos <= events.len(),
    ensures
        pos <= row_scan(events, pos, cur, d).1 <= events.len(),
    decreases events.len() - pos,
{
    if pos < events.len() {
        match events[pos] {
            DocEvent::StartElement(name) => {
                if name@ == "Employee"@ {
                    let inner = employee_scan(
                        events,
                        pos + 1,
                        Seq::<char>::empty(),
                        Employee::empty(),
                    );
                    employee_scan_bounds(events, pos + 1, Seq::<char>::empty(), Employee::empty());
                    row_scan_bounds(
                        events,
                        inner.1,
                        name@,
                        Draft { employee: Some(inner.0), ..d },
                    );
                } else if name@ == "Payor"@ {
                    let inner = payor_scan(
                        events,
                        pos + 1,
                        Seq::<char>::empty(),
                        Payor::empty(),
                        None,
                    );
                    payor_scan_bounds(events, pos + 1, Seq::<char>::empty(), Payor::empty(), None);
                    match inner.0 {
                        Some((payor, address)) => row_scan_bounds(
                            events,
                            inner.1,
                            name@,
                            Draft { payor: Some(payor), address: address, ..d },
                        ),
                        None => {},
                    }
                } else if name@ == "Payee"@ {
                    let inner = payee_scan(
                        events,
                        pos + 1,
                        Seq::<char>::empty(),
                        Payee::empty(),
                    );
                    payee_scan_bounds(events, pos + 1, Seq::<char>::empty(), Payee::empty());
                    match inner.0 {
                        Some(payee) => row_scan_bounds(
                            events,
                            inner.1,
                            name@,
                            Draft { payee: Some(payee), ..d },
                        ),
                        None => {},
                    }
                } else {
                    row_scan_bounds(events, pos + 1, name@, d);
                }
            },
            DocEvent::EndElement(name) => row_scan_bounds(events, pos + 1, cur, d),
            DocEvent::Characters(text) => match draft_with(d, lowercase_text(cur), text) {
                Some(filled) => row_scan_bounds(events, pos + 1, cur, filled),
                None => {},
            },
            DocEvent::Whitespace => row_scan_bounds(events, pos + 1, cur, d),
            _ => {},
        }
    }
}

/// The block that a draft amounts to, or the first thing that it lacks.
pub open spec fn block_of(d: Draft) -> Result<Block, Malformed> {
    if d.employee is None {
        Err(Malformed::MissingEmployee)
    } else if d.payor is None {
        Err(Malformed::MissingPayor)
    } else if d.payee is None {
        Err(Malformed::MissingPayee)
    } else if d.amount is None {
        Err(Malformed::MissingAmount)
    } else {
        Ok(
            Block {
                employee: d.employee->0,
                payor: d.payor->0,
                address: d.address,
                payee: d.payee->0,
                amount: d.amount->0,
            },
        )
    }
}

/// Where the next transaction block begins: the place behind the first
/// `row` element that opens from `pos` on; `None` where the document ends,
/// or cannot be read further, before one opens.
pub open spec fn seek_row(events: Seq<DocEvent>, pos: int) -> Option<int>
    decreases events.len() - pos,
{
    if pos < 0 || pos >= events.len() {
        None
    } else {
        match events[pos] {
            DocEvent::StartElement(name) => if name@ == "row"@ {
                Some(pos + 1)
            } else {
                seek_row(events, pos + 1)
            },
            DocEvent::EndDocument => None,
            DocEvent::Error => None,
            _ => seek_row(events, pos + 1),
        }
    }
}

/// The next block begins behind where the search began, and within the
/// document.
pub proof fn seek_row_bounds(events: Seq<DocEvent>, pos: int)
    requires
        0 <= pos <= events.len(),
    ensures
        seek_row(events, pos) matches Some(p) ==> pos < p <= events.len(),
    decreases events.len() - pos,
{
    if pos < events.len() {
        match events[pos] {
            DocEvent::EndDocument => {},
            DocEvent::Error => {},
            _ => seek_row_bounds(events, pos + 1),
        }
    }
}

/// The transaction blocks of a document from `pos` on, in order: each one
/// either ready to be resolved or marked with what is wrong with it. A
/// block that was aborted is left out, and so is all that follows it.
pub open spec fn blocks(events: Seq<DocEvent>, pos: int) -> Seq<Result<Block, Malformed>>
    decreases events.len() - pos,
{
    if pos < 0 || pos > events.len() {
        Seq::empty()
    } else {
        match seek_row(events, pos) {
            None => Seq::empty(),
            Some(start) => {
                let row = row_scan(events, start, Seq::<char>::empty(), Draft::empty());
                proof {
                    seek_row_bounds(events, pos);
                    row_scan_bounds(events, start, Seq::<char>::empty(), Draft::empty());
                }
                match row.2 {
                    RowEnd::Closed => seq![block_of(row.0)] + blocks(events, row.1),
                    RowEnd::Unreadable => seq![Err(Malformed::BadNumber)] + blocks(
                        events,
                        row.1,
                    ),
                    RowEnd::Aborted => Seq::empty(),
                }
            },
        }
    }
}

/// Reads an employee from `start` on.
pub fn parse_employee(events: &Vec<DocEvent>, start: usize) -> (r: (Employee, usize))
    ensures
        r.0 == employee_scan(events@, start as int, Seq::<char>::empty(), Employee::empty()).0,
        r.1 == employee_scan(events@, start as int, Seq::<char>::empty(), Employee::empty()).1,
{
    let mut e = Employee::new();
    let mut cur = String::new();
    let mut pos: usize = start;
    loop
        invariant
            employee_scan(events@, pos as int, cur@, e) == employee_scan(
                events@,
                start as int,
                Seq::<char>::empty(),
                Employee::empty(),
            ),
        decreases events.len() - pos,
    {
        if pos >= events.len() {
            return (e, pos);
        }
        match &events[pos] {
            DocEvent::StartElement(name) => {
                cur = name.clone();
            },
            DocEvent::EndElement(name) => {
                if same_text(name.as_str(), Employee::XML_IDENTIFIER) {
                    return (e, pos + 1);
                }
            },
            DocEvent::Characters(text) => {
                let tag = lowercase(cur.as_str());
                set_employee_field(&mut e, tag.as_str(), text);
            },
            DocEvent::Whitespace => {},
            DocEvent::Other => {
                return (e, pos + 1);
            },
            DocEvent::EndDocument => {
                return (e, pos);
            },
            DocEvent::Error => {
                return (e, pos);
            },
        }
        pos = pos + 1;
    }
}

/// Reads a payee from `start` on.
pub fn parse_payee(events: &Vec<DocEvent>, start: usize) -> (r: (Option<Payee>, usize))
    ensures
        r.0 == payee_scan(events@, start as int, Seq::<char>::empty(), Payee::empty()).0,
        r.1 == payee_scan(events@, start as int, Seq::<char>::empty(), Payee::empty()).1,
{
    let mut p = Payee::new();
    let mut cur = String::new();
    let mut pos: usize = start;
    loop
        invariant
            payee_scan(events@, pos as int, cur@, p) == payee_scan(
                events@,
                start as int,
                Seq::<char>::empty(),
                Payee::empty(),
            ),
        decreases events.len() - pos,
    {
        if pos >= events.len() {
            return (Some(p), pos);
        }
        match &events[pos] {
            DocEvent::StartElement(name) => {
                cur = name.clone();
            },
            DocEvent::EndElement(name) => {
                if same_text(name.as_str(), Payee::XML_IDENTIFIER) {
                    return (Some(p), pos + 1);
                }
            },
            DocEvent::Characters(text) => {
                let tag = lowercase(cur.as_str());
                if !set_payee_field(&mut p, tag.as_str(), text) {
                    return (None, pos + 1);
                }
            },
            DocEvent::Whitespace => {},
            DocEvent::Other => {
                return (Some(p), pos + 1);
            },
            DocEvent::EndDocument => {
                return (Some(p), pos);
            },
            DocEvent::Error => {
                return (Some(p), pos);
            },
        }
        pos = pos + 1;
    }
}

/// Reads an address from `start` on.
pub fn parse_address(events: &Vec<DocEvent>, start: usize) -> (r: (Option<Address>, usize))
    ensures
        r.0 == address_scan(events@, start as int, Seq::<char>::empty(), Address::empty()).0,
        r.1 == address_scan(events@, start as int, Seq::<char>::empty(), Address::empty()).1,
{
    let mut a = Address::new();
    let mut cur = String::new();
    let mut pos: usize = start;
    loop
        invariant
            address_scan(events@, pos as int, cur@, a) == address_scan(
                events@,
                start as int,
                Seq::<char>::empty(),
                Address::empty(),
            ),
        decreases events.len() - pos,
    {
        if pos >= events.len() {
            return (Some(a), pos);
        }
        match &events[pos] {
            DocEvent::StartElement(name) => {
                cur = name.clone();
            },
            DocEvent::EndElement(name) => {
                if same_text(name.as_str(), Address::XML_IDENTIFIER) {
                    return (Some(a), pos + 1);
                }
            },
            DocEvent::Characters(text) => {
                let tag = lowercase(cur.as_str());
                if !set_address_field(&mut a, tag.as_str(), text) {
                    return (None, pos + 1);
                }
            },
            DocEvent::Whitespace => {},
            DocEvent::Other => {
                return (Some(a), pos + 1);
            },
            DocEvent::EndDocument => {
                return (Some(a), pos);
            },
            DocEvent::Error => {
                return (Some(a), pos);
            },
        }
        pos = pos + 1;
    }
}

/// Reads a payor, and the address that it holds, from `start` on.
pub fn parse_payor(events: &Vec<DocEvent>, start: usize) -> (r: (
    Option<(Payor, Option<Address>)>,
    usize,
))
    ensures
        r.0 == payor_scan(events@, start as int, Seq::<char>::empty(), Payor::empty(), None).0,
        r.1 == payor_scan(events@, start as int, Seq::<char>::empty(), Payor::empty(), None).1,
{
    let mut p = Payor::new();
    let mut a: Option<Address> = None;
    let mut cur = String::new();
    let mut pos: usize = start;
    loop
        invariant
            payor_scan(events@, pos as int, cur@, p, a) == payor_scan(
                events@,
                start as int,
                Seq::<char>::empty(),
                Payor::empty(),
                None,
            ),
        decreases events.len() - pos,
    {
        if pos >= events.len() {
            return (Some((p, a)), pos);
        }
        match &events[pos] {
            DocEvent::StartElement(name) => {
                cur = name.clone();
                if same_text(name.as_str(), Address::XML_IDENTIFIER) {
                    proof {
                        address_scan_bounds(
                            events@,
                            pos + 1,
                            Seq::<char>::empty(),
                            Address::empty(),
                        );
                    }
                    let (address, next) = parse_address(events, pos + 1);
                    match address {
                        Some(address) => {
                            a = Some(address);
                            pos = next;
                            continue ;
                        },
                        None => {
                            return (None, next);
                        },
                    }
                }
            },
            DocEvent::EndElement(name) => {
                if same_text(name.as_str(), Payor::XML_IDENTIFIER) {
                    return (Some((p, a)), pos + 1);
                }
            },
            DocEvent::Characters(text) => {
                let tag = lowercase(cur.as_str());
                if !set_payor_field(&mut p, tag.as_str(), text) {
                    return (None, pos + 1);
                }
            },
            DocEvent::Whitespace => {},
            DocEvent::Other => {
                return (Some((p, a)), pos + 1);
            },
            DocEvent::EndDocument => {
                return (Some((p, a)), pos);
            },
            DocEvent::Error => {
                return (Some((p, a)), pos);
            },
        }
        pos = pos + 1;
    }
}

/// Reads a transaction block from `start` on, behind its opening element.
pub fn parse_transaction(events: &Vec<DocEvent>, start: usize) -> (r: (Draft, usize, RowEnd))
    ensures
        r.0 == row_scan(events@, start as int, Seq::<char>::empty(), Draft::empty()).0,
        r.1 == row_scan(events@, start as int, Seq::<char>::empty(), Draft::empty()).1,
        r.2 == row_scan(events@, start as int, Seq::<char>::empty(), Draft::empty()).2,
{
    let mut d = Draft::new();
    let mut cur = String::new();
    let mut pos: usize = start;
    loop
        invariant
            row_scan(events@, pos as int, cur@, d) == row_scan(
                events@,
                start as int,
                Seq::<char>::empty(),
                Draft::empty(),
            ),
        decreases events.len() - pos,
    {
        if pos >= events.len() {
            return (d, pos, RowEnd::Closed);
        }
        match &events[pos] {
            DocEvent::StartElement(name) => {
                cur = name.clone();
                if same_text(name.as_str(), Employee::XML_IDENTIFIER) {
                    proof {
                        employee_scan_bounds(
                            events@,
                            pos + 1,
                            Seq::<char>::empty(),
                            Employee::empty(),
                        );
                    }
                    let (employee, next) = parse_employee(events, pos + 1);
                    d.employee = Some(employee);
                    pos = next;
                    continue ;
                } else if same_text(name.as_str(), Payor::XML_IDENTIFIER) {
                    proof {
                        payor_scan_bounds(
                            events@,
                            pos + 1,
                            Seq::<char>::empty(),
                            Payor::empty(),
                            None,
                        );
                    }
                    let (payor, next) = parse_payor(events, pos + 1);
                    match payor {
                        Some((payor, address)) => {
                            d.payor = Some(payor);
                            d.address = address;
                            pos = next;
                            continue ;
                        },
                        None => {
                            return (d, next, RowEnd::Unreadable);
                        },
                    }
                } else if same_text(name.as_str(), Payee::XML_IDENTIFIER) {
                    proof {
                        payee_scan_bounds(
                            events@,
                            pos + 1,
                            Seq::<char>::empty(),
                            Payee::empty(),
                        );
                    }
                    let (payee, next) = parse_payee(events, pos + 1);
                    match payee {
                        Some(payee) => {
                            d.payee = Some(payee);
                            pos = next;
                            continue ;
                        },
                        None => {
                            return (d, next, RowEnd::Unreadable);
                        },
                    }
                }
            },
            DocEvent::EndElement(name) => {
                if same_text(name.as_str(), "row") {
                    return (d, pos + 1, RowEnd::Closed);
                }
            },
            DocEvent::Characters(text) => {
                let tag = lowercase(cur.as_str());
                if !set_transaction_field(&mut d, tag.as_str(), text) {
                    return (d, pos + 1, RowEnd::Unreadable);
                }
            },
            DocEvent::Whitespace => {},
            DocEvent::Other => {
                return (d, pos + 1, RowEnd::Closed);
            },
            DocEvent::EndDocument => {
                return (d, pos, RowEnd::Closed);
            },
            DocEvent::Error => {
                return (d, pos, RowEnd::Aborted);
            },
        }
        pos = pos + 1;
    }
}

/// Turns a draft into a block, or says what it lacks.
pub fn finish_block(d: Draft) -> (r: Result<Block, Malformed>)
    ensures
        r == block_of(d),
{
    let employee = match d.employee {
        Some(employee) => employee,
        None => {
            return Err(Malformed::MissingEmployee);
        },
    };
    let payor = match d.payor {
        Some(payor) => payor,
        None => {
            return Err(Malformed::MissingPayor);
        },
    };
    let payee = match d.payee {
        Some(payee) => payee,
        None => {
            return Err(Malformed::MissingPayee);
        },
    };
    let amount: u64 = match d.amount {
        Some(amount) => amount,
        None => {
            return Err(Malformed::MissingAmount);
        },
    };
    Ok(Block { employee, payor, address: d.address, payee, amount })
}

/// Finds where the next transaction block begins.
fn find_row(events: &Vec<DocEvent>, start: usize) -> (r: Option<usize>)
    ensures
        r is Some == seek_row(events@, start as int) is Some,
        r matches Some(p) ==> seek_row(events@, start as int) == Some(p as int),
{
    let mut pos: usize = start;
    loop
        invariant
            seek_row(events@, pos as int) == seek_row(events@, start as int),
        decreases events.len() - pos,
    {
        if pos >= events.len() {
            return None;
        }
        match &events[pos] {
            DocEvent::StartElement(name) => {
                if same_text(name.as_str(), "row") {
                    return Some(pos + 1);
                }
            },
            DocEvent::EndDocument => {
                return None;
            },
            DocEvent::Error => {
                return None;
            },
            _ => {},
        }
        pos = pos + 1;
    }
}

/// Reads the transaction blocks of a document.
pub fn parse(events: &Vec<DocEvent>) -> (r: Vec<Result<Block, Malformed>>)
    ensures
        r@ == blocks(events@, 0),
{
    let mut out: Vec<Result<Block, Malformed>> = Vec::new();
    let mut pos: usize = 0;
    loop
        invariant
            pos <= events.len(),
            out@ + blocks(events@, pos as int) == blocks(events@, 0),
        decreases events.len() - pos,
    {
        let start: usize = match find_row(events, pos) {
            Some(start) => start,
            None => {
                return out;
            },
        };
        proof {
            seek_row_bounds(events@, pos as int);
            row_scan_bounds(events@, start as int, Seq::<char>::empty(), Draft::empty());
        }
        let (draft, next, end) = parse_transaction(events, start);
        let ghost before = out@;
        match end {
            RowEnd::Closed => {
                out.push(finish_block(draft));
            },
            RowEnd::Unreadable => {
                out.push(Err(Malformed::BadNumber));
            },
            RowEnd::Aborted => {
                return out;
            },
        }
        proof {
            assert(out@ + blocks(events@, next as int) =~= before + blocks(events@, pos as int));
        }
        pos = next;
    }
}

} // verus!
