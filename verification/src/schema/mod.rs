//! The rows of the local store, and how each of them is laid out in its
//! table.

use crate::schema::address::Address;
use crate::schema::employee::Employee;
use crate::schema::payee::Payee;
use crate::schema::payor::Payor;
use crate::schema::transaction::Transaction;
use crate::schema::xml_parse::XmlParse;
use crate::text::{decimal, decimal_text, opt_text};
use vstd::prelude::*;
use vstd::string::StringExecFns;

pub mod address;
pub mod employee;
pub mod payee;
pub mod payor;
pub mod statement;
pub mod transaction;
pub mod xml_parse;

verus! {

/// A value as the store's query language writes it.
#[derive(Debug, PartialEq, Eq)]
pub struct SqlString(String);

impl View for SqlString {
    type V = Seq<char>;

    closed spec fn view(&self) -> Seq<char> {
        self.0@
    }
}

impl Clone for SqlString {
    fn clone(&self) -> (r: Self)
        ensures
            r == *self,
    {
        SqlString(self.0.clone())
    }
}

/// How an optional text is written: itself, or `NULL` where it is absent.
pub open spec fn sql_text(o: Option<Seq<char>>) -> Seq<char> {
    match o {
        Some(s) => s,
        None => "NULL"@,
    }
}

/// How an optional number is written: in base ten, or `NULL` where it is
/// absent.
pub open spec fn sql_number(o: Option<u64>) -> Seq<char> {
    match o {
        Some(n) => decimal_text(n as nat),
        None => "NULL"@,
    }
}

impl SqlString {
    /// A text, written as it is.
    pub fn from_string(value: String) -> (r: SqlString)
        ensures
            r@ == value@,
    {
        SqlString(value)
    }

    /// A text, written as it is.
    pub fn from_text(value: &str) -> (r: SqlString)
        ensures
            r@ == value@,
    {
        SqlString(String::from_str(value))
    }

    /// A number, written in base ten.
    pub fn from_u64(value: u64) -> (r: SqlString)
        ensures
            r@ == decimal_text(value as nat),
    {
        SqlString(decimal(value))
    }

    /// An optional text: written as it is, or as `NULL` where it is absent.
    pub fn from_opt_string(value: &Option<String>) -> (r: SqlString)
        ensures
            r@ == sql_text(opt_text(*value)),
    {
        match value {
            Some(text) => SqlString(text.clone()),
            None => SqlString(String::from_str("NULL")),
        }
    }

    /// An optional number: written in base ten, or as `NULL` where it is
    /// absent.
    pub fn from_opt_u64(value: Option<u64>) -> (r: SqlString)
        ensures
            r@ == sql_number(value),
    {
        match value {
            Some(n) => SqlString(decimal(n)),
            None => SqlString(String::from_str("NULL")),
        }
    }

    /// The value as it is written.
    pub fn as_str(&self) -> (r: &str)
        ensures
            r@ == self@,
    {
        self.0.as_str()
    }

    /// The value between single quotes, as a statement holds it.
    pub fn quoted(&self) -> (r: String)
        ensures
            r@ == quoted_text(self@),
    {
        let mut text = String::from_str("'");
        text.append(self.0.as_str());
        text.append("'");
        text
    }

    /// The value as it is written.
    pub fn into_string(self) -> (r: String)
        ensures
            r@ == self@,
    {
        self.0
    }
}

/// A text between single quotes.
pub open spec fn quoted_text(s: Seq<char>) -> Seq<char> {
    "'"@ + s + "'"@
}

/// The texts in their order, with `', '` between one and the next.
pub open spec fn joined_text(values: Seq<String>) -> Seq<char>
    decreases values.len(),
{
    if values.len() == 0 {
        Seq::empty()
    } else if values.len() == 1 {
        values.last()@
    } else {
        joined_text(values.drop_last()) + "', '"@ + values.last()@
    }
}

/// A list of texts as a statement holds it: each between single quotes,
/// with commas between them; one empty pair of quotes for no text at all.
pub fn quoted_list(values: &Vec<String>) -> (r: String)
    ensures
        r@ == quoted_text(joined_text(values@)),
{
    let mut text = String::from_str("'");
    let mut i: usize = 0;
    while i < values.len()
        invariant
            i <= values.len(),
            text@ == "'"@ + joined_text(values@.take(i as int)),
        decreases values.len() - i,
    {
        proof {
            assert(values@.take(i + 1).drop_last() =~= values@.take(i as int));
            assert(values@.take(i + 1).last() == values@[i as int]);
        }
        if i > 0 {
            text.append("', '");
        }
        text.append(values[i].as_str());
        i = i + 1;
    }
    proof {
        assert(values@.take(i as int) =~= values@);
    }
    text.append("'");
    text
}

/// As many placeholders as a row has columns, for a statement whose values
/// are bound when it is carried out.
pub fn placeholders(count: usize) -> (r: Vec<&'static str>)
    ensures
        r.len() == count,
        forall|i: int| 0 <= i < count ==> (#[trigger] r[i])@ == "?"@,
{
    let mut marks: Vec<&'static str> = Vec::new();
    while marks.len() < count
        invariant
            marks.len() <= count,
            forall|i: int| 0 <= i < marks.len() ==> (#[trigger] marks[i])@ == "?"@,
        decreases count - marks.len(),
    {
        marks.push("?");
    }
    marks
}

/// The tables of the local store.
#[derive(Clone, Copy, Debug, PartialEq, Eq, Structural)]
pub enum Table {
    XmlParse,
    Transactions,
    Employees,
    Payees,
    Payors,
    Addresses,
}

impl Table {
    /// The table's name in the store.
    pub open spec fn name_text(self) -> Seq<char> {
        match self {
            Table::XmlParse => "XmlParse"@,
            Table::Transactions => "Transactions"@,
            Table::Employees => "Employees"@,
            Table::Payees => "Payees"@,
            Table::Payors => "Payors"@,
            Table::Addresses => "Addresses"@,
        }
    }

    /// The column that holds a row's id: the store's own number for uploads
    /// and addresses, the canonical id for the others.
    pub open spec fn id_field_text(self) -> Seq<char> {
        match self {
            Table::XmlParse | Table::Addresses => "Id"@,
            _ => "MethodId"@,
        }
    }

    /// The table's name in the store.
    pub fn name(&self) -> (r: &'static str)
        ensures
            r@ == self.name_text(),
    {
        match self {
            Table::XmlParse => "XmlParse",
            Table::Transactions => "Transactions",
            Table::Employees => "Employees",
            Table::Payees => "Payees",
            Table::Payors => "Payors",
            Table::Addresses => "Addresses",
        }
    }

    /// The column that holds a row's id.
    pub fn id_field(&self) -> (r: &'static str)
        ensures
            r@ == self.id_field_text(),
    {
        match self {
            Table::XmlParse | Table::Addresses => "Id",
            _ => "MethodId",
        }
    }
}

/// One equality that the rows sought must meet: the column and the value
/// that it must hold.
#[derive(Debug, PartialEq, Eq)]
pub struct Clause {
    pub field: &'static str,
    pub value: SqlString,
}

impl View for Clause {
    type V = (Seq<char>, Seq<char>);

    open spec fn view(&self) -> (Seq<char>, Seq<char>) {
        (self.field@, self.value@)
    }
}

/// The columns and values of a list of equalities.
pub open spec fn clause_texts(clauses: Seq<Clause>) -> Seq<(Seq<char>, Seq<char>)> {
    Seq::new(clauses.len(), |i: int| clauses[i]@)
}

/// The texts of a list of written values.
pub open spec fn texts(values: Seq<SqlString>) -> Seq<Seq<char>> {
    Seq::new(values.len(), |i: int| values[i]@)
}

/// The texts of a list of names.
pub open spec fn names(fields: Seq<&'static str>) -> Seq<Seq<char>> {
    Seq::new(fields.len(), |i: int| fields[i]@)
}

/// How a kind of row is laid out in its table: the table, the columns that
/// are written on insert, and the values of a row in the order of those
/// columns.
pub trait CRUD<KeyType>: Sized {
    spec fn table_of() -> Table;

    spec fn fields_of() -> Seq<Seq<char>>;

    spec fn values_of(&self) -> Seq<Seq<char>>;

    spec fn id_of(&self) -> Option<KeyType>;

    fn table() -> (r: Table)
        ensures
            r == Self::table_of(),
    ;

    /// The row's id. There must be one.
    fn get_id(&self) -> (r: KeyType)
        requires
            self.id_of() is Some,
        ensures
            Some(r) == self.id_of(),
    ;

    fn get_all_fields() -> (r: Vec<&'static str>)
        ensures
            names(r@) == Self::fields_of(),
    ;

    fn get_all_values(&self) -> (r: Vec<SqlString>)
        ensures
            texts(r@) == self.values_of(),
    ;
}

impl CRUD<u64> for XmlParse {
    open spec fn table_of() -> Table {
        Table::XmlParse
    }

    open spec fn fields_of() -> Seq<Seq<char>> {
        seq!["Filename"@, "Status"@, "StartedAt"@, "FinishedAt"@]
    }

    open spec fn values_of(&self) -> Seq<Seq<char>> {
        seq![
            self.filename@,
            self.status@,
            self.started_at@,
            sql_text(opt_text(self.finished_at)),
        ]
    }

    open spec fn id_of(&self) -> Option<u64> {
        self.id
    }

    fn table() -> (r: Table) {
        Table::XmlParse
    }

    fn get_id(&self) -> (r: u64) {
        self.id.unwrap()
    }

    fn get_all_fields() -> (r: Vec<&'static str>) {
        let r = vec!["Filename", "Status", "StartedAt", "FinishedAt"];
        assert(names(r@) =~= Self::fields_of());
        r
    }

    fn get_all_values(&self) -> (r: Vec<SqlString>) {
        let r = vec![
            SqlString::from_string(self.filename.clone()),
            SqlString::from_string(self.status.clone()),
            SqlString::from_string(self.started_at.clone()),
            SqlString::from_opt_string(&self.finished_at),
        ];
        assert(texts(r@) =~= self.values_of());
        r
    }
}

impl CRUD<String> for Transaction {
    open spec fn table_of() -> Table {
        Table::Transactions
    }

    open spec fn fields_of() -> Seq<Seq<char>> {
        seq!["MethodId"@, "EmployeeId"@, "PayorId"@, "PayeeId"@, "XmlId"@, "Amount"@]
    }

    open spec fn values_of(&self) -> Seq<Seq<char>> {
        seq![
            sql_text(opt_text(self.method_id)),
            sql_text(opt_text(self.employee_id)),
            sql_text(opt_text(self.payor_id)),
            sql_text(opt_text(self.payee_id)),
            sql_number(self.xml_id),
            sql_number(self.amount),
        ]
    }

    open spec fn id_of(&self) -> Option<String> {
        self.method_id
    }

    fn table() -> (r: Table) {
        Table::Transactions
    }

    fn get_id(&self) -> (r: String) {
        self.method_id.clone().unwrap()
    }

    fn get_all_fields() -> (r: Vec<&'static str>) {
        let r = vec!["MethodId", "EmployeeId", "PayorId", "PayeeId", "XmlId", "Amount"];
        assert(names(r@) =~= Self::fields_of());
        r
    }

    fn get_all_values(&self) -> (r: Vec<SqlString>) {
        let r = vec![
            SqlString::from_opt_string(&self.method_id),
            SqlString::from_opt_string(&self.employee_id),
            SqlString::from_opt_string(&self.payor_id),
            SqlString::from_opt_string(&self.payee_id),
            SqlString::from_opt_u64(self.xml_id),
            SqlString::from_opt_u64(self.amount),
        ];
        assert(texts(r@) =~= self.values_of());
        r
    }
}

impl CRUD<String> for Employee {
    open spec fn table_of() -> Table {
        Table::Employees
    }

    open spec fn fields_of() -> Seq<Seq<char>> {
        seq![
            "MethodId"@,
            "DunkinId"@,
            "DunkinBranch"@,
            "FirstName"@,
            "LastName"@,
            "Dob"@,
            "PhoneNumber"@,
        ]
    }

    open spec fn values_of(&self) -> Seq<Seq<char>> {
        seq![
            sql_text(opt_text(self.method_id)),
            sql_text(opt_text(self.dunkin_id)),
            sql_text(opt_text(self.dunkin_branch)),
            sql_text(opt_text(self.first_name)),
            sql_text(opt_text(self.last_name)),
            sql_text(opt_text(self.dob)),
            sql_text(opt_text(self.phone_number)),
        ]
    }

    open spec fn id_of(&self) -> Option<String> {
        self.method_id
    }

    fn table() -> (r: Table) {
        Table::Employees
    }

    fn get_id(&self) -> (r: String) {
        self.method_id.clone().unwrap()
    }

    fn get_all_fields() -> (r: Vec<&'static str>) {
        let r = vec![
            "MethodId",
            "DunkinId",
            "DunkinBranch",
            "FirstName",
            "LastName",
            "Dob",
            "PhoneNumber",
        ];
        assert(names(r@) =~= Self::fields_of());
        r
    }

    fn get_all_values(&self) -> (r: Vec<SqlString>) {
        let r = vec![
            SqlString::from_opt_string(&self.method_id),
            SqlString::from_opt_string(&self.dunkin_id),
            SqlString::from_opt_string(&self.dunkin_branch),
            SqlString::from_opt_string(&self.first_name),
            SqlString::from_opt_string(&self.last_name),
            SqlString::from_opt_string(&self.dob),
            SqlString::from_opt_string(&self.phone_number),
        ];
        assert(texts(r@) =~= self.values_of());
        r
    }
}

impl CRUD<String> for Payee {
    open spec fn table_of() -> Table {
        Table::Payees
    }

    open spec fn fields_of() -> Seq<Seq<char>> {
        seq!["MethodId"@, "PlaidId"@]
    }

    open spec fn values_of(&self) -> Seq<Seq<char>> {
        seq![sql_text(opt_text(self.method_id)), sql_text(opt_text(self.plaid_id))]
    }

    open spec fn id_of(&self) -> Option<String> {
        self.method_id
    }

    fn table() -> (r: Table) {
        Table::Payees
    }

    fn get_id(&self) -> (r: String) {
        self.method_id.clone().unwrap()
    }

    fn get_all_fields() -> (r: Vec<&'static str>) {
        let r = vec!["MethodId", "PlaidId"];
        assert(names(r@) =~= Self::fields_of());
        r
    }

    fn get_all_values(&self) -> (r: Vec<SqlString>) {
        let r = vec![
            SqlString::from_opt_string(&self.method_id),
            SqlString::from_opt_string(&self.plaid_id),
        ];
        assert(texts(r@) =~= self.values_of());
        r
    }
}

impl CRUD<String> for Payor {
    open spec fn table_of() -> Table {
        Table::Payors
    }

    open spec fn fields_of() -> Seq<Seq<char>> {
        seq!["MethodId"@, "DunkinId"@, "PayorName"@, "DBA"@, "EIN"@, "AddressId"@]
    }

    open spec fn values_of(&self) -> Seq<Seq<char>> {
        seq![
            sql_text(opt_text(self.method_id)),
            sql_text(opt_text(self.dunkin_id)),
            sql_text(opt_text(self.payor_name)),
            sql_text(opt_text(self.dba)),
            sql_text(opt_text(self.ein)),
            sql_number(self.address_id),
        ]
    }

    open spec fn id_of(&self) -> Option<String> {
        self.method_id
    }

    fn table() -> (r: Table) {
        Table::Payors
    }

    fn get_id(&self) -> (r: String) {
        self.method_id.clone().unwrap()
    }

    fn get_all_fields() -> (r: Vec<&'static str>) {
        let r = vec!["MethodId", "DunkinId", "PayorName", "DBA", "EIN", "AddressId"];
        assert(names(r@) =~= Self::fields_of());
        r
    }

    fn get_all_values(&self) -> (r: Vec<SqlString>) {
        let r = vec![
            SqlString::from_opt_string(&self.method_id),
            SqlString::from_opt_string(&self.dunkin_id),
            SqlString::from_opt_string(&self.payor_name),
            SqlString::from_opt_string(&self.dba),
            SqlString::from_opt_string(&self.ein),
            SqlString::from_opt_u64(self.address_id),
        ];
        assert(texts(r@) =~= self.values_of());
        r
    }
}

impl CRUD<u64> for Address {
    open spec fn table_of() -> Table {
        Table::Addresses
    }

    open spec fn fields_of() -> Seq<Seq<char>> {
        seq!["Line1"@, "City"@, "StateName"@, "Zip"@]
    }

    open spec fn values_of(&self) -> Seq<Seq<char>> {
        seq![
            sql_text(opt_text(self.line1)),
            sql_text(opt_text(self.city)),
            sql_text(opt_text(self.state)),
            sql_number(self.zip),
        ]
    }

    open spec fn id_of(&self) -> Option<u64> {
        self.id
    }

    fn table() -> (r: Table) {
        Table::Addresses
    }

    fn get_id(&self) -> (r: u64) {
        self.id.unwrap()
    }

    fn get_all_fields() -> (r: Vec<&'static str>) {
        let r = vec!["Line1", "City", "StateName", "Zip"];
        assert(names(r@) =~= Self::fields_of());
        r
    }

    fn get_all_values(&self) -> (r: Vec<SqlString>) {
        let r = vec![
            SqlString::from_opt_string(&self.line1),
            SqlString::from_opt_string(&self.city),
            SqlString::from_opt_string(&self.state),
            SqlString::from_opt_u64(self.zip),
        ];
        assert(texts(r@) =~= self.values_of());
        r
    }
}

} // verus!
