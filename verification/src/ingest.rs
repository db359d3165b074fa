//! Resolving the transaction blocks of a document, one step at a time.
//!
//! The job asks for one thing at a time: rows of the local store, the
//! writing of a row, or a registration with the payment processor. Whoever
//! runs the job carries the request out and hands back the reply; the job
//! then decides what comes next. Within a block the order is fixed: the
//! payor's address, the employee, the payor, the payee, and last the
//! payment and the transaction's own row. A block that fails at any point
//! is set aside with the reason, and the job goes on with the next block.

use crate::entities::account::{DestAccount, DestAccountView};
use crate::entities::account_response::AccountResponse;
use crate::entities::entity::{Entity, EntityView};
use crate::entities::entity_response::EntityResponse;
use crate::entities::payment::{payment_of, Payment, PaymentView};
use crate::entities::payment_response::PaymentResponse;
use crate::entities::persist::{
    address_key, address_resolution, employee_key, employee_resolution, payee_key,
    payee_resolution, payor_key, payor_resolution, AddressResolution, Decision, Persist,
    Resolution,
};
use crate::entities::{Error, ErrorView};
use crate::schema::address::Address;
use crate::schema::employee::Employee;
use crate::schema::payee::Payee;
use crate::schema::payor::Payor;
use crate::schema::transaction::Transaction;
use crate::schema::xml_parse::UploadStatus;
use crate::schema::statement::{
    get_by_query, get_by_statement, insert_query, insert_statement, statement_text,
};
use crate::schema::{clause_texts, names, texts, Clause, SqlString, Table, CRUD};
use crate::utility::method_client;
use crate::utility::parser::{parse, tokenize, Block, DocEvent, Malformed};
use vstd::prelude::*;

verus! {

/// Where the job stands: what it has asked for and waits to hear of.
#[derive(Clone, Copy, Debug, PartialEq, Eq, Structural)]
pub enum Stage {
    AddressLookup,
    AddressInsert,
    EmployeeLookup,
    EmployeeRegister,
    EmployeeInsert,
    PayorLookup,
    PayeeLookup,
    PayeeRegister,
    PayeeInsert,
    PaymentCreate,
    TransactionInsert,
    /// Every block was taken up; nothing is asked for any more.
    Done,
}

/// What the job asks for.
#[derive(Debug, PartialEq, Eq)]
pub enum Request {
    /// The rows of a table that meet all of the equalities. `query` is the
    /// statement that asks the store for them.
    Find { table: Table, clauses: Vec<Clause>, query: String },
    /// The writing of one row: the columns, and the values in their order.
    /// `query` is the statement that writes the row once the values are
    /// bound to its placeholders.
    Insert { table: Table, fields: Vec<&'static str>, values: Vec<SqlString>, query: String },
    /// The registration of a person with the payment processor.
    RegisterEntity(Entity),
    /// The registration of a destination account with the payment processor.
    RegisterAccount(DestAccount),
    /// The creation of a payment by the payment processor.
    CreatePayment(Payment),
    /// Nothing: the job is over.
    Finished,
}

/// `Request` as contracts see it: each text as the characters that it holds.
pub enum RequestView {
    Find { table: Table, clauses: Seq<(Seq<char>, Seq<char>)>, query: Seq<char> },
    Insert { table: Table, fields: Seq<Seq<char>>, values: Seq<Seq<char>>, query: Seq<char> },
    RegisterEntity(EntityView),
    RegisterAccount(DestAccountView),
    CreatePayment(PaymentView),
    Finished,
}

impl View for Request {
    type V = RequestView;

    open spec fn view(&self) -> RequestView {
        match self {
            Request::Find { table, clauses, query } => RequestView::Find {
                table: *table,
                clauses: clause_texts(clauses@),
                query: query@,
            },
            Request::Insert { table, fields, values, query } => RequestView::Insert {
                table: *table,
                fields: names(fields@),
                values: texts(values@),
                query: query@,
            },
            Request::RegisterEntity(entity) => RequestView::RegisterEntity(entity@),
            Request::RegisterAccount(account) => RequestView::RegisterAccount(account@),
            Request::CreatePayment(payment) => RequestView::CreatePayment(payment@),
            Request::Finished => RequestView::Finished,
        }
    }
}

/// Asking for the rows of a table that meet all of the equalities, with
/// the statement that asks the store for them.
pub open spec fn find_view(table: Table, clauses: Seq<(Seq<char>, Seq<char>)>) -> RequestView {
    RequestView::Find {
        table,
        clauses,
        query: statement_text(get_by_statement(table, clauses))->0,
    }
}

/// Asking for one row to be written, with the statement that writes it.
pub open spec fn insert_view(
    table: Table,
    fields: Seq<Seq<char>>,
    values: Seq<Seq<char>>,
) -> RequestView {
    RequestView::Insert {
        table,
        fields,
        values,
        query: statement_text(insert_statement(table, fields))->0,
    }
}

fn find(table: Table, clauses: Vec<Clause>) -> (r: Request)
    ensures
        r@ == find_view(table, clause_texts(clauses@)),
{
    let query = get_by_query(table, &clauses);
    Request::Find { table, clauses, query }
}

fn insert(table: Table, fields: Vec<&'static str>, values: Vec<SqlString>) -> (r: Request)
    ensures
        r@ == insert_view(table, names(fields@), texts(values@)),
{
    let query = insert_query(table, &fields);
    Request::Insert { table, fields, values, query }
}

/// What came of a request.
#[derive(Debug, PartialEq, Eq)]
pub enum Reply {
    Addresses(Vec<Address>),
    Employees(Vec<Employee>),
    Payors(Vec<Payor>),
    Payees(Vec<Payee>),
    /// The row was written; the number is the id that the store gave it.
    Inserted(u64),
    Entity(EntityResponse),
    Account(AccountResponse),
    Payment(PaymentResponse),
    /// The local store failed.
    StoreFailed(String),
    /// The call to the payment processor failed.
    RemoteFailed(method_client::Error),
}

/// What is said of a block that cannot be taken up.
pub open spec fn malformed_text(m: Malformed) -> Seq<char> {
    match m {
        Malformed::MissingEmployee => "Transaction has no employee"@,
        Malformed::MissingPayor => "Transaction has no payor"@,
        Malformed::MissingPayee => "Transaction has no payee"@,
        Malformed::MissingAmount => "Transaction has no amount"@,
        Malformed::BadNumber => "Transaction holds a number that cannot be read"@,
    }
}

fn malformed_message(m: Malformed) -> (r: &'static str)
    ensures
        r@ == malformed_text(m),
{
    match m {
        Malformed::MissingEmployee => "Transaction has no employee",
        Malformed::MissingPayor => "Transaction has no payor",
        Malformed::MissingPayee => "Transaction has no payee",
        Malformed::MissingAmount => "Transaction has no amount",
        Malformed::BadNumber => "Transaction holds a number that cannot be read",
    }
}

/// The views of a list of errors.
pub open spec fn error_views(errors: Seq<Error>) -> Seq<ErrorView> {
    Seq::new(errors.len(), |i: int| errors[i]@)
}

/// The block that stands in the job while none is being resolved.
pub open spec fn no_block() -> Block {
    Block {
        employee: Employee::empty(),
        payor: Payor::empty(),
        address: None,
        payee: Payee::empty(),
        amount: 0,
    }
}

/// The state of a job.
pub struct IngestView {
    /// The upload that the document came with.
    pub upload_id: u64,
    /// The blocks of the document.
    pub blocks: Seq<Result<Block, Malformed>>,
    /// How many blocks are behind the job. While the job is not done, this
    /// is the place of the block that is being resolved.
    pub index: int,
    pub stage: Stage,
    /// The block that is being resolved, with the ids found so far.
    pub block: Block,
    /// The transaction of the block that is being resolved.
    pub tx: Transaction,
    /// The transactions that were written, in the order of their blocks.
    pub transactions: Seq<Transaction>,
    /// Why each block that was set aside failed, in the order of the blocks.
    pub skipped: Seq<ErrorView>,
}

impl IngestView {
    /// The place of the job lies within the document, and on a block while
    /// the job is not done.
    pub open spec fn wf(self) -> bool {
        &&& 0 <= self.index <= self.blocks.len()
        &&& self.stage != Stage::Done ==> self.index < self.blocks.len()
    }
}

/// What the upload of a job is marked with once the job is over:
/// `Finished`, however many of its blocks were set aside. Until then it
/// stays `Init`.
pub open spec fn outcome(m: IngestView) -> UploadStatus {
    if m.stage == Stage::Done {
        UploadStatus::Finished
    } else {
        UploadStatus::Init
    }
}

/// The job before its first block.
pub open spec fn initial(upload_id: u64, blocks: Seq<Result<Block, Malformed>>) -> IngestView {
    IngestView {
        upload_id,
        blocks,
        index: 0,
        stage: Stage::Done,
        block: no_block(),
        tx: Transaction::empty(),
        transactions: Seq::empty(),
        skipped: Seq::empty(),
    }
}

/// The job after its current block was set aside for the given reason.
pub open spec fn skip(m: IngestView, reason: ErrorView) -> IngestView {
    IngestView { index: m.index + 1, skipped: m.skipped.push(reason), ..m }
}

/// The job after the transaction of its current block was written.
pub open spec fn written(m: IngestView) -> IngestView {
    IngestView { index: m.index + 1, transactions: m.transactions.push(m.tx), ..m }
}

/// Asking for the rows of the current employee.
pub open spec fn employee_start(m: IngestView) -> (IngestView, RequestView) {
    (
        IngestView { stage: Stage::EmployeeLookup, ..m },
        find_view(Table::Employees, employee_key(m.block.employee)),
    )
}

/// Asking for the rows of the current payor.
pub open spec fn payor_start(m: IngestView) -> (IngestView, RequestView) {
    (
        IngestView { stage: Stage::PayorLookup, ..m },
        find_view(Table::Payors, payor_key(m.block.payor)),
    )
}

/// Asking for the rows of the current payee.
pub open spec fn payee_start(m: IngestView) -> (IngestView, RequestView) {
    (
        IngestView { stage: Stage::PayeeLookup, ..m },
        find_view(Table::Payees, payee_key(m.block.payee)),
    )
}

/// Taking up a block: its transaction carries the upload and the amount,
/// and the first thing asked for is the payor's address where there is
/// one, else the employee.
pub open spec fn enter(m: IngestView, b: Block) -> (IngestView, RequestView) {
    let tx = Transaction {
        xml_id: Some(m.upload_id),
        amount: Some(b.amount),
        ..Transaction::empty()
    };
    let taken = IngestView { block: b, tx, ..m };
    match b.address {
        Some(address) => (
            IngestView { stage: Stage::AddressLookup, ..taken },
            find_view(Table::Addresses, address_key(address)),
        ),
        None => employee_start(taken),
    }
}

/// What the records of a block lack to be looked up: the first of the
/// three natural ids that is missing, if one is.
pub open spec fn missing_key(b: Block) -> Option<Seq<char>> {
    if b.employee.dunkin_id is None {
        Some("Employee has no natural id"@)
    } else if b.payor.dunkin_id is None {
        Some("Payor has no natural id"@)
    } else if b.payee.plaid_id is None {
        Some("Payee has no natural id"@)
    } else {
        None
    }
}

/// Why a block cannot be taken up, if it cannot: it could not be read, or
/// one of its records has no natural id to be looked up by.
pub open spec fn refusal(entry: Result<Block, Malformed>) -> Option<ErrorView> {
    match entry {
        Err(malformed) => Some(ErrorView::InvalidDataError(malformed_text(malformed))),
        Ok(b) => match missing_key(b) {
            Some(reason) => Some(ErrorView::InvalidDataError(reason)),
            None => None,
        },
    }
}

/// Going on from the block at `m.index`: blocks that cannot be taken up
/// are set aside, each with its reason and before anything is asked for
/// it; the first one that can be taken up is entered; and the job is done
/// where none is left.
pub open spec fn advance(m: IngestView) -> (IngestView, RequestView)
    decreases m.blocks.len() - m.index,
{
    if m.index < 0 || m.index >= m.blocks.len() {
        (IngestView { stage: Stage::Done, ..m }, RequestView::Finished)
    } else {
        match refusal(m.blocks[m.index]) {
            Some(reason) => advance(skip(m, reason)),
            None => enter(m, m.blocks[m.index]->Ok_0),
        }
    }
}

/// Setting the current block aside and going on.
pub open spec fn fail(m: IngestView, reason: ErrorView) -> (IngestView, RequestView) {
    advance(skip(m, reason))
}

/// The job once the id of the current address is known: the address
/// carries it, and so does the payor.
pub open spec fn with_address_id(m: IngestView, id: Option<u64>) -> IngestView {
    IngestView {
        block: Block {
            address: match m.block.address {
                Some(a) => Some(Address { id, ..a }),
                None => None,
            },
            payor: Payor { address_id: id, ..m.block.payor },
            ..m.block
        },
        ..m
    }
}

/// The job once the canonical id of the current employee is known: the
/// employee carries it, and so does the transaction.
pub open spec fn with_employee_id(m: IngestView, id: String) -> IngestView {
    IngestView {
        block: Block { employee: Employee { method_id: Some(id), ..m.block.employee }, ..m.block },
        tx: Transaction { employee_id: Some(id), ..m.tx },
        ..m
    }
}

/// The job once the canonical id of the current payor is known.
pub open spec fn with_payor_id(m: IngestView, id: String) -> IngestView {
    IngestView {
        block: Block { payor: Payor { method_id: Some(id), ..m.block.payor }, ..m.block },
        tx: Transaction { payor_id: Some(id), ..m.tx },
        ..m
    }
}

/// The job once the canonical id of the current payee is known.
pub open spec fn with_payee_id(m: IngestView, id: String) -> IngestView {
    IngestView {
        block: Block { payee: Payee { method_id: Some(id), ..m.block.payee }, ..m.block },
        tx: Transaction { payee_id: Some(id), ..m.tx },
        ..m
    }
}

/// Asking for the payment of the current transaction.
pub open spec fn payment_start(m: IngestView) -> (IngestView, RequestView) {
    match payment_of(m.tx) {
        Ok(payment) => (
            IngestView { stage: Stage::PaymentCreate, ..m },
            RequestView::CreatePayment(payment),
        ),
        Err(reason) => fail(m, reason),
    }
}

/// What a reply to the pending request leads to, where the reply is no
/// failure.
pub open spec fn answer(m: IngestView, reply: Reply) -> (IngestView, RequestView) {
    match (m.stage, reply) {
        (Stage::AddressLookup, Reply::Addresses(rows)) => match m.block.address {
            Some(address) => match address_resolution(rows@) {
                AddressResolution::Insert => (
                    IngestView { stage: Stage::AddressInsert, ..m },
                    insert_view(
                        Table::Addresses,
                        <Address as CRUD<u64>>::fields_of(),
                        address.values_of(),
                    ),
                ),
                AddressResolution::Known(id) => employee_start(with_address_id(m, id)),
            },
            None => fail(m, ErrorView::InvalidDataError("Payor has no address"@)),
        },
        (Stage::AddressInsert, Reply::Inserted(id)) => employee_start(
            with_address_id(m, Some(id)),
        ),
        (Stage::EmployeeLookup, Reply::Employees(rows)) => match employee_resolution(
            m.block.employee,
            rows@,
        ) {
            Ok(Decision::Reuse(id)) => payor_start(with_employee_id(m, id)),
            Ok(Decision::Register(entity)) => (
                IngestView { stage: Stage::EmployeeRegister, ..m },
                RequestView::RegisterEntity(entity),
            ),
            Err(reason) => fail(m, reason),
        },
        (Stage::EmployeeRegister, Reply::Entity(response)) => {
            let known = with_employee_id(m, response.id);
            (
                IngestView { stage: Stage::EmployeeInsert, ..known },
                insert_view(
                    Table::Employees,
                    <Employee as CRUD<String>>::fields_of(),
                    known.block.employee.values_of(),
                ),
            )
        },
        (Stage::EmployeeInsert, Reply::Inserted(_)) => payor_start(m),
        (Stage::PayorLookup, Reply::Payors(rows)) => match payor_resolution(
            m.block.payor,
            rows@,
        ) {
            Ok(id) => payee_start(with_payor_id(m, id)),
            Err(reason) => fail(m, reason),
        },
        (Stage::PayeeLookup, Reply::Payees(rows)) => match m.block.employee.method_id {
            Some(holder) => match payee_resolution(m.block.payee, rows@, holder@) {
                Ok(Decision::Reuse(id)) => payment_start(with_payee_id(m, id)),
                Ok(Decision::Register(account)) => (
                    IngestView { stage: Stage::PayeeRegister, ..m },
                    RequestView::RegisterAccount(account),
                ),
                Err(reason) => fail(m, reason),
            },
            None => fail(m, ErrorView::InvalidDataError("Employee has no canonical id"@)),
        },
        (Stage::PayeeRegister, Reply::Account(response)) => {
            let known = with_payee_id(m, response.id);
            (
                IngestView { stage: Stage::PayeeInsert, ..known },
                insert_view(
                    Table::Payees,
                    <Payee as CRUD<String>>::fields_of(),
                    known.block.payee.values_of(),
                ),
            )
        },
        (Stage::PayeeInsert, Reply::Inserted(_)) => payment_start(m),
        (Stage::PaymentCreate, Reply::Payment(response)) => {
            let tx = Transaction { method_id: Some(response.id), ..m.tx };
            (
                IngestView { stage: Stage::TransactionInsert, tx, ..m },
                insert_view(
                    Table::Transactions,
                    <Transaction as CRUD<String>>::fields_of(),
                    tx.values_of(),
                ),
            )
        },
        (Stage::TransactionInsert, Reply::Inserted(_)) => advance(written(m)),
        _ => fail(m, ErrorView::InvalidDataError("Reply does not answer the request"@)),
    }
}

/// One step of the job: the state and the request that follow from a
/// state and the reply to its pending request. A job that is done stays as
/// it is. A failure of the store or of the payment processor sets the
/// current block aside, and so does a reply that does not answer what was
/// asked; the job then goes on with the next block.
pub open spec fn step_model(m: IngestView, reply: Reply) -> (IngestView, RequestView) {
    if m.stage == Stage::Done {
        (m, RequestView::Finished)
    } else {
        match reply {
            Reply::StoreFailed(cause) => fail(m, ErrorView::DatabaseError(cause@)),
            Reply::RemoteFailed(cause) => fail(m, ErrorView::HTTPError(cause@)),
            _ => answer(m, reply),
        }
    }
}

/// Whether a request asks for rows or for nothing: the two things that a
/// job can ask for when it turns to a new block.
pub open spec fn asks_for_rows_or_nothing(request: RequestView) -> bool {
    request is Find || request is Finished
}

/// Going on changes neither the document nor what was written; it sets
/// aside as many blocks as it passes and nothing that was set aside
/// before; it never goes back; it ends on a block that it has just
/// entered, or behind the last one; and it asks for rows or for nothing.
pub proof fn advance_facts(m: IngestView)
    requires
        0 <= m.index <= m.blocks.len(),
    ensures
        advance(m).0.wf(),
        advance(m).0.upload_id == m.upload_id,
        advance(m).0.blocks == m.blocks,
        advance(m).0.transactions == m.transactions,
        advance(m).0.index >= m.index,
        advance(m).0.skipped.len() - m.skipped.len() == advance(m).0.index - m.index,
        advance(m).0.skipped.take(m.skipped.len() as int) == m.skipped,
        advance(m).0.stage == Stage::Done ==> advance(m).0.index == m.blocks.len(),
        advance(m).0.stage != Stage::Done ==> just_entered(advance(m).0),
        asks_for_rows_or_nothing(advance(m).1),
    decreases m.blocks.len() - m.index,
{
    if m.index < m.blocks.len() {
        match refusal(m.blocks[m.index]) {
            Some(reason) => {
                let next = skip(m, reason);
                advance_facts(next);
                assert(next.skipped.take(m.skipped.len() as int) =~= m.skipped);
                assert(advance(next).0.skipped.take(m.skipped.len() as int) =~= advance(
                    next,
                ).0.skipped.take(next.skipped.len() as int).take(m.skipped.len() as int));
            },
            None => {
                assert(m.skipped.take(m.skipped.len() as int) =~= m.skipped);
            },
        }
    } else {
        assert(m.skipped.take(m.skipped.len() as int) =~= m.skipped);
    }
}

/// A job that has just entered a block: it stands on a block that can be
/// taken up, it waits for the rows of the block's address or employee, and
/// the transaction of the block carries the upload and the amount and
/// nothing else.
pub open spec fn just_entered(m: IngestView) -> bool {
    &&& 0 <= m.index < m.blocks.len()
    &&& m.blocks[m.index] is Ok
    &&& refusal(m.blocks[m.index]) is None
    &&& m.block == m.blocks[m.index]->Ok_0
    &&& m.stage == Stage::AddressLookup || m.stage == Stage::EmployeeLookup
    &&& m.stage == Stage::AddressLookup <==> m.block.address is Some
    &&& m.tx == (Transaction {
        xml_id: Some(m.upload_id),
        amount: Some(m.block.amount),
        ..Transaction::empty()
    })
}

/// What holds of setting the current block aside, whatever ids were found
/// for it and whatever the reason: the document, the upload and what was
/// written stay; the reason is added to what was set aside, behind what
/// stood there; and the job goes on as `advance_facts` says.
pub proof fn fail_facts(m: IngestView)
    requires
        m.wf(),
        m.stage != Stage::Done,
    ensures
        forall|n: IngestView, e: ErrorView|
            n.index == m.index && n.blocks == m.blocks ==> {
                let after = #[trigger] fail(n, e);
                &&& after.0.wf()
                &&& after.0.upload_id == n.upload_id
                &&& after.0.blocks == n.blocks
                &&& after.0.transactions == n.transactions
                &&& after.0.index > n.index
                &&& after.0.skipped.len() - n.skipped.len() == after.0.index - n.index
                &&& after.0.skipped.take(n.skipped.len() as int) == n.skipped
                &&& after.0.skipped[n.skipped.len() as int] == e
                &&& after.0.stage == Stage::Done ==> after.0.index == n.blocks.len()
                &&& after.0.stage != Stage::Done ==> just_entered(after.0)
                &&& asks_for_rows_or_nothing(after.1)
            },
{
    assert forall|n: IngestView, e: ErrorView|
        n.index == m.index && n.blocks == m.blocks implies {
            let after = #[trigger] fail(n, e);
            &&& after.0.wf()
            &&& after.0.upload_id == n.upload_id
            &&& after.0.blocks == n.blocks
            &&& after.0.transactions == n.transactions
            &&& after.0.index > n.index
            &&& after.0.skipped.len() - n.skipped.len() == after.0.index - n.index
            &&& after.0.skipped.take(n.skipped.len() as int) == n.skipped
            &&& after.0.skipped[n.skipped.len() as int] == e
            &&& after.0.stage == Stage::Done ==> after.0.index == n.blocks.len()
            &&& after.0.stage != Stage::Done ==> just_entered(after.0)
            &&& asks_for_rows_or_nothing(after.1)
        } by {
        let aside = skip(n, e);
        advance_facts(aside);
        let after = advance(aside).0;
        assert(aside.skipped.take(n.skipped.len() as int) =~= n.skipped);
        assert(after.skipped.take(n.skipped.len() as int) =~= after.skipped.take(
            aside.skipped.len() as int,
        ).take(n.skipped.len() as int));
        assert(after.skipped.take(aside.skipped.len() as int)[n.skipped.len() as int]
            == after.skipped[n.skipped.len() as int]);
    }
}

/// Every step leaves a job within its document, and leaves the document
/// and the upload as they are.
pub proof fn step_keeps_wf(m: IngestView, reply: Reply)
    requires
        m.wf(),
    ensures
        step_model(m, reply).0.wf(),
        step_model(m, reply).0.blocks == m.blocks,
        step_model(m, reply).0.upload_id == m.upload_id,
{
    if m.stage != Stage::Done {
        fail_facts(m);
        advance_facts(written(m));
    }
}

/// A job: the blocks of one document and how far their resolution has come.
pub struct Ingest {
    upload_id: u64,
    blocks: Vec<Result<Block, Malformed>>,
    index: usize,
    stage: Stage,
    block: Block,
    tx: Transaction,
    transactions: Vec<Transaction>,
    skipped: Vec<Error>,
}

impl View for Ingest {
    type V = IngestView;

    closed spec fn view(&self) -> IngestView {
        IngestView {
            upload_id: self.upload_id,
            blocks: self.blocks@,
            index: self.index as int,
            stage: self.stage,
            block: self.block,
            tx: self.tx,
            transactions: self.transactions@,
            skipped: error_views(self.skipped@),
        }
    }
}

impl Ingest {
    fn set_aside(&mut self, reason: Error)
        requires
            old(self)@.index < old(self)@.blocks.len(),
        ensures
            final(self)@ == skip(old(self)@, reason@),
    {
        let count: usize = self.blocks.len();
        assert(self.index < count);
        self.skipped.push(reason);
        self.index = self.index + 1;
        proof {
            assert(error_views(self.skipped@) =~= error_views(old(self).skipped@).push(reason@));
        }
    }

    fn start_employee(&mut self) -> (request: Request)
        ensures
            final(self)@ == employee_start(old(self)@).0,
            request@ == employee_start(old(self)@).1,
    {
        self.stage = Stage::EmployeeLookup;
        find(Table::Employees, self.block.employee.lookup())
    }

    fn start_payor(&mut self) -> (request: Request)
        ensures
            final(self)@ == payor_start(old(self)@).0,
            request@ == payor_start(old(self)@).1,
    {
        self.stage = Stage::PayorLookup;
        find(Table::Payors, self.block.payor.lookup())
    }

    fn start_payee(&mut self) -> (request: Request)
        ensures
            final(self)@ == payee_start(old(self)@).0,
            request@ == payee_start(old(self)@).1,
    {
        self.stage = Stage::PayeeLookup;
        find(Table::Payees, self.block.payee.lookup())
    }

    fn take_up(&mut self, b: Block) -> (request: Request)
        ensures
            final(self)@ == enter(old(self)@, b).0,
            request@ == enter(old(self)@, b).1,
    {
        let mut tx = Transaction::new();
        tx.xml_id = Some(self.upload_id);
        tx.amount = Some(b.amount);
        self.tx = tx;
        self.block = b;
        match &self.block.address {
            Some(address) => {
                let clauses = address.lookup();
                self.stage = Stage::AddressLookup;
                find(Table::Addresses, clauses)
            },
            None => self.start_employee(),
        }
    }

    fn go_on(&mut self) -> (request: Request)
        requires
            old(self)@.index <= old(self)@.blocks.len(),
        ensures
            final(self)@ == advance(old(self)@).0,
            request@ == advance(old(self)@).1,
    {
        let ghost start = self@;
        loop
            invariant
                start == old(self)@,
                self@.index <= self@.blocks.len(),
                advance(self@) == advance(start),
            decreases self@.blocks.len() - self@.index,
        {
            if self.index >= self.blocks.len() {
                self.stage = Stage::Done;
                return Request::Finished;
            }
            let entry: Result<Block, Malformed> = match &self.blocks[self.index] {
                Ok(b) => Ok(b.clone()),
                Err(malformed) => Err(*malformed),
            };
            match entry {
                Err(malformed) => {
                    self.set_aside(Error::invalid(malformed_message(malformed)));
                },
                Ok(b) => {
                    if b.employee.dunkin_id.is_none() {
                        self.set_aside(Error::invalid("Employee has no natural id"));
                    } else if b.payor.dunkin_id.is_none() {
                        self.set_aside(Error::invalid("Payor has no natural id"));
                    } else if b.payee.plaid_id.is_none() {
                        self.set_aside(Error::invalid("Payee has no natural id"));
                    } else {
                        return self.take_up(b);
                    }
                },
            }
        }
    }

    fn give_up(&mut self, reason: Error) -> (request: Request)
        requires
            old(self)@.index < old(self)@.blocks.len(),
        ensures
            final(self)@ == fail(old(self)@, reason@).0,
            request@ == fail(old(self)@, reason@).1,
    {
        self.set_aside(reason);
        self.go_on()
    }

    fn set_address_id(&mut self, id: Option<u64>)
        ensures
            final(self)@ == with_address_id(old(self)@, id),
    {
        match &mut self.block.address {
            Some(address) => {
                address.id = id;
            },
            None => {},
        }
        self.block.payor.address_id = id;
    }

    fn set_employee_id(&mut self, id: String)
        ensures
            final(self)@ == with_employee_id(old(self)@, id),
    {
        self.tx.employee_id = Some(id.clone());
        self.block.employee.method_id = Some(id);
    }

    fn set_payor_id(&mut self, id: String)
        ensures
            final(self)@ == with_payor_id(old(self)@, id),
    {
        self.tx.payor_id = Some(id.clone());
        self.block.payor.method_id = Some(id);
    }

    fn set_payee_id(&mut self, id: String)
        ensures
            final(self)@ == with_payee_id(old(self)@, id),
    {
        self.tx.payee_id = Some(id.clone());
        self.block.payee.method_id = Some(id);
    }

    fn start_payment(&mut self) -> (request: Request)
        requires
            old(self)@.index < old(self)@.blocks.len(),
        ensures
            final(self)@ == payment_start(old(self)@).0,
            request@ == payment_start(old(self)@).1,
    {
        match Payment::from_transaction(&self.tx) {
            Ok(payment) => {
                self.stage = Stage::PaymentCreate;
                Request::CreatePayment(payment)
            },
            Err(reason) => self.give_up(reason),
        }
    }

    fn respond(&mut self, reply: Reply) -> (request: Request)
        requires
            old(self)@.wf(),
            old(self)@.stage != Stage::Done,
        ensures
            final(self)@ == answer(old(self)@, reply).0,
            request@ == answer(old(self)@, reply).1,
    {
        match (self.stage, reply) {
            (Stage::AddressLookup, Reply::Addresses(rows)) => {
                let address = match &self.block.address {
                    Some(address) => address.clone(),
                    None => {
                        return self.give_up(Error::invalid("Payor has no address"));
                    },
                };
                match address.persist(&rows, ()) {
                    Ok(AddressResolution::Insert) => {
                        self.stage = Stage::AddressInsert;
                        insert(
                            Table::Addresses,
                            Address::get_all_fields(),
                            address.get_all_values(),
                        )
                    },
                    Ok(AddressResolution::Known(id)) => {
                        self.set_address_id(id);
                        self.start_employee()
                    },
                    Err(reason) => self.give_up(reason),
                }
            },
            (Stage::AddressInsert, Reply::Inserted(id)) => {
                self.set_address_id(Some(id));
                self.start_employee()
            },
            (Stage::EmployeeLookup, Reply::Employees(rows)) => match self.block.employee.persist(
                &rows,
                (),
            ) {
                Ok(Resolution::Reuse(id)) => {
                    self.set_employee_id(id);
                    self.start_payor()
                },
                Ok(Resolution::Register(entity)) => {
                    self.stage = Stage::EmployeeRegister;
                    Request::RegisterEntity(entity)
                },
                Err(reason) => self.give_up(reason),
            },
            (Stage::EmployeeRegister, Reply::Entity(response)) => {
                self.set_employee_id(response.id);
                self.stage = Stage::EmployeeInsert;
                insert(
                    Table::Employees,
                    Employee::get_all_fields(),
                    self.block.employee.get_all_values(),
                )
            },
            (Stage::EmployeeInsert, Reply::Inserted(_)) => self.start_payor(),
            (Stage::PayorLookup, Reply::Payors(rows)) => match self.block.payor.persist(
                &rows,
                (),
            ) {
                Ok(id) => {
                    self.set_payor_id(id);
                    self.start_payee()
                },
                Err(reason) => self.give_up(reason),
            },
            (Stage::PayeeLookup, Reply::Payees(rows)) => {
                let holder = match &self.block.employee.method_id {
                    Some(id) => id.clone(),
                    None => {
                        return self.give_up(Error::invalid("Employee has no canonical id"));
                    },
                };
                match self.block.payee.persist(&rows, holder) {
                    Ok(Resolution::Reuse(id)) => {
                        self.set_payee_id(id);
                        self.start_payment()
                    },
                    Ok(Resolution::Register(account)) => {
                        self.stage = Stage::PayeeRegister;
                        Request::RegisterAccount(account)
                    },
                    Err(reason) => self.give_up(reason),
                }
            },
            (Stage::PayeeRegister, Reply::Account(response)) => {
                self.set_payee_id(response.id);
                self.stage = Stage::PayeeInsert;
                insert(Table::Payees, Payee::get_all_fields(), self.block.payee.get_all_values())
            },
            (Stage::PayeeInsert, Reply::Inserted(_)) => self.start_payment(),
            (Stage::PaymentCreate, Reply::Payment(response)) => {
                self.tx.method_id = Some(response.id);
                self.stage = Stage::TransactionInsert;
                insert(Table::Transactions, Transaction::get_all_fields(), self.tx.get_all_values())
            },
            (Stage::TransactionInsert, Reply::Inserted(_)) => {
                let count: usize = self.blocks.len();
                assert(self.index < count);
                self.transactions.push(self.tx.clone());
                self.index = self.index + 1;
                self.go_on()
            },
            _ => self.give_up(Error::invalid("Reply does not answer the request")),
        }
    }

    /// Starts the job on the blocks of a document: the job and the first
    /// thing that it asks for.
    pub fn begin(upload_id: u64, blocks: Vec<Result<Block, Malformed>>) -> (r: (Ingest, Request))
        ensures
            r.0@ == advance(initial(upload_id, blocks@)).0,
            r.1@ == advance(initial(upload_id, blocks@)).1,
            r.0@.wf(),
    {
        let mut job = Ingest {
            upload_id,
            blocks,
            index: 0,
            stage: Stage::Done,
            block: Block {
                employee: Employee::new(),
                payor: Payor::new(),
                address: None,
                payee: Payee::new(),
                amount: 0,
            },
            tx: Transaction::new(),
            transactions: Vec::new(),
            skipped: Vec::new(),
        };
        proof {
            assert(job@.skipped =~= Seq::<ErrorView>::empty());
            advance_facts(job@);
        }
        let request = job.go_on();
        (job, request)
    }

    /// Starts the job on the events of a document.
    pub fn from_events(upload_id: u64, events: &Vec<DocEvent>) -> (r: (Ingest, Request))
        ensures
            r.0@ == advance(initial(upload_id, crate::utility::parser::blocks(events@, 0))).0,
            r.1@ == advance(initial(upload_id, crate::utility::parser::blocks(events@, 0))).1,
            r.0@.wf(),
    {
        Ingest::begin(upload_id, parse(events))
    }

    /// Starts the job on a document as it was uploaded.
    pub fn open(upload_id: u64, document: &[u8]) -> (r: (Ingest, Request))
        ensures
            r.0@ == advance(
                initial(
                    upload_id,
                    crate::utility::parser::blocks(
                        crate::utility::parser::document_events(document@),
                        0,
                    ),
                ),
            ).0,
            r.1@ == advance(
                initial(
                    upload_id,
                    crate::utility::parser::blocks(
                        crate::utility::parser::document_events(document@),
                        0,
                    ),
                ),
            ).1,
            r.0@.wf(),
    {
        let events = tokenize(document);
        Ingest::from_events(upload_id, &events)
    }

    /// Takes the reply to the pending request and says what is asked next.
    pub fn step(&mut self, reply: Reply) -> (request: Request)
        requires
            old(self)@.wf(),
        ensures
            final(self)@ == step_model(old(self)@, reply).0,
            request@ == step_model(old(self)@, reply).1,
            final(self)@.wf(),
    {
        proof {
            step_keeps_wf(self@, reply);
        }
        match self.stage {
            Stage::Done => Request::Finished,
            _ => match reply {
                Reply::StoreFailed(cause) => self.give_up(Error::DatabaseError(cause)),
                Reply::RemoteFailed(cause) => self.give_up(Error::from_client(cause)),
                other => self.respond(other),
            },
        }
    }

    /// Whether the job stands within its document. Every job that `begin`,
    /// `from_events` or `open` made does, and `step` keeps it so.
    pub fn is_well_formed(&self) -> (r: bool)
        ensures
            r == self@.wf(),
    {
        let count: usize = self.blocks.len();
        self.index <= count && (self.is_done() || self.index < count)
    }

    /// What the upload of the job is to be marked with.
    pub fn status(&self) -> (r: UploadStatus)
        ensures
            r == outcome(self@),
    {
        match self.stage {
            Stage::Done => UploadStatus::Finished,
            _ => UploadStatus::Init,
        }
    }

    /// Whether every block was taken up.
    pub fn is_done(&self) -> (r: bool)
        ensures
            r == (self@.stage == Stage::Done),
    {
        match self.stage {
            Stage::Done => true,
            _ => false,
        }
    }

    /// Where the job stands.
    pub fn stage(&self) -> (r: Stage)
        ensures
            r == self@.stage,
    {
        self.stage
    }

    /// The transactions that were written so far.
    pub fn transactions(&self) -> (r: &Vec<Transaction>)
        ensures
            r@ == self@.transactions,
    {
        &self.transactions
    }

    /// Why each block that was set aside so far failed.
    pub fn skipped(&self) -> (r: &Vec<Error>)
        ensures
            error_views(r@) == self@.skipped,
    {
        &self.skipped
    }

    /// How many blocks the document holds.
    pub fn block_count(&self) -> (r: usize)
        ensures
            r == self@.blocks.len(),
    {
        self.blocks.len()
    }
}

} // verus!
