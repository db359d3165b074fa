//! What holds of every job, stated over whole runs.
//!
//! A run is a job together with the replies that it is given, one after
//! the other. The laws here say how many transactions a run writes, that a
//! record under a known natural key is never registered again, that an
//! unknown payor is refused without anything being asked of the payment
//! processor, and what a whole document of one or two blocks leads to.

use crate::entities::persist::{
    employee_resolution, payee_resolution, payor_resolution, unknown_payor_text, Decision,
};
use crate::entities::payment::payment_of;
use crate::entities::ErrorView;
use crate::ingest::{
    advance, advance_facts, asks_for_rows_or_nothing, fail_facts, initial, outcome, refusal, skip,
    step_model, written, IngestView, Reply, Stage,
};
use crate::schema::employee::Employee;
use crate::schema::transaction::Transaction;
use crate::schema::xml_parse::UploadStatus;
use crate::text::opt_text;
use crate::utility::parser::{Block, Malformed};
use vstd::prelude::*;

verus! {

/// The state that a job reaches from `m` when it is given the replies in
/// their order.
pub open spec fn run(m: IngestView, replies: Seq<Reply>) -> IngestView
    decreases replies.len(),
{
    if replies.len() == 0 {
        m
    } else {
        run(step_model(m, replies[0]).0, replies.skip(1))
    }
}

/// Every block that could be read names its employee, its payor and its
/// payee, so that each can be looked up.
pub open spec fn all_named(blocks: Seq<Result<Block, Malformed>>) -> bool {
    forall|i: int|
        0 <= i < blocks.len() ==> ((#[trigger] blocks[i]) is Ok ==> refusal(blocks[i]) is None)
}

/// How many blocks could be read.
pub open spec fn readable(blocks: Seq<Result<Block, Malformed>>) -> nat
    decreases blocks.len(),
{
    if blocks.len() == 0 {
        0
    } else {
        readable(blocks.drop_last()) + if blocks.last() is Ok {
            1nat
        } else {
            0nat
        }
    }
}

/// The reply answers what the job asked for, and lets the current block
/// go on: the store and the payment processor did their part, and the
/// rows that were found let the record be resolved (a row that was found
/// carries its canonical id, the payor is known, and a record that is new
/// holds what its registration needs).
pub open spec fn accepted(m: IngestView, reply: Reply) -> bool {
    match (m.stage, reply) {
        (Stage::AddressLookup, Reply::Addresses(_)) => true,
        (Stage::AddressInsert, Reply::Inserted(_)) => true,
        (Stage::EmployeeLookup, Reply::Employees(rows)) => employee_resolution(
            m.block.employee,
            rows@,
        ) is Ok,
        (Stage::EmployeeRegister, Reply::Entity(_)) => true,
        (Stage::EmployeeInsert, Reply::Inserted(_)) => true,
        (Stage::PayorLookup, Reply::Payors(rows)) => payor_resolution(m.block.payor, rows@)
            is Ok,
        (Stage::PayeeLookup, Reply::Payees(rows)) => m.block.employee.method_id matches Some(
            holder,
        ) && payee_resolution(m.block.payee, rows@, holder@) is Ok,
        (Stage::PayeeRegister, Reply::Account(_)) => true,
        (Stage::PayeeInsert, Reply::Inserted(_)) => true,
        (Stage::PaymentCreate, Reply::Payment(_)) => true,
        (Stage::TransactionInsert, Reply::Inserted(_)) => true,
        (Stage::Done, _) => true,
        _ => false,
    }
}

/// Every reply of the run is accepted by the state in which it arrives.
pub open spec fn all_accepted(m: IngestView, replies: Seq<Reply>) -> bool
    decreases replies.len(),
{
    replies.len() == 0 || (accepted(m, replies[0]) && all_accepted(
        step_model(m, replies[0]).0,
        replies.skip(1),
    ))
}

/// Whether the employee of the current block has its canonical id.
pub open spec fn past_employee(stage: Stage) -> bool {
    stage != Stage::AddressLookup && stage != Stage::AddressInsert && stage
        != Stage::EmployeeLookup && stage != Stage::EmployeeRegister
}

/// Whether the payor of the current block has its canonical id.
pub open spec fn past_payor(stage: Stage) -> bool {
    past_employee(stage) && stage != Stage::EmployeeInsert && stage != Stage::PayorLookup
}

/// Whether the payee of the current block has its canonical id.
pub open spec fn past_payee(stage: Stage) -> bool {
    past_payor(stage) && stage != Stage::PayeeLookup && stage != Stage::PayeeRegister
}

/// A job whose blocks so far were each written or could not be read, and
/// whose current block carries what the stages behind it have found.
pub open spec fn on_course(m: IngestView) -> bool {
    &&& m.wf()
    &&& all_named(m.blocks)
    &&& m.transactions.len() == readable(m.blocks.take(m.index))
    &&& m.skipped.len() + m.transactions.len() == m.index
    &&& m.stage == Stage::Done ==> m.index == m.blocks.len()
    &&& m.stage != Stage::Done ==> {
        &&& m.blocks[m.index] is Ok
        &&& m.tx.xml_id is Some
        &&& m.tx.amount is Some
        &&& m.stage == Stage::AddressLookup || m.stage == Stage::AddressInsert
            ==> m.block.address is Some
        &&& past_employee(m.stage) ==> m.block.employee.method_id is Some
        &&& past_payor(m.stage) ==> m.tx.payor_id is Some
        &&& past_payee(m.stage) ==> m.tx.payee_id is Some
    }
}

proof fn readable_step(blocks: Seq<Result<Block, Malformed>>, index: int)
    requires
        0 <= index < blocks.len(),
    ensures
        readable(blocks.take(index + 1)) == readable(blocks.take(index)) + if blocks[index]
            is Ok {
            1nat
        } else {
            0nat
        },
{
    assert(blocks.take(index + 1).drop_last() =~= blocks.take(index));
}

proof fn advance_on_course(m: IngestView)
    requires
        0 <= m.index <= m.blocks.len(),
        all_named(m.blocks),
        m.transactions.len() == readable(m.blocks.take(m.index)),
        m.skipped.len() + m.transactions.len() == m.index,
    ensures
        on_course(advance(m).0),
    decreases m.blocks.len() - m.index,
{
    advance_facts(m);
    if m.index < m.blocks.len() {
        readable_step(m.blocks, m.index);
        match refusal(m.blocks[m.index]) {
            Some(reason) => {
                advance_on_course(skip(m, reason));
            },
            None => {},
        }
    }
}

proof fn step_on_course(m: IngestView, reply: Reply)
    requires
        on_course(m),
        accepted(m, reply),
    ensures
        on_course(step_model(m, reply).0),
{
    let after = step_model(m, reply).0;
    match (m.stage, reply) {
        (Stage::AddressLookup, Reply::Addresses(rows)) => {
            assert(on_course(after));
        },
        (Stage::AddressInsert, Reply::Inserted(_)) => {
            assert(on_course(after));
        },
        (Stage::EmployeeLookup, Reply::Employees(rows)) => {
            assert(employee_resolution(m.block.employee, rows@) is Ok);
            assert(on_course(after));
        },
        (Stage::EmployeeRegister, Reply::Entity(_)) => {
            assert(on_course(after));
        },
        (Stage::EmployeeInsert, Reply::Inserted(_)) => {
            assert(on_course(after));
        },
        (Stage::PayorLookup, Reply::Payors(rows)) => {
            assert(payor_resolution(m.block.payor, rows@) is Ok);
            assert(on_course(after));
        },
        (Stage::PayeeLookup, Reply::Payees(rows)) => {
            let holder = m.block.employee.method_id->0;
            let decision = payee_resolution(m.block.payee, rows@, holder@);
            assert(decision is Ok);
            match decision {
                Ok(Decision::Reuse(id)) => {
                    let known = crate::ingest::with_payee_id(m, id);
                    assert(payment_of(known.tx) is Ok);
                },
                _ => {},
            }
            assert(on_course(after));
        },
        (Stage::PayeeRegister, Reply::Account(_)) => {
            assert(on_course(after));
        },
        (Stage::PayeeInsert, Reply::Inserted(_)) => {
            assert(payment_of(m.tx) is Ok);
            assert(on_course(after));
        },
        (Stage::PaymentCreate, Reply::Payment(_)) => {
            assert(on_course(after));
        },
        (Stage::TransactionInsert, Reply::Inserted(_)) => {
            readable_step(m.blocks, m.index);
            advance_on_course(written(m));
        },
        _ => {},
    }
}

proof fn run_on_course(m: IngestView, replies: Seq<Reply>)
    requires
        on_course(m),
        all_accepted(m, replies),
    ensures
        on_course(run(m, replies)),
    decreases replies.len(),
{
    if replies.len() > 0 {
        step_on_course(m, replies[0]);
        run_on_course(step_model(m, replies[0]).0, replies.skip(1));
    }
}

proof fn readable_of_all(blocks: Seq<Result<Block, Malformed>>)
    requires
        forall|i: int| 0 <= i < blocks.len() ==> (#[trigger] blocks[i]) is Ok,
    ensures
        readable(blocks) == blocks.len(),
    decreases blocks.len(),
{
    if blocks.len() > 0 {
        let rest = blocks.drop_last();
        assert forall|i: int| 0 <= i < rest.len() implies (#[trigger] rest[i]) is Ok by {
            assert(rest[i] == blocks[i]);
        }
        readable_of_all(rest);
    }
}

proof fn readable_but_one(blocks: Seq<Result<Block, Malformed>>, k: int)
    requires
        0 <= k < blocks.len(),
        blocks[k] is Err,
        forall|i: int| 0 <= i < blocks.len() && i != k ==> (#[trigger] blocks[i]) is Ok,
    ensures
        readable(blocks) == blocks.len() - 1,
    decreases blocks.len(),
{
    let rest = blocks.drop_last();
    if k == blocks.len() - 1 {
        assert forall|i: int| 0 <= i < rest.len() implies (#[trigger] rest[i]) is Ok by {
            assert(rest[i] == blocks[i]);
        }
        readable_of_all(rest);
    } else {
        assert(rest[k] == blocks[k]);
        assert forall|i: int| 0 <= i < rest.len() && i != k implies (#[trigger] rest[i])
            is Ok by {
            assert(rest[i] == blocks[i]);
        }
        readable_but_one(rest, k);
    }
}

/// A run all of whose replies are accepted writes one transaction for each
/// block that could be read and sets the others aside, and the upload ends
/// as `Finished`.
pub proof fn every_readable_block_is_written(
    upload_id: u64,
    blocks: Seq<Result<Block, Malformed>>,
    replies: Seq<Reply>,
)
    requires
        all_named(blocks),
        all_accepted(advance(initial(upload_id, blocks)).0, replies),
        run(advance(initial(upload_id, blocks)).0, replies).stage == Stage::Done,
    ensures
        run(advance(initial(upload_id, blocks)).0, replies).transactions.len() == readable(
            blocks,
        ),
        run(advance(initial(upload_id, blocks)).0, replies).skipped.len() == blocks.len()
            - readable(blocks),
        outcome(run(advance(initial(upload_id, blocks)).0, replies)) == UploadStatus::Finished,
{
    let start = initial(upload_id, blocks);
    assert(blocks.take(0) =~= Seq::<Result<Block, Malformed>>::empty());
    advance_on_course(start);
    advance_facts(start);
    run_on_course(advance(start).0, replies);
    run_keeps_document(advance(start).0, replies);
    let end = run(advance(start).0, replies);
    assert(end.blocks.take(end.index) =~= blocks);
}

/// A reply that is not accepted sets the current block aside: the job
/// writes no transaction for it and goes on behind it.
pub proof fn reply_that_is_not_accepted_sets_the_block_aside(m: IngestView, reply: Reply)
    requires
        on_course(m),
        !accepted(m, reply),
    ensures
        step_model(m, reply).0.skipped.len() > m.skipped.len(),
        step_model(m, reply).0.transactions == m.transactions,
        step_model(m, reply).0.index > m.index,
{
    fail_facts(m);
}

/// A document all of whose blocks can be read: an accepting run writes as
/// many transactions as the document has blocks, and sets none aside.
pub proof fn all_blocks_are_written(
    upload_id: u64,
    blocks: Seq<Result<Block, Malformed>>,
    replies: Seq<Reply>,
)
    requires
        forall|i: int| 0 <= i < blocks.len() ==> (#[trigger] blocks[i]) is Ok,
        all_named(blocks),
        all_accepted(advance(initial(upload_id, blocks)).0, replies),
        run(advance(initial(upload_id, blocks)).0, replies).stage == Stage::Done,
    ensures
        run(advance(initial(upload_id, blocks)).0, replies).transactions.len() == blocks.len(),
        run(advance(initial(upload_id, blocks)).0, replies).skipped.len() == 0,
        outcome(run(advance(initial(upload_id, blocks)).0, replies)) == UploadStatus::Finished,
{
    every_readable_block_is_written(upload_id, blocks, replies);
    readable_of_all(blocks);
}

/// A document one of whose blocks lacks a record or holds an unreadable
/// number: an accepting run writes a transaction for every other block,
/// sets that one aside, and the upload still ends as `Finished`.
pub proof fn a_malformed_block_is_skipped(
    upload_id: u64,
    blocks: Seq<Result<Block, Malformed>>,
    k: int,
    replies: Seq<Reply>,
)
    requires
        0 <= k < blocks.len(),
        blocks[k] is Err,
        forall|i: int| 0 <= i < blocks.len() && i != k ==> (#[trigger] blocks[i]) is Ok,
        all_named(blocks),
        all_accepted(advance(initial(upload_id, blocks)).0, replies),
        run(advance(initial(upload_id, blocks)).0, replies).stage == Stage::Done,
    ensures
        run(advance(initial(upload_id, blocks)).0, replies).transactions.len() == blocks.len()
            - 1,
        run(advance(initial(upload_id, blocks)).0, replies).skipped.len() == 1,
        outcome(run(advance(initial(upload_id, blocks)).0, replies)) == UploadStatus::Finished,
{
    every_readable_block_is_written(upload_id, blocks, replies);
    readable_but_one(blocks, k);
}

/// A run leaves the document as it is.
pub proof fn run_keeps_document(m: IngestView, replies: Seq<Reply>)
    requires
        m.wf(),
    ensures
        run(m, replies).wf(),
        run(m, replies).blocks == m.blocks,
        run(m, replies).upload_id == m.upload_id,
    decreases replies.len(),
{
    if replies.len() > 0 {
        crate::ingest::step_keeps_wf(m, replies[0]);
        run_keeps_document(step_model(m, replies[0]).0, replies.skip(1));
    }
}

/// Whatever the replies, every block that a finished job has behind it was
/// either written or set aside: no block is lost and none counts twice.
pub proof fn every_block_is_accounted_for(m: IngestView, replies: Seq<Reply>)
    requires
        m.wf(),
        m.transactions.len() + m.skipped.len() == m.index,
    ensures
        run(m, replies).transactions.len() + run(m, replies).skipped.len() == run(
            m,
            replies,
        ).index,
        run(m, replies).stage == Stage::Done && m.stage != Stage::Done ==> run(m, replies).index
            == m.blocks.len(),
    decreases replies.len(),
{
    if replies.len() > 0 {
        step_accounts(m, replies[0]);
        crate::ingest::step_keeps_wf(m, replies[0]);
        let next = step_model(m, replies[0]).0;
        every_block_is_accounted_for(next, replies.skip(1));
        run_keeps_document(next, replies.skip(1));
        if next.stage == Stage::Done {
            done_stays(next, replies.skip(1));
        }
    }
}

proof fn done_stays(m: IngestView, replies: Seq<Reply>)
    requires
        m.stage == Stage::Done,
    ensures
        run(m, replies) == m,
    decreases replies.len(),
{
    if replies.len() > 0 {
        done_stays(m, replies.skip(1));
    }
}

proof fn step_accounts(m: IngestView, reply: Reply)
    requires
        m.wf(),
        m.transactions.len() + m.skipped.len() == m.index,
    ensures
        step_model(m, reply).0.transactions.len() + step_model(m, reply).0.skipped.len()
            == step_model(m, reply).0.index,
        step_model(m, reply).0.stage == Stage::Done && m.stage != Stage::Done ==> step_model(
            m,
            reply,
        ).0.index == m.blocks.len(),
{
    if m.stage != Stage::Done {
        fail_facts(m);
        advance_facts(written(m));
    }
}

/// A transaction that lacks nothing: it carries its own canonical id and
/// those of its three records, its upload and its amount.
pub open spec fn whole(t: Transaction) -> bool {
    &&& t.method_id is Some
    &&& t.employee_id is Some
    &&& t.payor_id is Some
    &&& t.payee_id is Some
    &&& t.xml_id is Some
    &&& t.amount is Some
}

/// A job all of whose written transactions are whole, and whose current
/// transaction carries what the stages behind it have found.
pub open spec fn in_order(m: IngestView) -> bool {
    &&& m.wf()
    &&& forall|i: int|
        0 <= i < m.transactions.len() ==> whole(#[trigger] m.transactions[i])
            && m.transactions[i].xml_id == Some(m.upload_id)
    &&& m.stage != Stage::Done ==> {
        &&& m.tx.xml_id == Some(m.upload_id)
        &&& m.tx.amount is Some
        &&& past_employee(m.stage) ==> m.tx.employee_id is Some
        &&& past_payor(m.stage) ==> m.tx.payor_id is Some
        &&& past_payee(m.stage) ==> m.tx.payee_id is Some
        &&& m.stage == Stage::TransactionInsert ==> m.tx.method_id is Some
    }
}

proof fn step_in_order(m: IngestView, reply: Reply)
    requires
        in_order(m),
    ensures
        in_order(step_model(m, reply).0),
{
    if m.stage != Stage::Done {
        fail_facts(m);
        if m.stage == Stage::TransactionInsert {
            let next = written(m);
            assert forall|i: int| 0 <= i < next.transactions.len() implies whole(
                #[trigger] next.transactions[i],
            ) && next.transactions[i].xml_id == Some(next.upload_id) by {
                if i < m.transactions.len() {
                    assert(next.transactions[i] == m.transactions[i]);
                }
            }
            advance_facts(next);
        }
    }
}

proof fn run_in_order(m: IngestView, replies: Seq<Reply>)
    requires
        in_order(m),
    ensures
        in_order(run(m, replies)),
    decreases replies.len(),
{
    if replies.len() > 0 {
        step_in_order(m, replies[0]);
        run_in_order(step_model(m, replies[0]).0, replies.skip(1));
    }
}

/// Whatever the replies, no transaction is written in part: each one that
/// a job has written carries the canonical id that the payment processor
/// gave it, those of its employee, its payor and its payee, and the upload
/// of the job.
pub proof fn every_written_transaction_is_whole(
    upload_id: u64,
    blocks: Seq<Result<Block, Malformed>>,
    replies: Seq<Reply>,
)
    ensures
        forall|i: int|
            0 <= i < run(advance(initial(upload_id, blocks)).0, replies).transactions.len()
                ==> whole(
                #[trigger] run(advance(initial(upload_id, blocks)).0, replies).transactions[i],
            ) && run(advance(initial(upload_id, blocks)).0, replies).transactions[i].xml_id
                == Some(upload_id),
{
    advance_facts(initial(upload_id, blocks));
    run_keeps_document(advance(initial(upload_id, blocks)).0, replies);
    advance_facts(initial(upload_id, blocks));
    run_in_order(advance(initial(upload_id, blocks)).0, replies);
}

/// How far a stage is into its block.
pub open spec fn rank(stage: Stage) -> nat {
    match stage {
        Stage::AddressLookup => 0,
        Stage::AddressInsert => 1,
        Stage::EmployeeLookup => 2,
        Stage::EmployeeRegister => 3,
        Stage::EmployeeInsert => 4,
        Stage::PayorLookup => 5,
        Stage::PayeeLookup => 6,
        Stage::PayeeRegister => 7,
        Stage::PayeeInsert => 8,
        Stage::PaymentCreate => 9,
        Stage::TransactionInsert => 10,
        Stage::Done => 11,
    }
}

/// How many replies a job can still take before it is done, at most:
/// eleven for each block to come, less what the current block has had.
pub open spec fn steps_left(m: IngestView) -> nat {
    if m.stage == Stage::Done {
        0
    } else {
        ((m.blocks.len() - m.index) * 11 - rank(m.stage)) as nat
    }
}

proof fn step_uses_a_step(m: IngestView, reply: Reply)
    requires
        m.wf(),
        m.stage != Stage::Done,
    ensures
        steps_left(step_model(m, reply).0) < steps_left(m),
{
    fail_facts(m);
    advance_facts(written(m));
}

/// A job comes to its end: whatever the replies, it is done after at most
/// `steps_left` of them.
pub proof fn every_job_ends(m: IngestView, replies: Seq<Reply>)
    requires
        m.wf(),
        replies.len() >= steps_left(m),
    ensures
        run(m, replies).stage == Stage::Done,
    decreases replies.len(),
{
    if m.stage == Stage::Done {
        done_stays(m, replies);
    } else {
        step_uses_a_step(m, replies[0]);
        crate::ingest::step_keeps_wf(m, replies[0]);
        every_job_ends(step_model(m, replies[0]).0, replies.skip(1));
    }
}

/// A job is over after at most eleven replies for each block of its
/// document.
pub proof fn job_ends_within_eleven_replies_a_block(
    upload_id: u64,
    blocks: Seq<Result<Block, Malformed>>,
    replies: Seq<Reply>,
)
    requires
        replies.len() >= 11 * blocks.len(),
    ensures
        run(advance(initial(upload_id, blocks)).0, replies).stage == Stage::Done,
{
    let start = initial(upload_id, blocks);
    advance_facts(start);
    every_job_ends(advance(start).0, replies);
}

/// The rows of the store that an employee's natural id finds.
pub open spec fn employees_under(rows: Seq<Employee>, id: Seq<char>) -> Seq<Employee>
    decreases rows.len(),
{
    if rows.len() == 0 {
        Seq::empty()
    } else if opt_text(rows.last().dunkin_id) == Some(id) {
        employees_under(rows.drop_last(), id).push(rows.last())
    } else {
        employees_under(rows.drop_last(), id)
    }
}

/// An employee that is met twice is registered once. Where the store holds
/// no row under the natural id of `first`, resolving it asks for a
/// registration or fails; once its row is written with the canonical id
/// that the registration gave, the store holds that one row under the id,
/// and resolving `second`, which has the same natural id, takes that
/// canonical id over and registers nothing.
pub proof fn same_employee_is_registered_once(
    rows: Seq<Employee>,
    first: Employee,
    second: Employee,
    canonical: String,
)
    requires
        first.dunkin_id is Some,
        opt_text(second.dunkin_id) == opt_text(first.dunkin_id),
        employees_under(rows, first.dunkin_id->0@).len() == 0,
    ensures
        !(employee_resolution(first, employees_under(rows, first.dunkin_id->0@))
            is Ok) || employee_resolution(first, employees_under(rows, first.dunkin_id->0@))
            ->Ok_0 is Register,
        employees_under(
            rows.push(Employee { method_id: Some(canonical), ..first }),
            second.dunkin_id->0@,
        ) == seq![Employee { method_id: Some(canonical), ..first }],
        employee_resolution(
            second,
            employees_under(
                rows.push(Employee { method_id: Some(canonical), ..first }),
                second.dunkin_id->0@,
            ),
        ) == Ok::<Decision<crate::entities::entity::EntityView>, ErrorView>(
            Decision::Reuse(canonical),
        ),
{
    let written = Employee { method_id: Some(canonical), ..first };
    let id = first.dunkin_id->0@;
    assert(rows.push(written).drop_last() =~= rows);
    assert(employees_under(rows, id) =~= Seq::<Employee>::empty());
    assert(employees_under(rows.push(written), id) =~= seq![written]);
}

/// An employee whose natural id the store knows is not registered and not
/// written: the next thing asked for is rows, or nothing.
pub proof fn known_employee_is_not_registered(m: IngestView, reply: Reply)
    requires
        m.wf(),
        m.stage == Stage::EmployeeLookup,
        reply matches Reply::Employees(rows) && rows@.len() > 0,
    ensures
        asks_for_rows_or_nothing(step_model(m, reply).1),
{
    fail_facts(m);
}

/// A payor whose natural id the store does not know is refused: its block
/// is set aside with a data error that names the id, no transaction is
/// written for it, and the next thing asked for is rows, or nothing. The
/// payment processor is not asked for anything.
pub proof fn unknown_payor_is_refused(m: IngestView, reply: Reply)
    requires
        m.wf(),
        m.stage == Stage::PayorLookup,
        m.block.payor.dunkin_id is Some,
        reply matches Reply::Payors(rows) && rows@.len() == 0,
    ensures
        payor_resolution(m.block.payor, Seq::empty()) == Err::<String, ErrorView>(
            ErrorView::InvalidDataError(unknown_payor_text(m.block.payor)),
        ),
        step_model(m, reply).0.skipped.len() > m.skipped.len(),
        step_model(m, reply).0.skipped[m.skipped.len() as int] == ErrorView::InvalidDataError(
            unknown_payor_text(m.block.payor),
        ),
        step_model(m, reply).0.transactions == m.transactions,
        asks_for_rows_or_nothing(step_model(m, reply).1),
{
    fail_facts(m);
}

/// A record without a natural id is never registered and never written:
/// resolving it fails with a data error, whatever rows are handed in.
pub proof fn record_without_natural_id_is_refused(
    employee: Employee,
    payor: crate::schema::payor::Payor,
    payee: crate::schema::payee::Payee,
    employees: Seq<Employee>,
    payors: Seq<crate::schema::payor::Payor>,
    payees: Seq<crate::schema::payee::Payee>,
    holder: Seq<char>,
)
    ensures
        employee.dunkin_id is None ==> employee_resolution(employee, employees) is Err,
        payor.dunkin_id is None ==> payor_resolution(payor, payors) is Err,
        payee.plaid_id is None ==> payee_resolution(payee, payees, holder) is Err,
{
}

/// Running one list of replies and then another is running both in a row.
pub proof fn run_in_two_parts(m: IngestView, first: Seq<Reply>, rest: Seq<Reply>)
    ensures
        run(m, first + rest) == run(run(m, first), rest),
    decreases first.len(),
{
    if first.len() == 0 {
        assert(first + rest =~= rest);
    } else {
        assert((first + rest)[0] == first[0]);
        assert((first + rest).skip(1) =~= first.skip(1) + rest);
        run_in_two_parts(step_model(m, first[0]).0, first.skip(1), rest);
    }
}

/// The replies that resolve the address of a block: none where the block
/// has no address; the rows found, where the store holds the address; or
/// no rows and then the id under which the address was written.
pub open spec fn answers_address(b: Block, address: Seq<Reply>) -> bool {
    match b.address {
        None => address.len() == 0,
        Some(_) => {
            ||| address.len() == 1 && (address[0] matches Reply::Addresses(rows) && rows@.len()
                > 0)
            ||| address.len() == 2 && (address[0] matches Reply::Addresses(rows) && rows@.len()
                == 0) && address[1] is Inserted
        },
    }
}

/// The replies that a block meets whose employee and payee the store does
/// not know yet and whose payor it knows, where store and payment
/// processor do their part: for the employee no rows, the registration
/// and the writing; for the payor its rows; for the payee no rows, the
/// registration and the writing; then the payment and the writing of the
/// transaction.
pub open spec fn first_time_replies(
    employees: Reply,
    entity: Reply,
    employee_written: Reply,
    payors: Reply,
    payees: Reply,
    account: Reply,
    payee_written: Reply,
    payment: Reply,
    written: Reply,
) -> Seq<Reply> {
    seq![
        employees,
        entity,
        employee_written,
        payors,
        payees,
        account,
        payee_written,
        payment,
        written,
    ]
}

proof fn run_of_one(m: IngestView, a: Reply)
    ensures
        run(m, seq![a]) == step_model(m, a).0,
{
    reveal_with_fuel(run, 2);
    assert(seq![a].skip(1).len() == 0);
}

proof fn run_of_two(m: IngestView, a: Reply, b: Reply)
    ensures
        run(m, seq![a, b]) == step_model(step_model(m, a).0, b).0,
{
    assert(seq![a, b] =~= seq![a] + seq![b]);
    run_in_two_parts(m, seq![a], seq![b]);
    run_of_one(m, a);
    run_of_one(step_model(m, a).0, b);
}

proof fn run_of_three(m: IngestView, a: Reply, b: Reply, c: Reply)
    ensures
        run(m, seq![a, b, c]) == step_model(step_model(step_model(m, a).0, b).0, c).0,
{
    assert(seq![a, b, c] =~= seq![a, b] + seq![c]);
    run_in_two_parts(m, seq![a, b], seq![c]);
    run_of_two(m, a, b);
    run_of_one(step_model(step_model(m, a).0, b).0, c);
}

proof fn address_is_resolved(m: IngestView, address: Seq<Reply>)
    requires
        crate::ingest::just_entered(m),
        answers_address(m.block, address),
    ensures
        run(m, address).stage == Stage::EmployeeLookup,
        run(m, address).block.employee == m.block.employee,
        run(m, address).block.payee == m.block.payee,
        run(m, address).block.amount == m.block.amount,
        run(m, address).block.payor.dunkin_id == m.block.payor.dunkin_id,
        run(m, address).tx == m.tx,
        run(m, address).index == m.index,
        run(m, address).blocks == m.blocks,
        run(m, address).upload_id == m.upload_id,
        run(m, address).transactions == m.transactions,
        run(m, address).skipped == m.skipped,
{
    if m.block.address is Some {
        if address.len() == 2 {
            assert(address =~= seq![address[0], address[1]]);
            run_of_two(m, address[0], address[1]);
        } else {
            assert(address =~= seq![address[0]]);
            run_of_one(m, address[0]);
        }
    } else {
        assert(address =~= Seq::<Reply>::empty());
    }
}

/// A new employee is registered and written: three replies lead from the
/// lookup of the employee to the lookup of the payor, and the employee and
/// the transaction carry the canonical id that the registration gave.
proof fn new_employee_is_resolved(m: IngestView, employees: Reply, entity: Reply, done: Reply)
    requires
        m.wf(),
        m.stage == Stage::EmployeeLookup,
        m.block.employee.dunkin_id is Some,
        crate::entities::entity::entity_of(m.block.employee) is Ok,
        employees matches Reply::Employees(rows) && rows@.len() == 0,
        entity is Entity,
        done is Inserted,
    ensures
        run(m, seq![employees, entity, done]) == (IngestView {
            stage: Stage::PayorLookup,
            ..crate::ingest::with_employee_id(m, entity->Entity_0.id)
        }),
{
    run_of_three(m, employees, entity, done);
}

/// A known employee is taken over: one reply leads from the lookup of the
/// employee to the lookup of the payor, and the employee and the
/// transaction carry the canonical id of the first row.
proof fn known_employee_is_resolved(m: IngestView, employees: Reply)
    requires
        m.wf(),
        m.stage == Stage::EmployeeLookup,
        m.block.employee.dunkin_id is Some,
        employees matches Reply::Employees(rows) && rows@.len() > 0 && rows@[0].method_id
            is Some,
    ensures
        run(m, seq![employees]) == (IngestView {
            stage: Stage::PayorLookup,
            ..crate::ingest::with_employee_id(m, employees->Employees_0@[0].method_id->0)
        }),
{
    run_of_one(m, employees);
}

/// A known payor is taken over: one reply leads from its lookup to the
/// lookup of the payee.
proof fn known_payor_is_resolved(m: IngestView, payors: Reply)
    requires
        m.wf(),
        m.stage == Stage::PayorLookup,
        m.block.payor.dunkin_id is Some,
        payors matches Reply::Payors(rows) && rows@.len() > 0 && rows@[0].method_id is Some,
    ensures
        run(m, seq![payors]) == (IngestView {
            stage: Stage::PayeeLookup,
            ..crate::ingest::with_payor_id(m, payors->Payors_0@[0].method_id->0)
        }),
{
    run_of_one(m, payors);
}

/// A new payee is registered and written: three replies lead from its
/// lookup to the payment.
proof fn new_payee_is_resolved(m: IngestView, payees: Reply, account: Reply, done: Reply)
    requires
        m.wf(),
        m.stage == Stage::PayeeLookup,
        m.block.employee.method_id is Some,
        m.block.payee.plaid_id is Some,
        crate::entities::account::dest_account_of(m.block.payee) is Ok,
        m.tx.amount is Some,
        m.tx.payor_id is Some,
        m.tx.xml_id is Some,
        payees matches Reply::Payees(rows) && rows@.len() == 0,
        account is Account,
        done is Inserted,
    ensures
        run(m, seq![payees, account, done]) == (IngestView {
            stage: Stage::PaymentCreate,
            ..crate::ingest::with_payee_id(m, account->Account_0.id)
        }),
{
    run_of_three(m, payees, account, done);
}

/// A known payee is taken over: one reply leads from its lookup to the
/// payment.
proof fn known_payee_is_resolved(m: IngestView, payees: Reply)
    requires
        m.wf(),
        m.stage == Stage::PayeeLookup,
        m.block.employee.method_id is Some,
        m.block.payee.plaid_id is Some,
        m.tx.amount is Some,
        m.tx.payor_id is Some,
        m.tx.xml_id is Some,
        payees matches Reply::Payees(rows) && rows@.len() > 0 && rows@[0].method_id is Some,
    ensures
        run(m, seq![payees]) == (IngestView {
            stage: Stage::PaymentCreate,
            ..crate::ingest::with_payee_id(m, payees->Payees_0@[0].method_id->0)
        }),
{
    run_of_one(m, payees);
}

/// The payment is made and the transaction written: two replies lead from
/// the payment to the next block, and the transaction that was written
/// carries the canonical id that the payment gave.
proof fn payment_is_made(m: IngestView, payment: Reply, done: Reply)
    requires
        m.wf(),
        m.stage == Stage::PaymentCreate,
        payment is Payment,
        done is Inserted,
    ensures
        run(m, seq![payment, done]) == advance(
            written(
                IngestView {
                    stage: Stage::TransactionInsert,
                    tx: Transaction { method_id: Some(payment->Payment_0.id), ..m.tx },
                    ..m
                },
            ),
        ).0,
{
    run_of_two(m, payment, done);
}

/// Once the payment is made, the row whose writing the job asks for is the
/// transaction of the block with the canonical id that the payment gave.
pub proof fn payment_asks_for_the_row_of_the_transaction(m: IngestView, payment: Reply)
    requires
        m.stage == Stage::PaymentCreate,
        payment is Payment,
    ensures
        step_model(m, payment).0.stage == Stage::TransactionInsert,
        step_model(m, payment).0.tx == (Transaction {
            method_id: Some(payment->Payment_0.id),
            ..m.tx
        }),
        step_model(m, payment).1 == crate::ingest::insert_view(
            crate::schema::Table::Transactions,
            <Transaction as crate::schema::CRUD<String>>::fields_of(),
            <Transaction as crate::schema::CRUD<String>>::values_of(
                &(Transaction { method_id: Some(payment->Payment_0.id), ..m.tx }),
            ),
        ),
{
}

/// A document with one block whose employee and payee are new and whose
/// payor is known: where store and payment processor do their part, the
/// job ends with exactly one transaction written and none set aside, and
/// the transaction carries the canonical ids that were found and given:
/// the employee's and the payee's from their registrations, the payor's
/// from its first row, its own from the payment; and the upload and the
/// amount of the block.
pub proof fn one_new_block_is_written_with_its_ids(
    upload_id: u64,
    b: Block,
    address: Seq<Reply>,
    employees: Reply,
    entity: Reply,
    employee_written: Reply,
    payors: Reply,
    payees: Reply,
    account: Reply,
    payee_written: Reply,
    payment: Reply,
    transaction_written: Reply,
)
    requires
        refusal(Ok(b)) is None,
        crate::entities::entity::entity_of(b.employee) is Ok,
        crate::entities::account::dest_account_of(b.payee) is Ok,
        answers_address(b, address),
        employees matches Reply::Employees(rows) && rows@.len() == 0,
        entity is Entity,
        employee_written is Inserted,
        payors matches Reply::Payors(rows) && rows@.len() > 0 && rows@[0].method_id is Some,
        payees matches Reply::Payees(rows) && rows@.len() == 0,
        account is Account,
        payee_written is Inserted,
        payment is Payment,
        transaction_written is Inserted,
    ensures
        ({
            let end = run(
                advance(initial(upload_id, seq![Ok(b)])).0,
                address + first_time_replies(
                    employees,
                    entity,
                    employee_written,
                    payors,
                    payees,
                    account,
                    payee_written,
                    payment,
                    transaction_written,
                ),
            );
            &&& end.stage == Stage::Done
            &&& end.skipped.len() == 0
            &&& end.transactions == seq![
                Transaction {
                    method_id: Some(payment->Payment_0.id),
                    employee_id: Some(entity->Entity_0.id),
                    payee_id: Some(account->Account_0.id),
                    payor_id: payors->Payors_0@[0].method_id,
                    xml_id: Some(upload_id),
                    amount: Some(b.amount),
                },
            ]
        }),
{
    let blocks = seq![Ok::<Block, Malformed>(b)];
    let start = advance(initial(upload_id, blocks)).0;
    let main = first_time_replies(
        employees,
        entity,
        employee_written,
        payors,
        payees,
        account,
        payee_written,
        payment,
        transaction_written,
    );
    let one = seq![employees, entity, employee_written];
    let two = seq![payors];
    let three = seq![payees, account, payee_written];
    let four = seq![payment, transaction_written];
    assert(address + main =~= address + one + two + three + four);
    advance_facts(initial(upload_id, blocks));
    address_is_resolved(start, address);
    let s0 = run(start, address);
    new_employee_is_resolved(s0, employees, entity, employee_written);
    let s1 = run(s0, one);
    known_payor_is_resolved(s1, payors);
    let s2 = run(s1, two);
    new_payee_is_resolved(s2, payees, account, payee_written);
    let s3 = run(s2, three);
    payment_is_made(s3, payment, transaction_written);
    let s4 = run(s3, four);
    let last = written(
        IngestView {
            stage: Stage::TransactionInsert,
            tx: Transaction { method_id: Some(payment->Payment_0.id), ..s3.tx },
            ..s3
        },
    );
    advance_facts(last);
    run_in_two_parts(start, address, one);
    run_in_two_parts(start, address + one, two);
    run_in_two_parts(start, address + one + two, three);
    run_in_two_parts(start, address + one + two + three, four);
    assert(s4.transactions =~= seq![s4.transactions[0]]);
}

/// Two kinds of request that a law may count.
pub enum Asked {
    /// The registration of a person with the payment processor.
    Registration,
    /// The writing of a row of an employee.
    EmployeeRow,
}

/// Whether a request is of the kind.
pub open spec fn counts(kind: Asked, request: crate::ingest::RequestView) -> bool {
    match kind {
        Asked::Registration => request is RegisterEntity,
        Asked::EmployeeRow => request matches crate::ingest::RequestView::Insert { table, .. }
            && table == crate::schema::Table::Employees,
    }
}

/// How often a job asks for something of the kind in the course of a run.
pub open spec fn times_asked(kind: Asked, m: IngestView, replies: Seq<Reply>) -> nat
    decreases replies.len(),
{
    if replies.len() == 0 {
        0
    } else {
        let once = if counts(kind, step_model(m, replies[0]).1) {
            1nat
        } else {
            0nat
        };
        once + times_asked(kind, step_model(m, replies[0]).0, replies.skip(1))
    }
}

/// What is asked in two runs in a row is what is asked in the first and
/// what is asked in the second.
pub proof fn asked_in_two_parts(kind: Asked, m: IngestView, first: Seq<Reply>, rest: Seq<Reply>)
    ensures
        times_asked(kind, m, first + rest) == times_asked(kind, m, first) + times_asked(
            kind,
            run(m, first),
            rest,
        ),
    decreases first.len(),
{
    if first.len() == 0 {
        assert(first + rest =~= rest);
    } else {
        assert((first + rest)[0] == first[0]);
        assert((first + rest).skip(1) =~= first.skip(1) + rest);
        asked_in_two_parts(kind, step_model(m, first[0]).0, first.skip(1), rest);
    }
}

proof fn asked_of_one(kind: Asked, m: IngestView, a: Reply)
    ensures
        times_asked(kind, m, seq![a]) == if counts(kind, step_model(m, a).1) {
            1nat
        } else {
            0nat
        },
{
    reveal_with_fuel(times_asked, 2);
    assert(seq![a].skip(1).len() == 0);
}

proof fn asked_of_two(kind: Asked, m: IngestView, a: Reply, b: Reply)
    ensures
        times_asked(kind, m, seq![a, b]) == times_asked(kind, m, seq![a]) + times_asked(
            kind,
            step_model(m, a).0,
            seq![b],
        ),
{
    assert(seq![a, b] =~= seq![a] + seq![b]);
    asked_in_two_parts(kind, m, seq![a], seq![b]);
    run_of_one(m, a);
}

proof fn asked_of_three(kind: Asked, m: IngestView, a: Reply, b: Reply, c: Reply)
    ensures
        times_asked(kind, m, seq![a, b, c]) == times_asked(kind, m, seq![a]) + times_asked(
            kind,
            step_model(m, a).0,
            seq![b],
        ) + times_asked(kind, step_model(step_model(m, a).0, b).0, seq![c]),
{
    assert(seq![a, b, c] =~= seq![a, b] + seq![c]);
    asked_in_two_parts(kind, m, seq![a, b], seq![c]);
    asked_of_two(kind, m, a, b);
    run_of_two(m, a, b);
}

/// The replies that resolve a payee: its rows, where the store holds it
/// with its canonical id; or no rows, the registration and the writing,
/// where it is new and holds what its registration needs.
pub open spec fn answers_payee(payee: crate::schema::payee::Payee, replies: Seq<Reply>) -> bool {
    ||| replies.len() == 1 && (replies[0] matches Reply::Payees(rows) && rows@.len() > 0
        && rows@[0].method_id is Some)
    ||| replies.len() == 3 && (replies[0] matches Reply::Payees(rows) && rows@.len() == 0)
        && replies[1] is Account && replies[2] is Inserted
        && crate::entities::account::dest_account_of(payee) is Ok
}

/// The replies of one block whose payor is known, behind those for its
/// address: for the employee, for the payor, for the payee, for the
/// payment and for the writing of the transaction.
pub open spec fn block_replies(
    address: Seq<Reply>,
    employee: Seq<Reply>,
    payors: Reply,
    payee: Seq<Reply>,
    payment: Reply,
    transaction_written: Reply,
) -> Seq<Reply> {
    address + employee + seq![payors] + payee + seq![payment, transaction_written]
}

/// What a block leaves behind once its transaction is written: the
/// transaction is added to what was written, and the job stands on the
/// next block, if that can be taken up, or is done behind the last one,
/// with nothing more set aside.
pub open spec fn block_is_written(m: IngestView, n: IngestView, employee_id: String) -> bool {
    &&& n.blocks == m.blocks
    &&& n.upload_id == m.upload_id
    &&& n.transactions.len() == m.transactions.len() + 1
    &&& n.transactions.take(m.transactions.len() as int) == m.transactions
    &&& n.transactions.last().employee_id == Some(employee_id)
    &&& n.wf()
    &&& m.index + 1 == m.blocks.len() ==> n.stage == Stage::Done && n.skipped == m.skipped
    &&& m.index + 1 < m.blocks.len() && refusal(m.blocks[m.index + 1]) is None
        ==> crate::ingest::just_entered(n) && n.index == m.index + 1 && n.skipped == m.skipped
}

proof fn address_asks_for_no_one(kind: Asked, m: IngestView, address: Seq<Reply>)
    requires
        crate::ingest::just_entered(m),
        answers_address(m.block, address),
    ensures
        times_asked(kind, m, address) == 0,
{
    if m.block.address is Some {
        if address.len() == 2 {
            assert(address =~= seq![address[0], address[1]]);
            asked_of_two(kind, m, address[0], address[1]);
            asked_of_one(kind, m, address[0]);
            asked_of_one(kind, step_model(m, address[0]).0, address[1]);
        } else {
            assert(address =~= seq![address[0]]);
            asked_of_one(kind, m, address[0]);
        }
    } else {
        assert(address =~= Seq::<Reply>::empty());
    }
}

proof fn payee_is_resolved(kind: Asked, m: IngestView, payee: Seq<Reply>)
    requires
        m.wf(),
        m.stage == Stage::PayeeLookup,
        m.block.employee.method_id is Some,
        m.block.payee.plaid_id is Some,
        m.tx.amount is Some,
        m.tx.payor_id is Some,
        m.tx.xml_id is Some,
        answers_payee(m.block.payee, payee),
    ensures
        run(m, payee).stage == Stage::PaymentCreate,
        run(m, payee).tx.employee_id == m.tx.employee_id,
        run(m, payee).index == m.index,
        run(m, payee).blocks == m.blocks,
        run(m, payee).upload_id == m.upload_id,
        run(m, payee).transactions == m.transactions,
        run(m, payee).skipped == m.skipped,
        times_asked(kind, m, payee) == 0,
{
    if payee.len() == 1 {
        assert(payee =~= seq![payee[0]]);
        known_payee_is_resolved(m, payee[0]);
        asked_of_one(kind, m, payee[0]);
    } else {
        assert(payee =~= seq![payee[0], payee[1], payee[2]]);
        new_payee_is_resolved(m, payee[0], payee[1], payee[2]);
        asked_of_three(kind, m, payee[0], payee[1], payee[2]);
        asked_of_one(kind, m, payee[0]);
        asked_of_one(kind, step_model(m, payee[0]).0, payee[1]);
        asked_of_one(kind, step_model(step_model(m, payee[0]).0, payee[1]).0, payee[2]);
    }
}

proof fn payment_closes_the_block(kind: Asked, m: IngestView, payment: Reply, done: Reply)
    requires
        m.wf(),
        m.stage == Stage::PaymentCreate,
        payment is Payment,
        done is Inserted,
    ensures
        block_is_written(m, run(m, seq![payment, done]), m.tx.employee_id->0) || m.tx.employee_id
            is None,
        times_asked(kind, m, seq![payment, done]) == 0,
{
    payment_is_made(m, payment, done);
    let last = written(
        IngestView {
            stage: Stage::TransactionInsert,
            tx: Transaction { method_id: Some(payment->Payment_0.id), ..m.tx },
            ..m
        },
    );
    advance_facts(last);
    let n = advance(last).0;
    assert(n.transactions.take(m.transactions.len() as int) =~= m.transactions);
    asked_of_two(kind, m, payment, done);
    asked_of_one(kind, m, payment);
    asked_of_one(kind, step_model(m, payment).0, done);
}

/// What the rest of a block does once its employee is resolved: the payor
/// is taken over, the payee resolved, the payment made and the
/// transaction written, and nothing is asked that a law counts.
proof fn rest_of_block(
    kind: Asked,
    m: IngestView,
    payors: Reply,
    payee: Seq<Reply>,
    payment: Reply,
    done: Reply,
)
    requires
        m.wf(),
        m.stage == Stage::PayorLookup,
        m.block.employee.method_id is Some,
        m.block.payor.dunkin_id is Some,
        m.block.payee.plaid_id is Some,
        m.tx.employee_id is Some,
        m.tx.amount is Some,
        m.tx.xml_id is Some,
        payors matches Reply::Payors(rows) && rows@.len() > 0 && rows@[0].method_id is Some,
        answers_payee(m.block.payee, payee),
        payment is Payment,
        done is Inserted,
    ensures
        block_is_written(
            m,
            run(m, seq![payors] + payee + seq![payment, done]),
            m.tx.employee_id->0,
        ),
        times_asked(kind, m, seq![payors] + payee + seq![payment, done]) == 0,
{
    let one = seq![payors];
    let last = seq![payment, done];
    known_payor_is_resolved(m, payors);
    asked_of_one(kind, m, payors);
    let s1 = run(m, one);
    payee_is_resolved(kind, s1, payee);
    let s2 = run(s1, payee);
    payment_closes_the_block(kind, s2, payment, done);
    run_in_two_parts(m, one, payee);
    run_in_two_parts(m, one + payee, last);
    asked_in_two_parts(kind, m, one, payee);
    asked_in_two_parts(kind, m, one + payee, last);
}

/// A block whose employee is new, from its first request to the writing
/// of its transaction: the employee is registered once and written once,
/// and the transaction carries the canonical id that the registration
/// gave.
proof fn block_with_new_employee(
    kind: Asked,
    m: IngestView,
    address: Seq<Reply>,
    employees: Reply,
    entity: Reply,
    employee_written: Reply,
    payors: Reply,
    payee: Seq<Reply>,
    payment: Reply,
    done: Reply,
)
    requires
        crate::ingest::just_entered(m),
        crate::entities::entity::entity_of(m.block.employee) is Ok,
        answers_address(m.block, address),
        employees matches Reply::Employees(rows) && rows@.len() == 0,
        entity is Entity,
        employee_written is Inserted,
        payors matches Reply::Payors(rows) && rows@.len() > 0 && rows@[0].method_id is Some,
        answers_payee(m.block.payee, payee),
        payment is Payment,
        done is Inserted,
    ensures
        block_is_written(
            m,
            run(
                m,
                block_replies(
                    address,
                    seq![employees, entity, employee_written],
                    payors,
                    payee,
                    payment,
                    done,
                ),
            ),
            entity->Entity_0.id,
        ),
        times_asked(
            kind,
            m,
            block_replies(
                address,
                seq![employees, entity, employee_written],
                payors,
                payee,
                payment,
                done,
            ),
        ) == 1,
{
    let employee = seq![employees, entity, employee_written];
    let rest = seq![payors] + payee + seq![payment, done];
    assert(block_replies(address, employee, payors, payee, payment, done) =~= address + employee
        + rest);
    address_is_resolved(m, address);
    address_asks_for_no_one(kind, m, address);
    let s0 = run(m, address);
    new_employee_is_resolved(s0, employees, entity, employee_written);
    asked_of_three(kind, s0, employees, entity, employee_written);
    asked_of_one(kind, s0, employees);
    asked_of_one(kind, step_model(s0, employees).0, entity);
    asked_of_one(kind, step_model(step_model(s0, employees).0, entity).0, employee_written);
    let s1 = run(s0, employee);
    rest_of_block(kind, s1, payors, payee, payment, done);
    run_in_two_parts(m, address, employee);
    run_in_two_parts(m, address + employee, rest);
    asked_in_two_parts(kind, m, address, employee);
    asked_in_two_parts(kind, m, address + employee, rest);
}

/// A block whose employee the store knows, from its first request to the
/// writing of its transaction: the employee is neither registered nor
/// written, and the transaction carries the canonical id of the first row
/// that was found.
proof fn block_with_known_employee(
    kind: Asked,
    m: IngestView,
    address: Seq<Reply>,
    employees: Reply,
    payors: Reply,
    payee: Seq<Reply>,
    payment: Reply,
    done: Reply,
)
    requires
        crate::ingest::just_entered(m),
        answers_address(m.block, address),
        employees matches Reply::Employees(rows) && rows@.len() > 0 && rows@[0].method_id
            is Some,
        payors matches Reply::Payors(rows) && rows@.len() > 0 && rows@[0].method_id is Some,
        answers_payee(m.block.payee, payee),
        payment is Payment,
        done is Inserted,
    ensures
        block_is_written(
            m,
            run(m, block_replies(address, seq![employees], payors, payee, payment, done)),
            employees->Employees_0@[0].method_id->0,
        ),
        times_asked(
            kind,
            m,
            block_replies(address, seq![employees], payors, payee, payment, done),
        ) == 0,
{
    let employee = seq![employees];
    let rest = seq![payors] + payee + seq![payment, done];
    assert(block_replies(address, employee, payors, payee, payment, done) =~= address + employee
        + rest);
    address_is_resolved(m, address);
    address_asks_for_no_one(kind, m, address);
    let s0 = run(m, address);
    known_employee_is_resolved(s0, employees);
    asked_of_one(kind, s0, employees);
    let s1 = run(s0, employee);
    rest_of_block(kind, s1, payors, payee, payment, done);
    run_in_two_parts(m, address, employee);
    run_in_two_parts(m, address + employee, rest);
    asked_in_two_parts(kind, m, address, employee);
    asked_in_two_parts(kind, m, address + employee, rest);
}

/// A document with two blocks that name the same employee, whom the store
/// does not know beforehand: where the store holds what was written and
/// store and payment processor do their part, the employee is registered
/// exactly once and written exactly once in the whole run, both
/// transactions are written, and both carry the canonical id that the one
/// registration gave.
///
/// `store` stands for the rows of employees that the store holds before
/// the run. The first lookup is answered with what it holds under the
/// employee's natural id, which is nothing; the second with what it holds
/// once the row of the first block is written.
pub proof fn same_employee_in_two_blocks_is_registered_once(
    upload_id: u64,
    first: Block,
    second: Block,
    store: Seq<Employee>,
    address1: Seq<Reply>,
    employees1: Reply,
    entity: Reply,
    employee_written: Reply,
    payors1: Reply,
    payee1: Seq<Reply>,
    payment1: Reply,
    written1: Reply,
    address2: Seq<Reply>,
    employees2: Reply,
    payors2: Reply,
    payee2: Seq<Reply>,
    payment2: Reply,
    written2: Reply,
)
    requires
        refusal(Ok(first)) is None,
        refusal(Ok(second)) is None,
        opt_text(second.employee.dunkin_id) == opt_text(first.employee.dunkin_id),
        crate::entities::entity::entity_of(first.employee) is Ok,
        answers_address(first, address1),
        answers_address(second, address2),
        employees_under(store, first.employee.dunkin_id->0@).len() == 0,
        employees1 matches Reply::Employees(rows) && rows@ == employees_under(
            store,
            first.employee.dunkin_id->0@,
        ),
        entity is Entity,
        employee_written is Inserted,
        employees2 matches Reply::Employees(rows) && rows@ == employees_under(
            store.push(Employee { method_id: Some(entity->Entity_0.id), ..first.employee }),
            second.employee.dunkin_id->0@,
        ),
        payors1 matches Reply::Payors(rows) && rows@.len() > 0 && rows@[0].method_id is Some,
        payors2 matches Reply::Payors(rows) && rows@.len() > 0 && rows@[0].method_id is Some,
        answers_payee(first.payee, payee1),
        answers_payee(second.payee, payee2),
        payment1 is Payment,
        written1 is Inserted,
        payment2 is Payment,
        written2 is Inserted,
    ensures
        ({
            let start = advance(initial(upload_id, seq![Ok(first), Ok(second)])).0;
            let replies = block_replies(
                address1,
                seq![employees1, entity, employee_written],
                payors1,
                payee1,
                payment1,
                written1,
            ) + block_replies(address2, seq![employees2], payors2, payee2, payment2, written2);
            let end = run(start, replies);
            &&& times_asked(Asked::Registration, start, replies) == 1
            &&& times_asked(Asked::EmployeeRow, start, replies) == 1
            &&& end.stage == Stage::Done
            &&& end.skipped.len() == 0
            &&& end.transactions.len() == 2
            &&& end.transactions[0].employee_id == Some(entity->Entity_0.id)
            &&& end.transactions[1].employee_id == Some(entity->Entity_0.id)
        }),
{
    let blocks = seq![Ok::<Block, Malformed>(first), Ok::<Block, Malformed>(second)];
    let start = advance(initial(upload_id, blocks)).0;
    let one = block_replies(
        address1,
        seq![employees1, entity, employee_written],
        payors1,
        payee1,
        payment1,
        written1,
    );
    let two = block_replies(address2, seq![employees2], payors2, payee2, payment2, written2);
    advance_facts(initial(upload_id, blocks));
    assert(start.index == 0);
    same_employee_is_registered_once(
        store,
        first.employee,
        second.employee,
        entity->Entity_0.id,
    );
    block_with_new_employee(
        Asked::Registration,
        start,
        address1,
        employees1,
        entity,
        employee_written,
        payors1,
        payee1,
        payment1,
        written1,
    );
    block_with_new_employee(
        Asked::EmployeeRow,
        start,
        address1,
        employees1,
        entity,
        employee_written,
        payors1,
        payee1,
        payment1,
        written1,
    );
    let middle = run(start, one);
    assert(middle.block == second);
    block_with_known_employee(
        Asked::Registration,
        middle,
        address2,
        employees2,
        payors2,
        payee2,
        payment2,
        written2,
    );
    block_with_known_employee(
        Asked::EmployeeRow,
        middle,
        address2,
        employees2,
        payors2,
        payee2,
        payment2,
        written2,
    );
    run_in_two_parts(start, one, two);
    asked_in_two_parts(Asked::Registration, start, one, two);
    asked_in_two_parts(Asked::EmployeeRow, start, one, two);
    let end = run(middle, two);
    assert(end.transactions.take(1)[0] == end.transactions[0]);
}

} // verus!
