//! The report on one upload: what was paid by each payor and to each
//! branch, and what the payment processor says of the upload's payments.

use crate::entities::payment_response::PaymentResponse;
use crate::schema::employee::Employee;
use crate::schema::transaction::Transaction;
use crate::schema::xml_parse::XmlParse;
use crate::text::{decimal, decimal_text, opt_text, same_text};
use std::collections::HashMap;
use vstd::prelude::*;

verus! {

/// What the payment processor says of one payment.
#[derive(Debug, PartialEq, Eq)]
pub struct PaymentStatus {
    pub id: String,
    pub destination: String,
    pub source: String,
    pub estimated_completion_date: String,
    pub status: String,
    pub amount: u64,
    pub metadata: Option<HashMap<String, String>>,
}

/// `PaymentStatus` as contracts see it: each text as the characters that it
/// holds.
pub struct PaymentStatusView {
    pub id: Seq<char>,
    pub destination: Seq<char>,
    pub source: Seq<char>,
    pub estimated_completion_date: Seq<char>,
    pub status: Seq<char>,
    pub amount: u64,
}

impl View for PaymentStatus {
    type V = PaymentStatusView;

    open spec fn view(&self) -> PaymentStatusView {
        PaymentStatusView {
            id: self.id@,
            destination: self.destination@,
            source: self.source@,
            estimated_completion_date: self.estimated_completion_date@,
            status: self.status@,
            amount: self.amount,
        }
    }
}

/// The status that a payment of the processor's ledger shows.
pub open spec fn status_of(payment: PaymentResponse) -> PaymentStatusView {
    PaymentStatusView {
        id: payment.id@,
        destination: payment.destination@,
        source: payment.source@,
        estimated_completion_date: payment.estimated_completion_date@,
        status: payment.status@,
        amount: payment.amount,
    }
}

impl PaymentStatus {
    /// The status of a payment, without its metadata.
    pub fn from_response(payment: &PaymentResponse) -> (r: PaymentStatus)
        ensures
            r@ == status_of(*payment),
            r.metadata is None,
    {
        PaymentStatus {
            id: payment.id.clone(),
            destination: payment.destination.clone(),
            source: payment.source.clone(),
            estimated_completion_date: payment.estimated_completion_date.clone(),
            status: payment.status.clone(),
            amount: payment.amount,
            metadata: None,
        }
    }
}

/// The report on one upload. The two lists of totals hold each key once, in
/// the order in which the keys first occur among the transactions.
#[derive(Debug, PartialEq, Eq)]
pub struct ParseResponse {
    pub xml_id: u64,
    pub processing: bool,
    pub payment_map_acc: Vec<(String, u64)>,
    pub payment_map_branch: Vec<(String, u64)>,
    pub payment_statuses: Vec<PaymentStatus>,
}

/// `ParseResponse` as contracts see it: each text as the characters that it
/// holds.
pub struct ParseResponseView {
    pub xml_id: u64,
    pub processing: bool,
    pub payment_map_acc: Seq<(Seq<char>, u64)>,
    pub payment_map_branch: Seq<(Seq<char>, u64)>,
    pub payment_statuses: Seq<PaymentStatusView>,
}

/// The keys and amounts of a list of totals.
pub open spec fn pair_views(pairs: Seq<(String, u64)>) -> Seq<(Seq<char>, u64)> {
    Seq::new(pairs.len(), |i: int| (pairs[i].0@, pairs[i].1))
}

/// The views of a list of statuses.
pub open spec fn status_views(statuses: Seq<PaymentStatus>) -> Seq<PaymentStatusView> {
    Seq::new(statuses.len(), |i: int| statuses[i]@)
}

impl View for ParseResponse {
    type V = ParseResponseView;

    open spec fn view(&self) -> ParseResponseView {
        ParseResponseView {
            xml_id: self.xml_id,
            processing: self.processing,
            payment_map_acc: pair_views(self.payment_map_acc@),
            payment_map_branch: pair_views(self.payment_map_branch@),
            payment_statuses: status_views(self.payment_statuses@),
        }
    }
}

/// Why no report can be given.
#[derive(Clone, Copy, Debug, PartialEq, Eq, Structural)]
pub enum ReportError {
    /// There is no such upload.
    NotFound,
    /// A transaction names no payor.
    MissingPayor,
    /// A transaction has no amount.
    MissingAmount,
    /// A transaction names no employee.
    MissingEmployee,
    /// A transaction names an employee that is not among the employees.
    UnknownEmployee,
    /// The employee of a transaction has no branch.
    MissingBranch,
    /// A total does not fit in 64 bits.
    TotalTooLarge,
}

/// What one transaction adds to the totals: its amount, under its payor and
/// under the branch of its employee.
#[derive(Debug, PartialEq, Eq)]
pub struct Entry {
    pub payor: String,
    pub branch: String,
    pub amount: u64,
}

/// The employee that a canonical id stands for: the last of the employees
/// that carries it.
pub open spec fn employee_for(employees: Seq<Employee>, id: Seq<char>) -> Option<Employee>
    decreases employees.len(),
{
    if employees.len() == 0 {
        None
    } else if opt_text(employees.last().method_id) == Some(id) {
        Some(employees.last())
    } else {
        employee_for(employees.drop_last(), id)
    }
}

/// What a transaction adds to the totals, or the first thing that is
/// missing for it.
pub open spec fn entry_of(t: Transaction, employees: Seq<Employee>) -> Result<Entry, ReportError> {
    if t.payor_id is None {
        Err(ReportError::MissingPayor)
    } else if t.amount is None {
        Err(ReportError::MissingAmount)
    } else if t.employee_id is None {
        Err(ReportError::MissingEmployee)
    } else {
        match employee_for(employees, t.employee_id->0@) {
            None => Err(ReportError::UnknownEmployee),
            Some(employee) => match employee.dunkin_branch {
                None => Err(ReportError::MissingBranch),
                Some(branch) => Ok(Entry { payor: t.payor_id->0, branch, amount: t.amount->0 }),
            },
        }
    }
}

/// What the transactions add to the totals, in their order, or what is
/// missing for the first of them that lacks something.
pub open spec fn entries_of(transactions: Seq<Transaction>, employees: Seq<Employee>) -> Result<
    Seq<Entry>,
    ReportError,
>
    decreases transactions.len(),
{
    if transactions.len() == 0 {
        Ok(Seq::empty())
    } else {
        match entries_of(transactions.drop_last(), employees) {
            Err(e) => Err(e),
            Ok(head) => match entry_of(transactions.last(), employees) {
                Err(e) => Err(e),
                Ok(entry) => Ok(head.push(entry)),
            },
        }
    }
}

/// The keys and amounts of the entries: by branch, or by payor.
pub open spec fn pairs(entries: Seq<Entry>, by_branch: bool) -> Seq<(Seq<char>, u64)> {
    Seq::new(
        entries.len(),
        |i: int|
            (
                if by_branch {
                    entries[i].branch@
                } else {
                    entries[i].payor@
                },
                entries[i].amount,
            ),
    )
}

/// The sum of the amounts that stand under a key.
pub open spec fn sum_for(pairs: Seq<(Seq<char>, u64)>, key: Seq<char>) -> nat
    decreases pairs.len(),
{
    if pairs.len() == 0 {
        0
    } else {
        sum_for(pairs.drop_last(), key) + if pairs.last().0 == key {
            pairs.last().1 as nat
        } else {
            0nat
        }
    }
}

/// The keys of the pairs, each once, in the order in which they first occur.
pub open spec fn keys_of(pairs: Seq<(Seq<char>, u64)>) -> Seq<Seq<char>>
    decreases pairs.len(),
{
    if pairs.len() == 0 {
        Seq::empty()
    } else {
        let before = keys_of(pairs.drop_last());
        if before.contains(pairs.last().0) {
            before
        } else {
            before.push(pairs.last().0)
        }
    }
}

/// Whether the amounts under some key add up to more than 64 bits hold.
pub open spec fn overflows(pairs: Seq<(Seq<char>, u64)>) -> bool {
    exists|i: int| 0 <= i < pairs.len() && sum_for(pairs, #[trigger] pairs[i].0) > u64::MAX
}

/// The totals: each key once, in the order in which the keys first occur,
/// with the sum of the amounts that stand under it.
pub open spec fn totals_of(pairs: Seq<(Seq<char>, u64)>) -> Seq<(Seq<char>, u64)> {
    Seq::new(
        keys_of(pairs).len(),
        |i: int| (keys_of(pairs)[i], sum_for(pairs, keys_of(pairs)[i]) as u64),
    )
}

/// The statuses of the payments that were created for an upload: those
/// whose description is the upload's number, in the ledger's order.
pub open spec fn statuses_of(payments: Seq<PaymentResponse>, xml_id: u64) -> Seq<
    PaymentStatusView,
>
    decreases payments.len(),
{
    if payments.len() == 0 {
        Seq::empty()
    } else if payments.last().description@ == decimal_text(xml_id as nat) {
        statuses_of(payments.drop_last(), xml_id).push(status_of(payments.last()))
    } else {
        statuses_of(payments.drop_last(), xml_id)
    }
}

/// Whether an upload in the given state is still being processed: all but
/// a finished one are.
pub open spec fn processing_of(status: Seq<char>) -> bool {
    status != "Finished"@
}

/// The report on an upload, from the rows found under its number, its
/// transactions, the employees that they name and the processor's ledger.
/// There is none where the upload is unknown, where a transaction lacks
/// what the totals need, or where a total grows too large.
pub open spec fn report_of(
    xml_id: u64,
    uploads: Seq<XmlParse>,
    transactions: Seq<Transaction>,
    employees: Seq<Employee>,
    payments: Seq<PaymentResponse>,
) -> Result<ParseResponseView, ReportError> {
    if uploads.len() == 0 {
        Err(ReportError::NotFound)
    } else {
        match entries_of(transactions, employees) {
            Err(e) => Err(e),
            Ok(entries) => if overflows(pairs(entries, false)) || overflows(
                pairs(entries, true),
            ) {
                Err(ReportError::TotalTooLarge)
            } else {
                Ok(
                    ParseResponseView {
                        xml_id,
                        processing: processing_of(uploads[0].status@),
                        payment_map_acc: totals_of(pairs(entries, false)),
                        payment_map_branch: totals_of(pairs(entries, true)),
                        payment_statuses: statuses_of(payments, xml_id),
                    },
                )
            },
        }
    }
}

/// `Ok` with the report's view, `Err` as it is.
pub open spec fn report_result(r: Result<ParseResponse, ReportError>) -> Result<
    ParseResponseView,
    ReportError,
> {
    match r {
        Ok(report) => Ok(report@),
        Err(e) => Err(e),
    }
}

proof fn entries_error_stays(transactions: Seq<Transaction>, employees: Seq<Employee>, n: int)
    requires
        0 <= n <= transactions.len(),
        entries_of(transactions.take(n), employees) is Err,
    ensures
        entries_of(transactions, employees) == entries_of(transactions.take(n), employees),
    decreases transactions.len() - n,
{
    if n == transactions.len() {
        assert(transactions.take(n) =~= transactions);
    } else {
        assert(transactions.take(n + 1).drop_last() =~= transactions.take(n));
        entries_error_stays(transactions, employees, n + 1);
    }
}

proof fn sum_grows(pairs: Seq<(Seq<char>, u64)>, n: int, key: Seq<char>)
    requires
        0 <= n <= pairs.len(),
    ensures
        sum_for(pairs.take(n), key) <= sum_for(pairs, key),
    decreases pairs.len() - n,
{
    if n == pairs.len() {
        assert(pairs.take(n) =~= pairs);
    } else {
        assert(pairs.take(n + 1).drop_last() =~= pairs.take(n));
        sum_grows(pairs, n + 1, key);
    }
}

proof fn keys_hold_every_key(pairs: Seq<(Seq<char>, u64)>, i: int)
    requires
        0 <= i < pairs.len(),
    ensures
        keys_of(pairs).contains(pairs[i].0),
    decreases pairs.len(),
{
    let before = keys_of(pairs.drop_last());
    if i == pairs.len() - 1 {
        if !before.contains(pairs.last().0) {
            assert(before.push(pairs.last().0)[before.len() as int] == pairs.last().0);
        }
    } else {
        keys_hold_every_key(pairs.drop_last(), i);
        let at = choose|j: int| 0 <= j < before.len() && before[j] == pairs[i].0;
        if !before.contains(pairs.last().0) {
            assert(before.push(pairs.last().0)[at] == pairs[i].0);
        }
    }
}

proof fn absent_key_sums_to_nothing(pairs: Seq<(Seq<char>, u64)>, key: Seq<char>)
    requires
        !keys_of(pairs).contains(key),
    ensures
        sum_for(pairs, key) == 0,
    decreases pairs.len(),
{
    if pairs.len() > 0 {
        let before = keys_of(pairs.drop_last());
        keys_hold_every_key(pairs, pairs.len() - 1);
        if before.contains(key) {
            let at = choose|j: int| 0 <= j < before.len() && before[j] == key;
            if !before.contains(pairs.last().0) {
                assert(before.push(pairs.last().0)[at] == key);
            }
        }
        absent_key_sums_to_nothing(pairs.drop_last(), key);
    }
}

proof fn keys_are_distinct(pairs: Seq<(Seq<char>, u64)>)
    ensures
        forall|i: int, j: int|
            0 <= i < j < keys_of(pairs).len() ==> keys_of(pairs)[i] != keys_of(pairs)[j],
    decreases pairs.len(),
{
    if pairs.len() > 0 {
        keys_are_distinct(pairs.drop_last());
        let before = keys_of(pairs.drop_last());
        let keys = keys_of(pairs);
        assert forall|i: int, j: int| 0 <= i < j < keys.len() implies keys[i] != keys[j] by {
            if j < before.len() {
                assert(keys[i] == before[i] && keys[j] == before[j]);
            } else {
                assert(keys[i] == before[i]);
                assert(!before.contains(pairs.last().0));
            }
        }
    }
}

fn find_key(out: &Vec<(String, u64)>, key: &str) -> (r: Option<usize>)
    ensures
        match r {
            Some(at) => at < out.len() && out[at as int].0@ == key@,
            None => forall|j: int| 0 <= j < out.len() ==> out[j].0@ != key@,
        },
{
    let mut at: usize = 0;
    while at < out.len()
        invariant
            at <= out.len(),
            forall|j: int| 0 <= j < at ==> out[j].0@ != key@,
        decreases out.len() - at,
    {
        if same_text(out[at].0.as_str(), key) {
            return Some(at);
        }
        at = at + 1;
    }
    None
}

/// Adds the amounts of the entries up under their keys: by branch, or by
/// payor. `None` where a total does not fit in 64 bits.
pub fn totals(entries: &Vec<Entry>, by_branch: bool) -> (r: Option<Vec<(String, u64)>>)
    ensures
        r is None <==> overflows(pairs(entries@, by_branch)),
        r matches Some(out) ==> pair_views(out@) == totals_of(pairs(entries@, by_branch)),
{
    let ghost all = pairs(entries@, by_branch);
    let mut out: Vec<(String, u64)> = Vec::new();
    let mut i: usize = 0;
    while i < entries.len()
        invariant
            i <= entries.len(),
            all == pairs(entries@, by_branch),
            out.len() == keys_of(all.take(i as int)).len(),
            forall|j: int|
                0 <= j < out.len() ==> (#[trigger] out[j]).0@ == keys_of(all.take(i as int))[j]
                    && out[j].1 == sum_for(all.take(i as int), keys_of(all.take(i as int))[j]),
        decreases entries.len() - i,
    {
        let ghost before = all.take(i as int);
        let ghost after = all.take(i + 1);
        let ghost old_out = out@;
        let key: &String = if by_branch {
            &entries[i].branch
        } else {
            &entries[i].payor
        };
        let amount: u64 = entries[i].amount;
        proof {
            assert(after.drop_last() =~= before);
            assert(after.last() == (key@, amount));
            keys_are_distinct(before);
        }
        match find_key(&out, key.as_str()) {
            Some(at) => {
                let held: u64 = out[at].1;
                proof {
                    assert(keys_of(before)[at as int] == key@);
                    assert(keys_of(before).contains(key@));
                    assert(keys_of(after) == keys_of(before));
                }
                if held > u64::MAX - amount {
                    proof {
                        sum_grows(all, i + 1, key@);
                        assert(all[i as int].0 == key@);
                    }
                    return None;
                }
                let name = out[at].0.clone();
                out.set(at, (name, held + amount));
                proof {
                    assert forall|j: int| 0 <= j < out.len() implies (#[trigger] out[j]).0@
                        == keys_of(after)[j] && out[j].1 == sum_for(after, keys_of(after)[j]) by {
                        if j != at {
                            assert(out[j] == old_out[j]);
                            assert(keys_of(before)[j] != key@);
                        }
                    }
                }
            },
            None => {
                proof {
                    if keys_of(before).contains(key@) {
                        let at = choose|j: int|
                            0 <= j < keys_of(before).len() && keys_of(before)[j] == key@;
                        assert(old_out[at].0@ == key@);
                    }
                    absent_key_sums_to_nothing(before, key@);
                    assert(keys_of(after) == keys_of(before).push(key@));
                }
                out.push((key.clone(), amount));
                proof {
                    assert forall|j: int| 0 <= j < out.len() implies (#[trigger] out[j]).0@
                        == keys_of(after)[j] && out[j].1 == sum_for(after, keys_of(after)[j]) by {
                        if j < old_out.len() {
                            assert(out[j] == old_out[j]);
                            assert(keys_of(before)[j] != key@);
                        }
                    }
                }
            },
        }
        i = i + 1;
    }
    proof {
        assert(all.take(i as int) =~= all);
        assert(pair_views(out@) =~= totals_of(all));
        assert forall|k: int| 0 <= k < all.len() implies sum_for(all, #[trigger] all[k].0)
            <= u64::MAX by {
            keys_hold_every_key(all, k);
            let at = choose|j: int| 0 <= j < keys_of(all).len() && keys_of(all)[j] == all[k].0;
            assert(out[at].1 == sum_for(all, keys_of(all)[at]));
        }
    }
    Some(out)
}

/// Finds the employee that a canonical id stands for.
pub fn find_employee<'a>(employees: &'a Vec<Employee>, id: &str) -> (r: Option<&'a Employee>)
    ensures
        match r {
            Some(employee) => employee_for(employees@, id@) == Some(*employee),
            None => employee_for(employees@, id@) is None,
        },
{
    let mut n: usize = employees.len();
    proof {
        assert(employees@.take(n as int) =~= employees@);
    }
    while n > 0
        invariant
            n <= employees.len(),
            employee_for(employees@, id@) == employee_for(employees@.take(n as int), id@),
        decreases n,
    {
        let ghost head = employees@.take(n as int);
        proof {
            assert(head.drop_last() =~= employees@.take(n - 1));
            assert(head.last() == employees@[n - 1]);
        }
        n = n - 1;
        match &employees[n].method_id {
            Some(held) => {
                if same_text(held.as_str(), id) {
                    return Some(&employees[n]);
                }
            },
            None => {},
        }
    }
    proof {
        assert(employees@.take(0) =~= Seq::<Employee>::empty());
    }
    None
}

/// Works out what one transaction adds to the totals.
pub fn entry(t: &Transaction, employees: &Vec<Employee>) -> (r: Result<Entry, ReportError>)
    ensures
        r == entry_of(*t, employees@),
{
    let payor = match &t.payor_id {
        Some(id) => id.clone(),
        None => {
            return Err(ReportError::MissingPayor);
        },
    };
    let amount: u64 = match t.amount {
        Some(amount) => amount,
        None => {
            return Err(ReportError::MissingAmount);
        },
    };
    let employee = match &t.employee_id {
        Some(id) => match find_employee(employees, id.as_str()) {
            Some(employee) => employee,
            None => {
                return Err(ReportError::UnknownEmployee);
            },
        },
        None => {
            return Err(ReportError::MissingEmployee);
        },
    };
    match &employee.dunkin_branch {
        Some(branch) => Ok(Entry { payor, branch: branch.clone(), amount }),
        None => Err(ReportError::MissingBranch),
    }
}

/// Works out what the transactions add to the totals.
pub fn entries(transactions: &Vec<Transaction>, employees: &Vec<Employee>) -> (r: Result<
    Vec<Entry>,
    ReportError,
>)
    ensures
        match r {
            Ok(found) => entries_of(transactions@, employees@) == Ok::<Seq<Entry>, ReportError>(
                found@,
            ),
            Err(e) => entries_of(transactions@, employees@) == Err::<Seq<Entry>, ReportError>(e),
        },
{
    let mut out: Vec<Entry> = Vec::new();
    let mut i: usize = 0;
    while i < transactions.len()
        invariant
            i <= transactions.len(),
            entries_of(transactions@.take(i as int), employees@) == Ok::<
                Seq<Entry>,
                ReportError,
            >(out@),
        decreases transactions.len() - i,
    {
        proof {
            assert(transactions@.take(i + 1).drop_last() =~= transactions@.take(i as int));
        }
        match entry(&transactions[i], employees) {
            Ok(found) => {
                out.push(found);
            },
            Err(e) => {
                proof {
                    entries_error_stays(transactions@, employees@, i + 1);
                }
                return Err(e);
            },
        }
        i = i + 1;
    }
    proof {
        assert(transactions@.take(i as int) =~= transactions@);
    }
    Ok(out)
}

/// The canonical ids of the employees that the transactions name, in the
/// order of the transactions.
pub open spec fn employee_ids_of(transactions: Seq<Transaction>) -> Seq<String>
    decreases transactions.len(),
{
    if transactions.len() == 0 {
        Seq::empty()
    } else {
        match transactions.last().employee_id {
            Some(id) => employee_ids_of(transactions.drop_last()).push(id),
            None => employee_ids_of(transactions.drop_last()),
        }
    }
}

/// Lists the employees that the transactions name, to look them up.
pub fn employee_ids(transactions: &Vec<Transaction>) -> (r: Vec<String>)
    ensures
        r@ == employee_ids_of(transactions@),
{
    let mut out: Vec<String> = Vec::new();
    let mut i: usize = 0;
    while i < transactions.len()
        invariant
            i <= transactions.len(),
            out@ == employee_ids_of(transactions@.take(i as int)),
        decreases transactions.len() - i,
    {
        proof {
            assert(transactions@.take(i + 1).drop_last() =~= transactions@.take(i as int));
        }
        match &transactions[i].employee_id {
            Some(id) => {
                out.push(id.clone());
            },
            None => {},
        }
        i = i + 1;
    }
    proof {
        assert(transactions@.take(i as int) =~= transactions@);
    }
    out
}

/// Picks the payments of an upload from the ledger and gives their statuses.
pub fn payment_statuses(payments: &Vec<PaymentResponse>, xml_id: u64) -> (r: Vec<PaymentStatus>)
    ensures
        status_views(r@) == statuses_of(payments@, xml_id),
{
    let wanted = decimal(xml_id);
    let mut out: Vec<PaymentStatus> = Vec::new();
    let mut i: usize = 0;
    while i < payments.len()
        invariant
            i <= payments.len(),
            wanted@ == decimal_text(xml_id as nat),
            status_views(out@) == statuses_of(payments@.take(i as int), xml_id),
        decreases payments.len() - i,
    {
        let ghost before = status_views(out@);
        proof {
            assert(payments@.take(i + 1).drop_last() =~= payments@.take(i as int));
        }
        if same_text(payments[i].description.as_str(), wanted.as_str()) {
            out.push(PaymentStatus::from_response(&payments[i]));
            proof {
                assert(status_views(out@) =~= before.push(status_of(payments@[i as int])));
            }
        }
        i = i + 1;
    }
    proof {
        assert(payments@.take(i as int) =~= payments@);
    }
    out
}

/// Whether an upload is still being processed.
pub fn is_processing(upload: &XmlParse) -> (r: bool)
    ensures
        r == processing_of(upload.status@),
{
    !same_text(upload.status.as_str(), "Finished")
}

/// Gives the report on an upload.
pub fn get_handler(
    xml_id: u64,
    uploads: &Vec<XmlParse>,
    transactions: &Vec<Transaction>,
    employees: &Vec<Employee>,
    payments: &Vec<PaymentResponse>,
) -> (r: Result<ParseResponse, ReportError>)
    ensures
        report_result(r) == report_of(
            xml_id,
            uploads@,
            transactions@,
            employees@,
            payments@,
        ),
{
    let payment_statuses = payment_statuses(payments, xml_id);
    if uploads.len() == 0 {
        return Err(ReportError::NotFound);
    }
    let processing = is_processing(&uploads[0]);
    let found = match entries(transactions, employees) {
        Ok(found) => found,
        Err(e) => {
            return Err(e);
        },
    };
    let by_payor = match totals(&found, false) {
        Some(sums) => sums,
        None => {
            return Err(ReportError::TotalTooLarge);
        },
    };
    let by_branch = match totals(&found, true) {
        Some(sums) => sums,
        None => {
            return Err(ReportError::TotalTooLarge);
        },
    };
    Ok(
        ParseResponse {
            xml_id,
            processing,
            payment_map_acc: by_payor,
            payment_map_branch: by_branch,
            payment_statuses,
        },
    )
}

/// Asking for the report twice, with nothing changed in between, gives the
/// same report twice.
pub proof fn report_is_repeatable(
    xml_id: u64,
    uploads: Seq<XmlParse>,
    transactions: Seq<Transaction>,
    employees: Seq<Employee>,
    payments: Seq<PaymentResponse>,
    first: Result<ParseResponse, ReportError>,
    second: Result<ParseResponse, ReportError>,
)
    requires
        report_result(first) == report_of(xml_id, uploads, transactions, employees, payments),
        report_result(second) == report_of(xml_id, uploads, transactions, employees, payments),
    ensures
        report_result(first) == report_result(second),
        first matches Ok(a) ==> second matches Ok(b) && a@.payment_map_acc == b@.payment_map_acc
            && a@.payment_map_branch == b@.payment_map_branch,
{
}

} // verus!
