use payroll_ingest::endpoints::reports::{
    employee_ids, entries, entry, find_employee, get_handler, is_processing, payment_statuses,
    totals, Entry, ParseResponse, PaymentStatus, ReportError,
};
use payroll_ingest::entities::payment_response::PaymentResponse;
use payroll_ingest::schema::employee::Employee;
use payroll_ingest::schema::transaction::Transaction;
use payroll_ingest::schema::xml_parse::XmlParse;

fn text(s: &str) -> Option<String> {
    Some(s.to_string())
}

fn employee(canonical: &str, branch: Option<&str>) -> Employee {
    let mut e = Employee::new();
    e.method_id = text(canonical);
    e.dunkin_branch = branch.map(|b| b.to_string());
    e
}

fn transaction(employee: &str, payor: &str, amount: u64) -> Transaction {
    Transaction {
        method_id: text("pmt"),
        employee_id: text(employee),
        payee_id: text("acc_y"),
        payor_id: text(payor),
        xml_id: Some(7),
        amount: Some(amount),
    }
}

fn upload(status: &str) -> XmlParse {
    XmlParse {
        id: Some(7),
        filename: "batch".to_string(),
        status: status.to_string(),
        started_at: "01/02/2024 03:04:05".to_string(),
        finished_at: None,
    }
}

fn payment(id: &str, amount: u64, description: &str) -> PaymentResponse {
    PaymentResponse {
        id: id.to_string(),
        reversal_id: None,
        source_trace_id: None,
        destination_trace_id: None,
        source: "acc_p".to_string(),
        destination: "acc_y".to_string(),
        amount,
        description: description.to_string(),
        status: "pending".to_string(),
        error: text("none"),
        metadata: Some(std::collections::HashMap::new()),
        estimated_completion_date: "2024-03-05".to_string(),
        source_settlement_date: "2024-03-04".to_string(),
        destination_settlement_date: "2024-03-06".to_string(),
        fee: Some(1),
        created_at: "c".to_string(),
        updated_at: "u".to_string(),
    }
}

fn entry_under(payor: &str, branch: &str, amount: u64) -> Entry {
    Entry { payor: payor.to_string(), branch: branch.to_string(), amount }
}

fn sums(pairs: &[(&str, u64)]) -> Vec<(String, u64)> {
    pairs.iter().map(|(k, v)| (k.to_string(), *v)).collect()
}

fn staff() -> Vec<Employee> {
    vec![employee("ent_1", Some("B1")), employee("ent_2", Some("B2")), employee("ent_3", Some("B1"))]
}

#[test]
fn report_adds_amounts_up_by_payor_and_by_branch() {
    let transactions = vec![
        transaction("ent_1", "acc_a", 100),
        transaction("ent_2", "acc_b", 250),
        transaction("ent_3", "acc_a", 1),
        transaction("ent_2", "acc_a", 40),
    ];
    let report = get_handler(7, &vec![upload("Finished")], &transactions, &staff(), &Vec::new()).unwrap();
    assert_eq!(
        report,
        ParseResponse {
            xml_id: 7,
            processing: false,
            payment_map_acc: sums(&[("acc_a", 141), ("acc_b", 250)]),
            payment_map_branch: sums(&[("B1", 101), ("B2", 290)]),
            payment_statuses: Vec::new(),
        }
    );
}

#[test]
fn report_of_one_transaction() {
    let transactions = vec![transaction("ent_1", "acc_p1", 10000)];
    let ledger = vec![payment("pmt_1", 10000, "7")];
    let report = get_handler(7, &vec![upload("Finished")], &transactions, &staff(), &ledger).unwrap();
    assert_eq!(report.payment_map_acc, sums(&[("acc_p1", 10000)]));
    assert_eq!(report.payment_map_branch, sums(&[("B1", 10000)]));
    assert_eq!(report.payment_statuses.len(), 1);
}

#[test]
fn report_is_the_same_when_asked_for_again() {
    let transactions = vec![transaction("ent_1", "acc_a", 100), transaction("ent_2", "acc_b", 250)];
    let ledger = vec![payment("pmt_1", 100, "7"), payment("pmt_2", 250, "7")];
    let uploads = vec![upload("Finished")];
    let first = get_handler(7, &uploads, &transactions, &staff(), &ledger);
    let second = get_handler(7, &uploads, &transactions, &staff(), &ledger);
    assert_eq!(first, second);
    assert_eq!(first.unwrap().payment_map_acc, sums(&[("acc_a", 100), ("acc_b", 250)]));
}

#[test]
fn report_without_transactions_has_empty_totals() {
    let report = get_handler(7, &vec![upload("Finished")], &Vec::new(), &Vec::new(), &Vec::new()).unwrap();
    assert_eq!(report.payment_map_acc, Vec::new());
    assert_eq!(report.payment_map_branch, Vec::new());
}

#[test]
fn report_of_an_unknown_upload_is_not_found() {
    let transactions = vec![transaction("ent_9", "acc_a", 100)];
    assert_eq!(get_handler(7, &Vec::new(), &transactions, &staff(), &Vec::new()), Err(ReportError::NotFound));
}

#[test]
fn report_goes_by_the_first_row_of_the_upload() {
    let uploads = vec![upload("Init"), upload("Finished")];
    assert!(get_handler(7, &uploads, &Vec::new(), &Vec::new(), &Vec::new()).unwrap().processing);
}

#[test]
fn report_is_processing_unless_finished() {
    assert!(!is_processing(&upload("Finished")));
    assert!(is_processing(&upload("Init")));
    assert!(is_processing(&upload("Failed")));
    assert!(is_processing(&upload("finished")));
    assert!(is_processing(&upload("")));
}

#[test]
fn report_fails_on_a_transaction_without_payor() {
    let mut t = transaction("ent_1", "acc_a", 1);
    t.payor_id = None;
    t.amount = None;
    assert_eq!(
        get_handler(7, &vec![upload("Finished")], &vec![t], &staff(), &Vec::new()),
        Err(ReportError::MissingPayor)
    );
}

#[test]
fn report_fails_on_a_transaction_without_amount() {
    let mut t = transaction("ent_1", "acc_a", 1);
    t.amount = None;
    t.employee_id = None;
    assert_eq!(entry(&t, &staff()), Err(ReportError::MissingAmount));
}

#[test]
fn report_fails_on_a_transaction_without_employee() {
    let mut t = transaction("ent_1", "acc_a", 1);
    t.employee_id = None;
    assert_eq!(entry(&t, &staff()), Err(ReportError::MissingEmployee));
}

#[test]
fn report_fails_on_an_employee_that_cannot_be_resolved() {
    let transactions = vec![transaction("ent_1", "acc_a", 1), transaction("ent_9", "acc_a", 2)];
    assert_eq!(
        get_handler(7, &vec![upload("Finished")], &transactions, &staff(), &Vec::new()),
        Err(ReportError::UnknownEmployee)
    );
}

#[test]
fn report_fails_on_an_employee_without_branch() {
    let people = vec![employee("ent_1", None)];
    assert_eq!(entry(&transaction("ent_1", "acc_a", 1), &people), Err(ReportError::MissingBranch));
}

#[test]
fn report_fails_on_the_first_transaction_that_lacks_something() {
    let mut second = transaction("ent_1", "acc_a", 1);
    second.amount = None;
    let transactions = vec![transaction("ent_1", "acc_a", 1), second, transaction("ent_9", "acc_a", 2)];
    assert_eq!(entries(&transactions, &staff()), Err(ReportError::MissingAmount));
}

#[test]
fn report_fails_when_a_total_grows_too_large() {
    let transactions = vec![transaction("ent_1", "acc_a", u64::MAX), transaction("ent_2", "acc_a", 1)];
    assert_eq!(
        get_handler(7, &vec![upload("Finished")], &transactions, &staff(), &Vec::new()),
        Err(ReportError::TotalTooLarge)
    );
    let transactions = vec![transaction("ent_1", "acc_a", u64::MAX), transaction("ent_3", "acc_b", 1)];
    assert_eq!(
        get_handler(7, &vec![upload("Finished")], &transactions, &staff(), &Vec::new()),
        Err(ReportError::TotalTooLarge)
    );
}

#[test]
fn report_total_may_reach_the_largest_number() {
    let transactions = vec![transaction("ent_1", "acc_a", u64::MAX - 1), transaction("ent_2", "acc_a", 1)];
    let report = get_handler(7, &vec![upload("Finished")], &transactions, &staff(), &Vec::new()).unwrap();
    assert_eq!(report.payment_map_acc, sums(&[("acc_a", u64::MAX)]));
    assert_eq!(report.payment_map_branch, sums(&[("B1", u64::MAX - 1), ("B2", 1)]));
}

#[test]
fn missing_upload_comes_before_what_the_transactions_lack() {
    let mut t = transaction("ent_1", "acc_a", 1);
    t.payor_id = None;
    assert_eq!(get_handler(7, &Vec::new(), &vec![t], &staff(), &Vec::new()), Err(ReportError::NotFound));
}

#[test]
fn totals_keep_keys_in_the_order_of_first_occurrence() {
    let found = vec![
        entry_under("c", "z", 1),
        entry_under("a", "y", 2),
        entry_under("c", "x", 3),
        entry_under("b", "y", 4),
        entry_under("a", "z", 5),
    ];
    assert_eq!(totals(&found, false), Some(sums(&[("c", 4), ("a", 7), ("b", 4)])));
    assert_eq!(totals(&found, true), Some(sums(&[("z", 6), ("y", 6), ("x", 3)])));
}

#[test]
fn totals_of_nothing_are_empty() {
    assert_eq!(totals(&Vec::new(), false), Some(Vec::new()));
}

#[test]
fn totals_keep_a_key_with_amount_zero() {
    let found = vec![entry_under("a", "x", 0), entry_under("a", "x", 0)];
    assert_eq!(totals(&found, false), Some(sums(&[("a", 0)])));
}

#[test]
fn totals_overflow_is_told() {
    let found = vec![entry_under("a", "x", u64::MAX), entry_under("b", "x", 0), entry_under("a", "y", 1)];
    assert_eq!(totals(&found, false), None);
    assert_eq!(totals(&found, true), Some(sums(&[("x", u64::MAX), ("y", 1)])));
}

#[test]
fn employee_is_found_by_canonical_id() {
    let people = staff();
    assert_eq!(find_employee(&people, "ent_2"), Some(&people[1]));
    assert_eq!(find_employee(&people, "ent_9"), None);
    assert_eq!(find_employee(&Vec::new(), "ent_1"), None);
}

#[test]
fn employee_listed_twice_is_taken_from_the_last_row() {
    let people = vec![employee("ent_1", Some("old")), employee("ent_2", Some("B2")), employee("ent_1", Some("new"))];
    assert_eq!(find_employee(&people, "ent_1").unwrap().dunkin_branch, text("new"));
    assert_eq!(
        entry(&transaction("ent_1", "acc_a", 5), &people),
        Ok(entry_under("acc_a", "new", 5))
    );
}

#[test]
fn employee_without_canonical_id_is_never_found() {
    let mut e = Employee::new();
    e.dunkin_branch = text("B1");
    assert_eq!(find_employee(&vec![e], "NULL"), None);
}

#[test]
fn employee_ids_follow_the_transactions() {
    let mut anonymous = transaction("x", "acc_a", 1);
    anonymous.employee_id = None;
    let transactions = vec![
        transaction("ent_2", "acc_a", 1),
        anonymous,
        transaction("ent_1", "acc_a", 1),
        transaction("ent_2", "acc_a", 1),
    ];
    assert_eq!(employee_ids(&transactions), vec!["ent_2", "ent_1", "ent_2"]);
    assert_eq!(employee_ids(&Vec::new()), Vec::<String>::new());
}

#[test]
fn payment_statuses_are_those_described_by_the_upload() {
    let ledger = vec![
        payment("pmt_1", 100, "7"),
        payment("pmt_2", 200, "8"),
        payment("pmt_3", 300, "7"),
        payment("pmt_4", 400, "77"),
        payment("pmt_5", 500, "07"),
        payment("pmt_6", 600, ""),
    ];
    let found = payment_statuses(&ledger, 7);
    let ids: Vec<&str> = found.iter().map(|s| s.id.as_str()).collect();
    assert_eq!(ids, vec!["pmt_1", "pmt_3"]);
    assert_eq!(payment_statuses(&ledger, 9), Vec::new());
}

#[test]
fn payment_status_takes_over_the_ledger_entry_without_metadata() {
    let status = PaymentStatus::from_response(&payment("pmt_1", 100, "7"));
    assert_eq!(
        status,
        PaymentStatus {
            id: "pmt_1".to_string(),
            destination: "acc_y".to_string(),
            source: "acc_p".to_string(),
            estimated_completion_date: "2024-03-05".to_string(),
            status: "pending".to_string(),
            amount: 100,
            metadata: None,
        }
    );
}
