use payroll_ingest::endpoints::transactions::{finish_upload, post_handler, Payload, TransactionQueryParams};
use payroll_ingest::schema::address::Address;
use payroll_ingest::schema::employee::Employee;
use payroll_ingest::schema::payee::Payee;
use payroll_ingest::schema::payor::Payor;
use payroll_ingest::schema::transaction::Transaction;
use payroll_ingest::schema::xml_parse::{UploadStatus, XmlParse};
use payroll_ingest::schema::statement::{get_by_query, get_in_query, insert_query, transactions_query, update_query};
use payroll_ingest::schema::{Clause, SqlString, Table, CRUD};

fn text(s: &str) -> Option<String> {
    Some(s.to_string())
}

fn strings(values: Vec<SqlString>) -> Vec<String> {
    values.into_iter().map(|v| v.into_string()).collect()
}

fn is_timestamp(s: &str) -> bool {
    let bytes = s.as_bytes();
    bytes.len() == 19
        && bytes[2] == b'/'
        && bytes[5] == b'/'
        && bytes[10] == b' '
        && bytes[13] == b':'
        && bytes[16] == b':'
        && bytes.iter().enumerate().all(|(i, b)| [2, 5, 10, 13, 16].contains(&i) || b.is_ascii_digit())
}

#[test]
fn new_address_has_no_field_set() {
    let a = Address::new();
    assert_eq!(a, Address { id: None, line1: None, city: None, state: None, zip: None });
}

#[test]
fn new_employee_has_no_field_set() {
    let e = Employee::new();
    assert_eq!(
        e,
        Employee {
            dunkin_id: None,
            method_id: None,
            dunkin_branch: None,
            first_name: None,
            last_name: None,
            dob: None,
            phone_number: None,
        }
    );
}

#[test]
fn new_payor_has_no_field_set() {
    let p = Payor::new();
    assert_eq!(
        p,
        Payor {
            dunkin_id: None,
            method_id: None,
            aba_routing: None,
            account_number: None,
            payor_name: None,
            dba: None,
            ein: None,
            address_id: None,
        }
    );
}

#[test]
fn new_payee_has_no_field_set() {
    let p = Payee::new();
    assert_eq!(p, Payee { plaid_id: None, method_id: None, loan_account_number: None });
}

#[test]
fn new_transaction_has_no_field_set() {
    let t = Transaction::new();
    assert_eq!(
        t,
        Transaction {
            method_id: None,
            employee_id: None,
            payee_id: None,
            payor_id: None,
            xml_id: None,
            amount: None,
        }
    );
}

#[test]
fn element_names_of_the_records() {
    assert_eq!(Address::XML_IDENTIFIER, "Address");
    assert_eq!(Employee::XML_IDENTIFIER, "Employee");
    assert_eq!(Payor::XML_IDENTIFIER, "Payor");
    assert_eq!(Payee::XML_IDENTIFIER, "Payee");
    assert_eq!(Transaction::XML_IDENTIFIER, "row");
    assert_eq!(XmlParse::COLUMN_NAME, "XmlParse");
}

#[test]
fn sql_string_keeps_a_text() {
    assert_eq!(SqlString::from_text("O'Neil").as_str(), "O'Neil");
    assert_eq!(SqlString::from_string("abc".to_string()).into_string(), "abc");
}

#[test]
fn sql_string_writes_what_is_absent_as_null() {
    assert_eq!(SqlString::from_opt_string(&None).as_str(), "NULL");
    assert_eq!(SqlString::from_opt_u64(None).as_str(), "NULL");
    assert_eq!(SqlString::from_opt_string(&text("x")).as_str(), "x");
    assert_eq!(SqlString::from_opt_u64(Some(42)).as_str(), "42");
}

#[test]
fn sql_string_clone_is_equal() {
    let s = SqlString::from_u64(9);
    assert_eq!(s.clone(), s);
}

#[test]
fn table_names_and_id_columns() {
    assert_eq!(Table::XmlParse.name(), "XmlParse");
    assert_eq!(Table::Transactions.name(), "Transactions");
    assert_eq!(Table::Employees.name(), "Employees");
    assert_eq!(Table::Payees.name(), "Payees");
    assert_eq!(Table::Payors.name(), "Payors");
    assert_eq!(Table::Addresses.name(), "Addresses");
    assert_eq!(Table::XmlParse.id_field(), "Id");
    assert_eq!(Table::Addresses.id_field(), "Id");
    assert_eq!(Table::Employees.id_field(), "MethodId");
    assert_eq!(Table::Transactions.id_field(), "MethodId");
    assert_eq!(Table::Payees.id_field(), "MethodId");
    assert_eq!(Table::Payors.id_field(), "MethodId");
}

#[test]
fn employee_row_layout() {
    let e = Employee {
        dunkin_id: text("E1"),
        method_id: text("ent_1"),
        dunkin_branch: text("B1"),
        first_name: text("Ann"),
        last_name: None,
        dob: text("01-02-1990"),
        phone_number: None,
    };
    assert_eq!(<Employee as CRUD<String>>::table(), Table::Employees);
    assert_eq!(
        <Employee as CRUD<String>>::get_all_fields(),
        vec!["MethodId", "DunkinId", "DunkinBranch", "FirstName", "LastName", "Dob", "PhoneNumber"]
    );
    assert_eq!(
        strings(e.get_all_values()),
        vec!["ent_1", "E1", "B1", "Ann", "NULL", "01-02-1990", "NULL"]
    );
    assert_eq!(e.get_id(), "ent_1");
}

#[test]
fn transaction_row_layout() {
    let t = Transaction {
        method_id: text("pmt_1"),
        employee_id: text("ent_1"),
        payee_id: text("acc_2"),
        payor_id: text("acc_1"),
        xml_id: Some(7),
        amount: Some(10000),
    };
    assert_eq!(<Transaction as CRUD<String>>::table(), Table::Transactions);
    assert_eq!(
        <Transaction as CRUD<String>>::get_all_fields(),
        vec!["MethodId", "EmployeeId", "PayorId", "PayeeId", "XmlId", "Amount"]
    );
    assert_eq!(strings(t.get_all_values()), vec!["pmt_1", "ent_1", "acc_1", "acc_2", "7", "10000"]);
    assert_eq!(t.get_id(), "pmt_1");
}

#[test]
fn payee_row_layout() {
    let p = Payee { plaid_id: text("PY1"), method_id: text("acc_2"), loan_account_number: Some(5) };
    assert_eq!(<Payee as CRUD<String>>::table(), Table::Payees);
    assert_eq!(<Payee as CRUD<String>>::get_all_fields(), vec!["MethodId", "PlaidId"]);
    assert_eq!(strings(p.get_all_values()), vec!["acc_2", "PY1"]);
    assert_eq!(p.get_id(), "acc_2");
}

#[test]
fn payor_row_layout() {
    let p = Payor {
        dunkin_id: text("PAY1"),
        method_id: text("acc_1"),
        aba_routing: Some(1),
        account_number: Some(2),
        payor_name: text("Dunkin"),
        dba: None,
        ein: text("32"),
        address_id: Some(4),
    };
    assert_eq!(<Payor as CRUD<String>>::table(), Table::Payors);
    assert_eq!(
        <Payor as CRUD<String>>::get_all_fields(),
        vec!["MethodId", "DunkinId", "PayorName", "DBA", "EIN", "AddressId"]
    );
    assert_eq!(strings(p.get_all_values()), vec!["acc_1", "PAY1", "Dunkin", "NULL", "32", "4"]);
    assert_eq!(p.get_id(), "acc_1");
}

#[test]
fn address_row_layout() {
    let a = Address { id: Some(3), line1: text("1 Main"), city: text("Austin"), state: None, zip: Some(78705) };
    assert_eq!(<Address as CRUD<u64>>::table(), Table::Addresses);
    assert_eq!(<Address as CRUD<u64>>::get_all_fields(), vec!["Line1", "City", "StateName", "Zip"]);
    assert_eq!(strings(a.get_all_values()), vec!["1 Main", "Austin", "NULL", "78705"]);
    assert_eq!(a.get_id(), 3);
}

#[test]
fn upload_row_layout() {
    let u = XmlParse {
        id: Some(11),
        filename: "batch".to_string(),
        status: "Init".to_string(),
        started_at: "01/02/2024 03:04:05".to_string(),
        finished_at: None,
    };
    assert_eq!(<XmlParse as CRUD<u64>>::table(), Table::XmlParse);
    assert_eq!(
        <XmlParse as CRUD<u64>>::get_all_fields(),
        vec!["Filename", "Status", "StartedAt", "FinishedAt"]
    );
    assert_eq!(strings(u.get_all_values()), vec!["batch", "Init", "01/02/2024 03:04:05", "NULL"]);
    assert_eq!(u.get_id(), 11);
}

#[test]
fn new_upload_starts_now_and_is_not_finished() {
    let u = XmlParse::new("batch".to_string(), "Init".to_string());
    assert_eq!(u.id, None);
    assert_eq!(u.filename, "batch");
    assert_eq!(u.status, "Init");
    assert_eq!(u.finished_at, None);
    assert!(is_timestamp(&u.started_at), "{}", u.started_at);
}

#[test]
fn set_finished_sets_status_and_time() {
    let mut u = XmlParse::new("batch".to_string(), "Init".to_string());
    u.id = Some(5);
    let started = u.started_at.clone();
    u.set_finished("Finished".to_string());
    assert_eq!(u.status, "Finished");
    assert_eq!(u.id, Some(5));
    assert_eq!(u.filename, "batch");
    assert_eq!(u.started_at, started);
    assert!(is_timestamp(u.finished_at.as_deref().unwrap()));
}

#[test]
fn upload_status_names() {
    assert_eq!(UploadStatus::Init.name(), "Init");
    assert_eq!(UploadStatus::Finished.name(), "Finished");
    assert_eq!(UploadStatus::Failed.name(), "Failed");
}

#[test]
fn only_an_initial_upload_is_open() {
    assert!(UploadStatus::Init.is_open());
    assert!(!UploadStatus::Finished.is_open());
    assert!(!UploadStatus::Failed.is_open());
}

#[test]
fn upload_status_is_read_from_its_name() {
    let mut u = XmlParse::new("batch".to_string(), "Init".to_string());
    assert_eq!(u.status_kind(), Some(UploadStatus::Init));
    u.status = "Finished".to_string();
    assert_eq!(u.status_kind(), Some(UploadStatus::Finished));
    u.status = "Failed".to_string();
    assert_eq!(u.status_kind(), Some(UploadStatus::Failed));
    u.status = "finished".to_string();
    assert_eq!(u.status_kind(), None);
}

#[test]
fn upload_is_taken_in_as_init_under_its_field_name() {
    let u = post_handler(Some("march.xml"));
    assert_eq!(u.filename, "march.xml");
    assert_eq!(u.status, "Init");
    assert_eq!(u.id, None);
    assert_eq!(u.finished_at, None);
    assert!(is_timestamp(&u.started_at));
}

#[test]
fn upload_without_a_field_name_gets_the_fixed_name() {
    let u = post_handler(None);
    assert_eq!(u.filename, "No field");
    assert_eq!(u.status, "Init");
}

#[test]
fn upload_whose_document_was_read_ends_finished() {
    let mut u = post_handler(Some("a"));
    assert!(finish_upload(&mut u, true));
    assert_eq!(u.status, "Finished");
    assert!(u.finished_at.is_some());
}

#[test]
fn upload_whose_document_could_not_be_had_ends_failed() {
    let mut u = post_handler(Some("a"));
    assert!(finish_upload(&mut u, false));
    assert_eq!(u.status, "Failed");
    assert!(u.finished_at.is_some());
}

#[test]
fn upload_is_closed_once() {
    let mut u = post_handler(Some("a"));
    assert!(finish_upload(&mut u, false));
    let closed = u.clone();
    assert!(!finish_upload(&mut u, true));
    assert_eq!(u, closed);
    assert_eq!(u.status, "Failed");
}

#[test]
fn request_shapes_hold_their_fields() {
    let p = Payload { base64_xml: "PHJvdy8+".to_string() };
    assert_eq!(p.base64_xml, "PHJvdy8+");
    let q = TransactionQueryParams { xml_id: 9 };
    assert_eq!(q.xml_id, 9);
}

#[test]
fn sql_string_between_quotes() {
    assert_eq!(SqlString::from_text("E1").quoted(), "'E1'");
    assert_eq!(SqlString::from_text("").quoted(), "''");
    assert_eq!(SqlString::from_opt_u64(None).quoted(), "'NULL'");
}

#[test]
fn list_of_texts_between_quotes() {
    assert_eq!(payroll_ingest::schema::quoted_list(&Vec::new()), "''");
    assert_eq!(payroll_ingest::schema::quoted_list(&vec!["a".to_string()]), "'a'");
    assert_eq!(
        payroll_ingest::schema::quoted_list(&vec!["a".to_string(), "b".to_string(), "c".to_string()]),
        "'a', 'b', 'c'"
    );
}

#[test]
fn placeholders_for_the_columns_of_a_row() {
    assert_eq!(payroll_ingest::schema::placeholders(0), Vec::<&str>::new());
    assert_eq!(payroll_ingest::schema::placeholders(3), vec!["?", "?", "?"]);
}

#[test]
fn upload_end_is_written_as_status_and_time() {
    let mut u = XmlParse::new("batch".to_string(), "Init".to_string());
    let fields: Vec<(String, String)> =
        u.finished_fields().into_iter().map(|c| (c.field.to_string(), c.value.into_string())).collect();
    assert_eq!(
        fields,
        vec![("Status".to_string(), "Init".to_string()), ("FinishedAt".to_string(), "NULL".to_string())]
    );
    u.status = "Failed".to_string();
    u.finished_at = Some("05/03/2024 10:00:00".to_string());
    let fields: Vec<(String, String)> =
        u.finished_fields().into_iter().map(|c| (c.field.to_string(), c.value.into_string())).collect();
    assert_eq!(
        fields,
        vec![
            ("Status".to_string(), "Failed".to_string()),
            ("FinishedAt".to_string(), "05/03/2024 10:00:00".to_string())
        ]
    );
}

#[test]
fn upload_is_picked_by_its_id() {
    let clauses = XmlParse::by_id(12);
    assert_eq!(clauses.len(), 1);
    assert_eq!(clauses[0].field, "Id");
    assert_eq!(clauses[0].value.as_str(), "12");
}

#[test]
fn statement_for_rows_under_one_equality() {
    let clauses = vec![Clause { field: "DunkinId", value: SqlString::from_text("E1") }];
    assert_eq!(get_by_query(Table::Employees, &clauses), "SELECT * FROM Employees WHERE DunkinId = 'E1';");
}

#[test]
fn statement_for_rows_under_several_equalities() {
    let a = Address { id: None, line1: text("999 Hayes Lights"), city: text("Kerlukemouth"), state: None, zip: Some(67485) };
    let clauses = vec![
        Clause { field: "Line1", value: SqlString::from_opt_string(&a.line1) },
        Clause { field: "City", value: SqlString::from_opt_string(&a.city) },
        Clause { field: "StateName", value: SqlString::from_opt_string(&a.state) },
        Clause { field: "Zip", value: SqlString::from_opt_u64(a.zip) },
    ];
    assert_eq!(
        get_by_query(Table::Addresses, &clauses),
        "SELECT * FROM Addresses WHERE (Line1 = '999 Hayes Lights') AND (City = 'Kerlukemouth') \
         AND (StateName = 'NULL') AND (Zip = '67485');"
    );
    assert_eq!(
        get_by_query(Table::Addresses, &clauses[..2].iter().map(|c| Clause { field: c.field, value: c.value.clone() }).collect()),
        "SELECT * FROM Addresses WHERE (Line1 = '999 Hayes Lights') AND (City = 'Kerlukemouth');"
    );
}

#[test]
fn statement_for_all_rows() {
    assert_eq!(get_by_query(Table::XmlParse, &Vec::new()), "SELECT * FROM XmlParse;");
}

#[test]
fn statement_for_rows_whose_field_is_among_values() {
    let ids = vec!["ent_1".to_string(), "ent_2".to_string()];
    assert_eq!(
        get_in_query(Table::Employees, "MethodId", &ids),
        "SELECT * FROM Employees WHERE MethodId IN ('ent_1', 'ent_2');"
    );
    assert_eq!(
        get_in_query(Table::Employees, "MethodId", &Vec::new()),
        "SELECT * FROM Employees WHERE MethodId IN ('');"
    );
}

#[test]
fn statement_for_the_transactions_of_an_upload() {
    assert_eq!(transactions_query(7), "SELECT * FROM Transactions WHERE XmlId = 7;");
}

#[test]
fn statement_that_writes_a_row() {
    assert_eq!(
        insert_query(Table::Payees, &<Payee as CRUD<String>>::get_all_fields()),
        "INSERT INTO Payees (MethodId, PlaidId) VALUES (?, ?);"
    );
    assert_eq!(
        insert_query(Table::Addresses, &<Address as CRUD<u64>>::get_all_fields()),
        "INSERT INTO Addresses (Line1, City, StateName, Zip) VALUES (?, ?, ?, ?);"
    );
    assert_eq!(insert_query(Table::Payors, &vec!["MethodId"]), "INSERT INTO Payors (MethodId) VALUES (?);");
}

#[test]
fn statement_that_records_the_end_of_an_upload() {
    let mut u = XmlParse::new("batch".to_string(), "Init".to_string());
    u.id = Some(7);
    u.status = "Finished".to_string();
    u.finished_at = Some("05/03/2024 10:00:00".to_string());
    assert_eq!(
        update_query(Table::XmlParse, &u.finished_fields(), &u.own_row()),
        Some(
            "UPDATE XmlParse SET Status = 'Finished', FinishedAt = '05/03/2024 10:00:00' WHERE Id = '7';"
                .to_string()
        )
    );
    u.id = None;
    assert_eq!(
        update_query(Table::XmlParse, &u.finished_fields()[..1].iter().map(|c| Clause { field: c.field, value: c.value.clone() }).collect(), &u.own_row()),
        Some("UPDATE XmlParse SET Status = 'Finished' WHERE Id = 'NULL';".to_string())
    );
}

#[test]
fn statement_that_sets_nothing_is_none() {
    assert_eq!(update_query(Table::XmlParse, &Vec::new(), &XmlParse::by_id(3)), None);
}

#[test]
fn statement_that_updates_every_row() {
    let sets = vec![Clause { field: "Status", value: SqlString::from_text("Failed") }];
    assert_eq!(
        update_query(Table::XmlParse, &sets, &Vec::new()),
        Some("UPDATE XmlParse SET Status = 'Failed';".to_string())
    );
}
