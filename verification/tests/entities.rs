use payroll_ingest::entities::account::{DestAccount, Liability, SourceAccount, ACH};
use payroll_ingest::entities::entity::{Address as EntityAddress, Entity, Individual};
use payroll_ingest::entities::payment::Payment;
use payroll_ingest::entities::persist::{AddressResolution, Persist, Resolution};
use payroll_ingest::entities::Error;
use payroll_ingest::schema::address::Address;
use payroll_ingest::schema::employee::Employee;
use payroll_ingest::schema::payee::Payee;
use payroll_ingest::schema::payor::Payor;
use payroll_ingest::schema::transaction::Transaction;
use payroll_ingest::schema::Clause;
use payroll_ingest::utility::method_client::{
    bearer, is_success, read_response, request_uri, Body, Error as ClientError, METHOD_BASE_URL,
};

fn text(s: &str) -> Option<String> {
    Some(s.to_string())
}

fn ann() -> Employee {
    Employee {
        dunkin_id: text("E1"),
        method_id: None,
        dunkin_branch: text("B1"),
        first_name: text("Ann"),
        last_name: text("Lee"),
        dob: text("01-02-1990"),
        phone_number: text("+15125550100"),
    }
}

fn ann_entity() -> Entity {
    Entity {
        entity_type: "individual".to_string(),
        individual: Individual {
            first_name: "Ann".to_string(),
            last_name: "Lee".to_string(),
            dob: "1997-03-18".to_string(),
            email: "Ann.Lee@dunkins.com".to_string(),
            phone: "+15121231111".to_string(),
        },
        address: EntityAddress {
            line1: "3300 N Interstate 35".to_string(),
            line2: "".to_string(),
            city: "Austin".to_string(),
            state: "TX".to_string(),
            zip: "78705".to_string(),
        },
    }
}

fn pairs(clauses: Vec<Clause>) -> Vec<(String, String)> {
    clauses.into_iter().map(|c| (c.field.to_string(), c.value.into_string())).collect()
}

fn pair(field: &str, value: &str) -> (String, String) {
    (field.to_string(), value.to_string())
}

fn known_employee(id: &str, canonical: Option<&str>) -> Employee {
    let mut e = Employee::new();
    e.dunkin_id = text(id);
    e.method_id = canonical.map(|c| c.to_string());
    e
}

#[test]
fn entity_of_an_employee_carries_its_names() {
    assert_eq!(Entity::from_employee(&ann()), Ok(ann_entity()));
}

#[test]
fn entity_needs_the_first_name() {
    let mut e = ann();
    e.first_name = None;
    e.last_name = None;
    assert_eq!(Entity::from_employee(&e), Err(Error::InvalidDataError("Employee has no first name".to_string())));
}

#[test]
fn entity_needs_the_last_name() {
    let mut e = ann();
    e.last_name = None;
    assert_eq!(Entity::from_employee(&e), Err(Error::InvalidDataError("Employee has no last name".to_string())));
}

#[test]
fn entity_clone_is_equal() {
    assert_eq!(ann_entity().clone(), ann_entity());
}

#[test]
fn dest_account_of_a_payee_is_filed_under_its_natural_id() {
    let p = Payee { plaid_id: text("PY1"), method_id: None, loan_account_number: Some(91400799) };
    assert_eq!(
        DestAccount::from_payee(&p),
        Ok(DestAccount {
            holder_id: "PY1".to_string(),
            liability: Liability { mch_id: "mch_2".to_string(), account_number: "91400799".to_string() },
        })
    );
}

#[test]
fn dest_account_needs_natural_id_and_account_number() {
    let p = Payee { plaid_id: None, method_id: None, loan_account_number: None };
    assert_eq!(DestAccount::from_payee(&p), Err(Error::InvalidDataError("Payee has no natural id".to_string())));
    let p = Payee { plaid_id: text("PY1"), method_id: None, loan_account_number: None };
    assert_eq!(DestAccount::from_payee(&p), Err(Error::InvalidDataError("Payee has no account number".to_string())));
}

#[test]
fn source_account_of_a_payor_is_a_checking_account() {
    let mut p = Payor::new();
    p.aba_routing = Some(148386123);
    p.account_number = Some(12345678);
    assert_eq!(
        SourceAccount::from_payor(&p),
        Ok(SourceAccount {
            holder_id: "".to_string(),
            ach: ACH {
                routing: "148386123".to_string(),
                number: "12345678".to_string(),
                ach_type: "checking".to_string(),
            },
        })
    );
}

#[test]
fn source_account_needs_routing_and_account_number() {
    let mut p = Payor::new();
    p.account_number = Some(1);
    assert_eq!(SourceAccount::from_payor(&p), Err(Error::InvalidDataError("Payor has no routing number".to_string())));
    let mut p = Payor::new();
    p.aba_routing = Some(1);
    assert_eq!(SourceAccount::from_payor(&p), Err(Error::InvalidDataError("Payor has no account number".to_string())));
}

#[test]
fn payment_of_a_transaction_is_described_by_its_upload() {
    let t = Transaction {
        method_id: None,
        employee_id: text("ent_1"),
        payee_id: text("acc_2"),
        payor_id: text("acc_1"),
        xml_id: Some(42),
        amount: Some(10000),
    };
    assert_eq!(
        Payment::from_transaction(&t),
        Ok(Payment {
            amount: 10000,
            source: "acc_1".to_string(),
            destination: "acc_2".to_string(),
            description: "42".to_string(),
        })
    );
}

#[test]
fn payment_names_the_first_thing_that_a_transaction_lacks() {
    let full = Transaction {
        method_id: None,
        employee_id: None,
        payee_id: text("acc_2"),
        payor_id: text("acc_1"),
        xml_id: Some(42),
        amount: Some(1),
    };
    let mut t = full.clone();
    t.amount = None;
    t.payor_id = None;
    assert_eq!(Payment::from_transaction(&t), Err(Error::InvalidDataError("Transaction has no amount".to_string())));
    let mut t = full.clone();
    t.payor_id = None;
    t.payee_id = None;
    assert_eq!(Payment::from_transaction(&t), Err(Error::InvalidDataError("Transaction has no payor".to_string())));
    let mut t = full.clone();
    t.payee_id = None;
    t.xml_id = None;
    assert_eq!(Payment::from_transaction(&t), Err(Error::InvalidDataError("Transaction has no payee".to_string())));
    let mut t = full.clone();
    t.xml_id = None;
    assert_eq!(Payment::from_transaction(&t), Err(Error::InvalidDataError("Transaction has no upload".to_string())));
}

#[test]
fn error_texts_name_kind_and_cause() {
    assert_eq!(Error::invalid("bad").message(), "Invalid Data Error: bad");
    assert_eq!(Error::DatabaseError("down".to_string()).message(), "Database Error: down");
    assert_eq!(
        Error::from_client(ClientError::HTTPError(404, "no such entity".to_string())).message(),
        "Http Error: Http Error: 404. no such entity"
    );
}

#[test]
fn client_error_texts() {
    assert_eq!(ClientError::HTTPError(500, "".to_string()).message(), "Http Error: 500. ");
    assert_eq!(ClientError::RequestBuilderError("bad uri".to_string()).message(), "RequestBuilder Error: bad uri");
    assert_eq!(ClientError::IOError("reset".to_string()).message(), "IO Error: reset");
    assert_eq!(ClientError::SerializeError("eof".to_string()).message(), "Serialization Error: eof");
}

#[test]
fn errors_clone_equal() {
    let e = Error::from_client(ClientError::IOError("reset".to_string()));
    assert_eq!(e.clone(), e);
    assert_eq!(e, Error::HTTPError(ClientError::IOError("reset".to_string())));
}

#[test]
fn lookup_of_an_employee_is_by_natural_id() {
    assert_eq!(pairs(ann().lookup()), vec![pair("DunkinId", "E1")]);
    assert_eq!(pairs(Employee::new().lookup()), vec![pair("DunkinId", "NULL")]);
}

#[test]
fn lookup_of_a_payor_is_by_natural_id() {
    let mut p = Payor::new();
    p.dunkin_id = text("PAY1");
    assert_eq!(pairs(p.lookup()), vec![pair("DunkinId", "PAY1")]);
}

#[test]
fn lookup_of_a_payee_is_by_natural_id() {
    let p = Payee { plaid_id: text("PY1"), method_id: None, loan_account_number: None };
    assert_eq!(pairs(p.lookup()), vec![pair("PlaidId", "PY1")]);
}

#[test]
fn lookup_of_an_address_is_by_all_four_fields() {
    let a = Address { id: Some(9), line1: text("1 Main"), city: text("Austin"), state: None, zip: Some(78705) };
    assert_eq!(
        pairs(a.lookup()),
        vec![pair("Line1", "1 Main"), pair("City", "Austin"), pair("StateName", "NULL"), pair("Zip", "78705")]
    );
}

#[test]
fn new_employee_is_registered() {
    assert_eq!(ann().persist(&Vec::new(), ()), Ok(Resolution::Register(ann_entity())));
}

#[test]
fn new_employee_without_names_is_refused() {
    let mut e = ann();
    e.first_name = None;
    assert_eq!(e.persist(&Vec::new(), ()), Err(Error::InvalidDataError("Employee has no first name".to_string())));
}

#[test]
fn known_employee_is_reused() {
    let rows = vec![known_employee("E1", Some("ent_7"))];
    assert_eq!(ann().persist(&rows, ()), Ok(Resolution::Reuse("ent_7".to_string())));
}

#[test]
fn known_employee_without_names_is_reused_all_the_same() {
    let rows = vec![known_employee("E1", Some("ent_7"))];
    assert_eq!(known_employee("E1", None).persist(&rows, ()), Ok(Resolution::Reuse("ent_7".to_string())));
}

#[test]
fn employee_with_several_rows_takes_the_first() {
    let rows = vec![known_employee("E1", Some("ent_7")), known_employee("E1", Some("ent_8"))];
    assert_eq!(ann().persist(&rows, ()), Ok(Resolution::Reuse("ent_7".to_string())));
}

#[test]
fn employee_row_without_canonical_id_is_refused() {
    let rows = vec![known_employee("E1", None), known_employee("E1", Some("ent_8"))];
    assert_eq!(ann().persist(&rows, ()), Err(Error::InvalidDataError("Employee row has no canonical id".to_string())));
}

#[test]
fn unknown_payor_is_refused_by_name() {
    let mut p = Payor::new();
    p.dunkin_id = text("PAY404");
    p.aba_routing = Some(1);
    p.account_number = Some(2);
    assert_eq!(
        p.persist(&Vec::new(), ()),
        Err(Error::InvalidDataError("Payor PAY404 is not one of the known payors".to_string()))
    );
}

#[test]
fn payor_without_natural_id_is_refused_whatever_the_rows() {
    let refused = Err(Error::InvalidDataError("Payor has no natural id".to_string()));
    assert_eq!(Payor::new().persist(&Vec::new(), ()), refused);
    let mut row = Payor::new();
    row.method_id = text("acc_1");
    assert_eq!(Payor::new().persist(&vec![row], ()), refused);
}

#[test]
fn employee_without_natural_id_is_refused_whatever_the_rows() {
    let mut e = ann();
    e.dunkin_id = None;
    let refused = Err(Error::InvalidDataError("Employee has no natural id".to_string()));
    assert_eq!(e.persist(&Vec::new(), ()), refused);
    assert_eq!(e.persist(&vec![known_employee("E1", Some("ent_7"))], ()), refused);
    assert_eq!(Employee::new().persist(&Vec::new(), ()), refused);
}

#[test]
fn payee_without_natural_id_is_refused_whatever_the_rows() {
    let p = Payee { plaid_id: None, method_id: None, loan_account_number: Some(5) };
    let refused = Err(Error::InvalidDataError("Payee has no natural id".to_string()));
    assert_eq!(p.persist(&Vec::new(), "ent_1".to_string()), refused);
    let rows = vec![Payee { plaid_id: None, method_id: text("acc_2"), loan_account_number: None }];
    assert_eq!(p.persist(&rows, "ent_1".to_string()), refused);
}

#[test]
fn known_payor_is_reused() {
    let mut row = Payor::new();
    row.dunkin_id = text("PAY1");
    row.method_id = text("acc_1");
    let mut second = Payor::new();
    second.method_id = text("acc_9");
    let mut p = Payor::new();
    p.dunkin_id = text("PAY1");
    assert_eq!(p.persist(&vec![row.clone()], ()), Ok("acc_1".to_string()));
    assert_eq!(p.persist(&vec![row, second], ()), Ok("acc_1".to_string()));
}

#[test]
fn payor_row_without_canonical_id_is_refused() {
    let mut p = Payor::new();
    p.dunkin_id = text("PAY1");
    assert_eq!(p.persist(&vec![Payor::new()], ()), Err(Error::InvalidDataError("Payor row has no canonical id".to_string())));
}

#[test]
fn new_payee_is_registered_under_the_employee() {
    let p = Payee { plaid_id: text("PY1"), method_id: None, loan_account_number: Some(91400799) };
    assert_eq!(
        p.persist(&Vec::new(), "ent_1".to_string()),
        Ok(Resolution::Register(DestAccount {
            holder_id: "ent_1".to_string(),
            liability: Liability { mch_id: "mch_2".to_string(), account_number: "91400799".to_string() },
        }))
    );
}

#[test]
fn new_payee_without_account_number_is_refused() {
    let p = Payee { plaid_id: text("PY1"), method_id: None, loan_account_number: None };
    assert_eq!(
        p.persist(&Vec::new(), "ent_1".to_string()),
        Err(Error::InvalidDataError("Payee has no account number".to_string()))
    );
}

#[test]
fn known_payee_is_reused() {
    let p = Payee { plaid_id: text("PY1"), method_id: None, loan_account_number: None };
    let rows = vec![
        Payee { plaid_id: text("PY1"), method_id: text("acc_2"), loan_account_number: None },
        Payee { plaid_id: text("PY1"), method_id: text("acc_3"), loan_account_number: None },
    ];
    assert_eq!(p.persist(&rows, "ent_1".to_string()), Ok(Resolution::Reuse("acc_2".to_string())));
}

#[test]
fn payee_row_without_canonical_id_is_refused() {
    let p = Payee { plaid_id: text("PY1"), method_id: None, loan_account_number: Some(1) };
    let rows = vec![Payee { plaid_id: text("PY1"), method_id: None, loan_account_number: None }];
    assert_eq!(
        p.persist(&rows, "ent_1".to_string()),
        Err(Error::InvalidDataError("Payee row has no canonical id".to_string()))
    );
}

#[test]
fn new_address_is_written_and_a_known_one_reused() {
    let a = Address::new();
    assert_eq!(a.persist(&Vec::new(), ()), Ok(AddressResolution::Insert));
    let mut first = Address::new();
    first.id = Some(4);
    let mut second = Address::new();
    second.id = Some(5);
    assert_eq!(a.persist(&vec![first.clone()], ()), Ok(AddressResolution::Known(Some(4))));
    assert_eq!(a.persist(&vec![first, second], ()), Ok(AddressResolution::Known(Some(4))));
    assert_eq!(a.persist(&vec![Address::new()], ()), Ok(AddressResolution::Known(None)));
}

#[test]
fn uri_of_an_endpoint() {
    assert_eq!(METHOD_BASE_URL, "https://dev.methodfi.com");
    assert_eq!(request_uri("payments", &Vec::new()), "https://dev.methodfi.com/payments");
    assert_eq!(request_uri("entities", &Vec::new()), "https://dev.methodfi.com/entities");
}

#[test]
fn uri_with_a_query_parameter() {
    let params = vec![("status".to_string(), "pending".to_string())];
    assert_eq!(request_uri("payments", &params), "https://dev.methodfi.com/payments?status=pending");
}

#[test]
fn uri_with_several_query_parameters_joins_them_in_order() {
    let mut params = vec![("a".to_string(), "1".to_string()), ("b".to_string(), "2".to_string())];
    assert_eq!(request_uri("payments", &params), "https://dev.methodfi.com/payments?a=1&b=2");
    params.push(("c".to_string(), "".to_string()));
    assert_eq!(request_uri("payments", &params), "https://dev.methodfi.com/payments?a=1&b=2&c=");
}

#[test]
fn bearer_credential() {
    assert_eq!(bearer("sk_test"), "Bearer sk_test");
    assert_eq!(bearer(""), "Bearer ");
}

#[test]
fn success_is_the_two_hundreds() {
    assert!(!is_success(199));
    assert!(is_success(200));
    assert!(is_success(201));
    assert!(is_success(299));
    assert!(!is_success(300));
    assert!(!is_success(404));
    assert!(!is_success(0));
}

#[test]
fn response_with_data_under_success_is_the_data() {
    assert_eq!(read_response(200, Body::Data(7u32)), Ok(7));
    assert_eq!(read_response(201, Body::Data("x".to_string())), Ok("x".to_string()));
}

#[test]
fn response_unreadable_under_success_is_a_serialize_error() {
    assert_eq!(
        read_response::<u32>(200, Body::Unreadable("missing field `id`".to_string())),
        Err(ClientError::SerializeError("missing field `id`".to_string()))
    );
    assert_eq!(
        read_response::<u32>(200, Body::Failure("odd".to_string())),
        Err(ClientError::SerializeError("Body does not hold what was asked for".to_string()))
    );
}

#[test]
fn response_under_failure_carries_status_and_message() {
    assert_eq!(
        read_response::<u32>(400, Body::Failure("Invalid account number".to_string())),
        Err(ClientError::HTTPError(400, "Invalid account number".to_string()))
    );
    assert_eq!(
        read_response::<u32>(503, Body::Unreadable("not json".to_string())),
        Err(ClientError::HTTPError(503, "".to_string()))
    );
    assert_eq!(read_response(404, Body::Data(7u32)), Err(ClientError::HTTPError(404, "".to_string())));
}
