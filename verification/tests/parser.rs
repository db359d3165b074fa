use payroll_ingest::entities::Error;
use payroll_ingest::schema::address::Address;
use payroll_ingest::schema::employee::Employee;
use payroll_ingest::schema::payee::Payee;
use payroll_ingest::schema::payor::Payor;
use payroll_ingest::utility::parser::{
    finish_block, parse, parse_address, parse_employee, parse_payee, parse_payor,
    parse_transaction, tokenize, Block, DocEvent, Draft, Malformed, ParseError, RowEnd,
};

fn open(name: &str) -> DocEvent {
    DocEvent::StartElement(name.to_string())
}

fn close(name: &str) -> DocEvent {
    DocEvent::EndElement(name.to_string())
}

fn chars(text: &str) -> DocEvent {
    DocEvent::Characters(text.to_string())
}

fn field(name: &str, text: &str) -> Vec<DocEvent> {
    vec![open(name), chars(text), close(name)]
}

fn text(s: &str) -> Option<String> {
    Some(s.to_string())
}

fn employee_events(id: &str) -> Vec<DocEvent> {
    let mut v = vec![open("Employee")];
    v.extend(field("DunkinId", id));
    v.extend(field("DunkinBranch", "B1"));
    v.extend(field("FirstName", "Ann"));
    v.extend(field("LastName", "Lee"));
    v.push(close("Employee"));
    v
}

fn payor_events(id: &str) -> Vec<DocEvent> {
    let mut v = vec![open("Payor")];
    v.extend(field("DunkinId", id));
    v.push(close("Payor"));
    v
}

fn payee_events(id: &str) -> Vec<DocEvent> {
    let mut v = vec![open("Payee")];
    v.extend(field("PlaidId", id));
    v.extend(field("LoanAccountNumber", "91400799"));
    v.push(close("Payee"));
    v
}

fn row_events(employee: &str, payor: &str, payee: &str, amount: &str) -> Vec<DocEvent> {
    let mut v = vec![open("row")];
    v.extend(employee_events(employee));
    v.extend(payor_events(payor));
    v.extend(payee_events(payee));
    v.extend(field("Amount", amount));
    v.push(close("row"));
    v
}

fn ann(id: &str) -> Employee {
    Employee {
        dunkin_id: text(id),
        method_id: None,
        dunkin_branch: text("B1"),
        first_name: text("Ann"),
        last_name: text("Lee"),
        dob: None,
        phone_number: None,
    }
}

fn payor(id: &str) -> Payor {
    let mut p = Payor::new();
    p.dunkin_id = text(id);
    p
}

fn payee(id: &str) -> Payee {
    Payee { plaid_id: text(id), method_id: None, loan_account_number: Some(91400799) }
}

fn block(employee: &str, payor_id: &str, payee_id: &str, amount: u64) -> Block {
    Block { employee: ann(employee), payor: payor(payor_id), address: None, payee: payee(payee_id), amount }
}

const DOCUMENT: &str = r#"<?xml version="1.0" encoding="UTF-8"?>
<root>
  <row>
    <Employee>
      <DunkinId>E1</DunkinId>
      <DunkinBranch>B1</DunkinBranch>
      <FirstName>Ann</FirstName>
      <LastName>Lee</LastName>
      <DOB>01-02-1990</DOB>
      <PhoneNumber>+15125550100</PhoneNumber>
    </Employee>
    <Payor>
      <DunkinId>PAY1</DunkinId>
      <ABARouting>148386123</ABARouting>
      <AccountNumber>12345678</AccountNumber>
      <Name>Dunkin Donuts</Name>
      <DBA>Dunkin</DBA>
      <EIN>32120240</EIN>
      <Address>
        <Line1>999 Hayes Lights</Line1>
        <City>Kerlukemouth</City>
        <State>IA</State>
        <Zip>67485</Zip>
      </Address>
    </Payor>
    <Payee>
      <PlaidId>PY1</PlaidId>
      <LoanAccountNumber>91400799</LoanAccountNumber>
    </Payee>
    <Amount>$100.00</Amount>
  </row>
</root>"#;

#[test]
fn tokenize_reduces_a_small_document() {
    let events = tokenize(b"<a><b>x &amp; y</b> <c/></a>");
    assert_eq!(
        events,
        vec![
            DocEvent::Other,
            open("a"),
            open("b"),
            chars("x & y"),
            close("b"),
            DocEvent::Whitespace,
            open("c"),
            close("c"),
            close("a"),
            DocEvent::EndDocument,
        ]
    );
}

#[test]
fn tokenize_keeps_local_names_only() {
    let events = tokenize(b"<p:row xmlns:p=\"urn:x\"></p:row>");
    assert_eq!(events, vec![DocEvent::Other, open("row"), close("row"), DocEvent::EndDocument]);
}

#[test]
fn tokenize_marks_what_is_not_text_or_element_as_other() {
    let events = tokenize(b"<a><?pi data?><![CDATA[raw]]><!-- note --></a>");
    assert_eq!(
        events,
        vec![DocEvent::Other, open("a"), DocEvent::Other, DocEvent::Other, close("a"), DocEvent::EndDocument]
    );
}

#[test]
fn tokenize_ends_with_an_error_where_the_document_breaks_off() {
    let events = tokenize(b"<a><b>text</b>");
    assert_eq!(events.last(), Some(&DocEvent::Error));
    assert_eq!(events[..5], [DocEvent::Other, open("a"), open("b"), chars("text"), close("b")]);
    assert_eq!(events.iter().filter(|e| **e == DocEvent::Error).count(), 1);
}

#[test]
fn tokenize_of_mismatched_tags_ends_with_an_error() {
    let events = tokenize(b"<a><b></a>");
    assert_eq!(events, vec![DocEvent::Other, open("a"), open("b"), DocEvent::Error]);
}

#[test]
fn tokenize_of_nothing_is_an_error() {
    let events = tokenize(b"");
    assert_eq!(events.last(), Some(&DocEvent::Error));
}

#[test]
fn employee_is_read_to_its_closing_element() {
    let mut events = employee_events("E1");
    events.remove(0);
    events.push(chars("behind"));
    let (employee, next) = parse_employee(&events, 0);
    assert_eq!(employee, ann("E1"));
    assert_eq!(next, events.len() - 1);
}

#[test]
fn employee_fields_are_chosen_by_lowercased_tag() {
    let mut events = Vec::new();
    events.extend(field("DUNKINID", "E9"));
    events.extend(field("dunkinbranch", "B2"));
    events.extend(field("FirstNAME", "Bo"));
    events.extend(field("lastName", "Ek"));
    events.extend(field("Dob", "02-03-1991"));
    events.extend(field("PHONENUMBER", "+1512"));
    events.push(close("Employee"));
    let (employee, next) = parse_employee(&events, 0);
    assert_eq!(
        employee,
        Employee {
            dunkin_id: text("E9"),
            method_id: None,
            dunkin_branch: text("B2"),
            first_name: text("Bo"),
            last_name: text("Ek"),
            dob: text("02-03-1991"),
            phone_number: text("+1512"),
        }
    );
    assert_eq!(next, events.len());
}

#[test]
fn employee_ignores_unknown_tags_and_whitespace() {
    let mut events = Vec::new();
    events.push(DocEvent::Whitespace);
    events.extend(field("Nickname", "Annie"));
    events.extend(field("MethodId", "ent_x"));
    events.push(DocEvent::Whitespace);
    events.extend(field("DunkinId", "E1"));
    events.push(close("Employee"));
    let (employee, _) = parse_employee(&events, 0);
    let mut want = Employee::new();
    want.dunkin_id = text("E1");
    assert_eq!(employee, want);
}

#[test]
fn employee_text_goes_under_the_element_last_opened() {
    let events = vec![
        chars("lost"),
        open("DunkinId"),
        chars("E1"),
        close("DunkinId"),
        chars("E2"),
        open("FirstName"),
        open("Given"),
        chars("Ann"),
        close("Given"),
        close("FirstName"),
        close("Employee"),
    ];
    let (employee, _) = parse_employee(&events, 0);
    let mut want = Employee::new();
    want.dunkin_id = text("E2");
    assert_eq!(employee, want);
}

#[test]
fn employee_later_text_replaces_earlier() {
    let mut events = Vec::new();
    events.extend(field("FirstName", "Ann"));
    events.extend(field("FirstName", "Bea"));
    events.push(close("Employee"));
    let (employee, _) = parse_employee(&events, 0);
    assert_eq!(employee.first_name, text("Bea"));
}

#[test]
fn employee_reading_stops_behind_an_event_that_cannot_stand_in_a_record() {
    let events = vec![open("DunkinId"), chars("E1"), DocEvent::Other, chars("E2"), close("Employee")];
    let (employee, next) = parse_employee(&events, 0);
    assert_eq!(employee.dunkin_id, text("E1"));
    assert_eq!(next, 3);
}

#[test]
fn employee_reading_stops_before_an_error_or_the_end() {
    let events = vec![open("DunkinId"), chars("E1"), DocEvent::Error];
    assert_eq!(parse_employee(&events, 0).1, 2);
    let events = vec![open("DunkinId"), chars("E1"), DocEvent::EndDocument];
    assert_eq!(parse_employee(&events, 0).1, 2);
    let events = vec![open("DunkinId"), chars("E1")];
    assert_eq!(parse_employee(&events, 0).1, 2);
    assert_eq!(parse_employee(&events, 7), (Employee::new(), 7));
}

#[test]
fn employee_closing_name_is_matched_exactly() {
    let events = vec![close("employee"), open("DunkinId"), chars("E1"), close("Employee"), close("Employee")];
    let (employee, next) = parse_employee(&events, 0);
    assert_eq!(employee.dunkin_id, text("E1"));
    assert_eq!(next, 4);
}

#[test]
fn payee_is_read_with_its_account_number() {
    let mut events = payee_events("PY1");
    events.remove(0);
    let (found, next) = parse_payee(&events, 0);
    assert_eq!(found, Some(payee("PY1")));
    assert_eq!(next, events.len());
}

#[test]
fn payee_with_an_unreadable_account_number_is_refused() {
    let mut events = Vec::new();
    events.extend(field("PlaidId", "PY1"));
    events.extend(field("LoanAccountNumber", "91-400"));
    events.push(close("Payee"));
    let (found, next) = parse_payee(&events, 0);
    assert_eq!(found, None);
    assert_eq!(next, 5);
}

#[test]
fn address_is_read_with_its_zip() {
    let mut events = Vec::new();
    events.extend(field("Line1", "999 Hayes Lights"));
    events.extend(field("City", "Kerlukemouth"));
    events.extend(field("State", "IA"));
    events.extend(field("Zip", "67485"));
    events.push(close("Address"));
    let (found, next) = parse_address(&events, 0);
    assert_eq!(
        found,
        Some(Address {
            id: None,
            line1: text("999 Hayes Lights"),
            city: text("Kerlukemouth"),
            state: text("IA"),
            zip: Some(67485),
        })
    );
    assert_eq!(next, events.len());
}

#[test]
fn address_with_an_unreadable_zip_is_refused() {
    let mut events = Vec::new();
    events.extend(field("Zip", "67485-1234"));
    events.push(close("Address"));
    assert_eq!(parse_address(&events, 0), (None, 2));
}

#[test]
fn payor_is_read_with_its_address() {
    let mut events = Vec::new();
    events.extend(field("DunkinId", "PAY1"));
    events.extend(field("ABARouting", "148386123"));
    events.extend(field("AccountNumber", "12345678"));
    events.extend(field("Name", "Dunkin Donuts"));
    events.extend(field("DBA", "Dunkin"));
    events.extend(field("EIN", "32120240"));
    events.push(open("Address"));
    events.extend(field("Line1", "1 Main"));
    events.extend(field("Zip", "5"));
    events.push(close("Address"));
    events.push(close("Payor"));
    let (found, next) = parse_payor(&events, 0);
    let want = Payor {
        dunkin_id: text("PAY1"),
        method_id: None,
        aba_routing: Some(148386123),
        account_number: Some(12345678),
        payor_name: text("Dunkin Donuts"),
        dba: text("Dunkin"),
        ein: text("32120240"),
        address_id: None,
    };
    let address = Address { id: None, line1: text("1 Main"), city: None, state: None, zip: Some(5) };
    assert_eq!(found, Some((want, Some(address))));
    assert_eq!(next, events.len());
}

#[test]
fn payor_without_an_address_has_none() {
    let mut events = payor_events("PAY1");
    events.remove(0);
    let (found, _) = parse_payor(&events, 0);
    assert_eq!(found, Some((payor("PAY1"), None)));
}

#[test]
fn payor_keeps_the_last_of_two_addresses() {
    let mut events = vec![open("Address")];
    events.extend(field("City", "One"));
    events.push(close("Address"));
    events.push(open("Address"));
    events.extend(field("City", "Two"));
    events.push(close("Address"));
    events.push(close("Payor"));
    let (found, _) = parse_payor(&events, 0);
    let (_, address) = found.unwrap();
    assert_eq!(address.unwrap().city, text("Two"));
}

#[test]
fn payor_text_behind_its_address_goes_under_the_address_tag() {
    let mut events = vec![open("Address"), close("Address"), chars("stray")];
    events.extend(field("DunkinId", "PAY1"));
    events.push(close("Payor"));
    let (found, _) = parse_payor(&events, 0);
    assert_eq!(found, Some((payor("PAY1"), Some(Address::new()))));
}

#[test]
fn payor_with_an_unreadable_number_is_refused() {
    let mut events = Vec::new();
    events.extend(field("ABARouting", "x"));
    events.push(close("Payor"));
    assert_eq!(parse_payor(&events, 0), (None, 2));
    let mut events = Vec::new();
    events.extend(field("AccountNumber", ""));
    events.push(close("Payor"));
    assert_eq!(parse_payor(&events, 0).0, None);
}

#[test]
fn payor_with_an_unreadable_zip_in_its_address_is_refused() {
    let mut events = vec![open("Address")];
    events.extend(field("Zip", "abc"));
    events.push(close("Address"));
    events.push(close("Payor"));
    assert_eq!(parse_payor(&events, 0), (None, 3));
}

#[test]
fn transaction_block_is_read_to_its_closing_row() {
    let mut events = row_events("E1", "PAY1", "PY1", "$12.50");
    events.remove(0);
    events.push(open("row"));
    let (draft, next, end) = parse_transaction(&events, 0);
    assert_eq!(end, RowEnd::Closed);
    assert_eq!(next, events.len() - 1);
    assert_eq!(draft.employee, Some(ann("E1")));
    assert_eq!(draft.payor, Some(payor("PAY1")));
    assert_eq!(draft.address, None);
    assert_eq!(draft.payee, Some(payee("PY1")));
    assert_eq!(draft.amount, Some(1250));
}

#[test]
fn transaction_amount_tag_is_lowercased() {
    let mut events = Vec::new();
    events.extend(field("AMOUNT", "$0.01"));
    events.push(close("row"));
    let (draft, _, end) = parse_transaction(&events, 0);
    assert_eq!(end, RowEnd::Closed);
    assert_eq!(draft.amount, Some(1));
}

#[test]
fn transaction_with_an_unreadable_amount_is_unreadable() {
    let mut events = Vec::new();
    events.extend(field("Amount", "a lot"));
    events.push(close("row"));
    let (_, next, end) = parse_transaction(&events, 0);
    assert_eq!(end, RowEnd::Unreadable);
    assert_eq!(next, 2);
}

#[test]
fn transaction_with_an_unreadable_number_in_a_record_is_unreadable() {
    let mut events = vec![open("Payee")];
    events.extend(field("LoanAccountNumber", "none"));
    events.push(close("Payee"));
    events.push(close("row"));
    let (_, next, end) = parse_transaction(&events, 0);
    assert_eq!(end, RowEnd::Unreadable);
    assert_eq!(next, 3);
}

#[test]
fn transaction_is_aborted_by_an_error() {
    let mut events = row_events("E1", "PAY1", "PY1", "$1");
    events.remove(0);
    events.pop();
    events.push(DocEvent::Error);
    let (draft, next, end) = parse_transaction(&events, 0);
    assert_eq!(end, RowEnd::Aborted);
    assert_eq!(next, events.len() - 1);
    assert!(draft.employee.is_some());
}

#[test]
fn transaction_is_aborted_by_an_error_inside_a_record() {
    let events = vec![open("Employee"), open("DunkinId"), chars("E1"), DocEvent::Error];
    let (draft, next, end) = parse_transaction(&events, 0);
    assert_eq!(end, RowEnd::Aborted);
    assert_eq!(next, 3);
    assert_eq!(draft.employee.unwrap().dunkin_id, text("E1"));
}

#[test]
fn transaction_is_closed_by_an_event_that_cannot_stand_in_a_block() {
    let events = vec![open("Amount"), chars("$2"), DocEvent::Other, close("row")];
    let (draft, next, end) = parse_transaction(&events, 0);
    assert_eq!(end, RowEnd::Closed);
    assert_eq!(next, 3);
    assert_eq!(draft.amount, Some(200));
}

#[test]
fn transaction_is_closed_by_the_end_of_the_document() {
    let events = vec![open("Amount"), chars("$2"), DocEvent::EndDocument];
    let (_, next, end) = parse_transaction(&events, 0);
    assert_eq!(end, RowEnd::Closed);
    assert_eq!(next, 2);
}

#[test]
fn transaction_later_record_replaces_earlier() {
    let mut events = employee_events("E1");
    events.extend(employee_events("E2"));
    events.push(close("row"));
    let (draft, _, _) = parse_transaction(&events, 0);
    assert_eq!(draft.employee, Some(ann("E2")));
}

#[test]
fn block_needs_employee_payor_payee_and_amount() {
    let full = || Draft {
        employee: Some(ann("E1")),
        payor: Some(payor("PAY1")),
        address: None,
        payee: Some(payee("PY1")),
        amount: Some(5),
    };
    assert_eq!(finish_block(full()), Ok(block("E1", "PAY1", "PY1", 5)));
    let mut d = full();
    d.employee = None;
    d.payor = None;
    assert_eq!(finish_block(d), Err(Malformed::MissingEmployee));
    let mut d = full();
    d.payor = None;
    d.payee = None;
    assert_eq!(finish_block(d), Err(Malformed::MissingPayor));
    let mut d = full();
    d.payee = None;
    d.amount = None;
    assert_eq!(finish_block(d), Err(Malformed::MissingPayee));
    let mut d = full();
    d.amount = None;
    assert_eq!(finish_block(d), Err(Malformed::MissingAmount));
}

#[test]
fn block_keeps_the_address_of_its_payor() {
    let d = Draft {
        employee: Some(ann("E1")),
        payor: Some(payor("PAY1")),
        address: Some(Address::new()),
        payee: Some(payee("PY1")),
        amount: Some(5),
    };
    assert_eq!(finish_block(d).unwrap().address, Some(Address::new()));
}

#[test]
fn document_without_blocks_has_none() {
    assert_eq!(parse(&Vec::new()), Vec::new());
    assert_eq!(parse(&vec![DocEvent::Other, open("root"), close("root"), DocEvent::EndDocument]), Vec::new());
}

#[test]
fn document_blocks_come_in_their_order() {
    let mut events = vec![DocEvent::Other, open("root")];
    events.extend(row_events("E1", "PAY1", "PY1", "$1.00"));
    events.push(DocEvent::Whitespace);
    events.extend(row_events("E2", "PAY2", "PY2", "$2.00"));
    events.extend(row_events("E3", "PAY3", "PY3", "$3.00"));
    events.push(close("root"));
    events.push(DocEvent::EndDocument);
    assert_eq!(
        parse(&events),
        vec![
            Ok(block("E1", "PAY1", "PY1", 100)),
            Ok(block("E2", "PAY2", "PY2", 200)),
            Ok(block("E3", "PAY3", "PY3", 300)),
        ]
    );
}

#[test]
fn document_block_that_lacks_a_record_is_marked_and_the_next_is_read() {
    let mut events = vec![open("root"), open("row")];
    events.extend(employee_events("E1"));
    events.extend(payee_events("PY1"));
    events.extend(field("Amount", "$1"));
    events.push(close("row"));
    events.extend(row_events("E2", "PAY2", "PY2", "$2"));
    events.push(close("root"));
    assert_eq!(parse(&events), vec![Err(Malformed::MissingPayor), Ok(block("E2", "PAY2", "PY2", 200))]);
}

#[test]
fn document_block_with_an_unreadable_number_is_marked_and_the_next_is_read() {
    let mut events = row_events("E1", "PAY1", "PY1", "12,50");
    events.extend(row_events("E2", "PAY2", "PY2", "$2"));
    assert_eq!(parse(&events), vec![Err(Malformed::BadNumber), Ok(block("E2", "PAY2", "PY2", 200))]);
}

#[test]
fn document_reading_resumes_at_the_next_row_behind_an_unreadable_number() {
    let mut events = vec![open("row"), open("Payee")];
    events.extend(field("LoanAccountNumber", "x"));
    events.extend(field("PlaidId", "PY1"));
    events.push(close("Payee"));
    events.extend(field("Amount", "$9"));
    events.push(close("row"));
    events.extend(row_events("E2", "PAY2", "PY2", "$2"));
    assert_eq!(parse(&events), vec![Err(Malformed::BadNumber), Ok(block("E2", "PAY2", "PY2", 200))]);
}

#[test]
fn document_that_breaks_off_keeps_the_blocks_before() {
    let mut events = row_events("E1", "PAY1", "PY1", "$1");
    let mut second = row_events("E2", "PAY2", "PY2", "$2");
    second.pop();
    events.extend(second);
    events.push(DocEvent::Error);
    events.extend(row_events("E3", "PAY3", "PY3", "$3"));
    assert_eq!(parse(&events), vec![Ok(block("E1", "PAY1", "PY1", 100))]);
}

#[test]
fn document_error_between_blocks_ends_the_reading() {
    let mut events = row_events("E1", "PAY1", "PY1", "$1");
    events.push(DocEvent::Error);
    events.extend(row_events("E2", "PAY2", "PY2", "$2"));
    assert_eq!(parse(&events).len(), 1);
}

#[test]
fn document_end_between_blocks_ends_the_reading() {
    let mut events = row_events("E1", "PAY1", "PY1", "$1");
    events.push(DocEvent::EndDocument);
    events.extend(row_events("E2", "PAY2", "PY2", "$2"));
    assert_eq!(parse(&events).len(), 1);
}

#[test]
fn document_row_name_is_matched_exactly() {
    let mut events = vec![open("Row")];
    events.extend(employee_events("E1"));
    events.push(close("Row"));
    assert_eq!(parse(&events), Vec::new());
}

#[test]
fn document_records_outside_a_row_are_passed_over() {
    let mut events = employee_events("E0");
    events.extend(row_events("E1", "PAY1", "PY1", "$1"));
    assert_eq!(parse(&events), vec![Ok(block("E1", "PAY1", "PY1", 100))]);
}

#[test]
fn document_as_uploaded_is_read_into_its_block() {
    let events = tokenize(DOCUMENT.as_bytes());
    let blocks = parse(&events);
    let want = Block {
        employee: Employee {
            dunkin_id: text("E1"),
            method_id: None,
            dunkin_branch: text("B1"),
            first_name: text("Ann"),
            last_name: text("Lee"),
            dob: text("01-02-1990"),
            phone_number: text("+15125550100"),
        },
        payor: Payor {
            dunkin_id: text("PAY1"),
            method_id: None,
            aba_routing: Some(148386123),
            account_number: Some(12345678),
            payor_name: text("Dunkin Donuts"),
            dba: text("Dunkin"),
            ein: text("32120240"),
            address_id: None,
        },
        address: Some(Address {
            id: None,
            line1: text("999 Hayes Lights"),
            city: text("Kerlukemouth"),
            state: text("IA"),
            zip: Some(67485),
        }),
        payee: Payee { plaid_id: text("PY1"), method_id: None, loan_account_number: Some(91400799) },
        amount: 10000,
    };
    assert_eq!(blocks, vec![Ok(want)]);
}

#[test]
fn parse_error_kinds_and_texts() {
    assert_eq!(ParseError::UnexpectedElement.message(), "Unexpected element error");
    assert_eq!(ParseError::IOError.message(), "IO error");
    assert_eq!(ParseError::from_malformed(Malformed::MissingPayee), ParseError::UnexpectedElement);
    assert_eq!(ParseError::from(Error::DatabaseError("down".to_string())), ParseError::IOError);
    assert_eq!(ParseError::from(Error::invalid("bad")), ParseError::IOError);
}

#[test]
fn events_and_blocks_clone_equal() {
    let e = chars("x");
    assert_eq!(e.clone(), e);
    let b = block("E1", "PAY1", "PY1", 1);
    assert_eq!(b.clone(), b);
}
