use attorney_client::records::BookingConflict;
use attorney_client::registry::AttorneyClientContract;
use attorney_client::store::Store;

fn book(
    store: &mut Store,
    client_name: &str,
    total_duration: u64,
) -> Result<u64, BookingConflict> {
    AttorneyClientContract::create_appointment(
        store,
        client_name.to_owned(),
        "Legal Advice".to_owned(),
        "2024-01-01T10:00:00Z".to_owned(),
        total_duration,
        "Credit Card".to_owned(),
        "online".to_owned(),
    )
}

fn file_contract(store: &mut Store, case_number: &str, contract_fee: u64) {
    AttorneyClientContract::create_contract(
        store,
        "Ada Attorney".to_owned(),
        "Cleo Client".to_owned(),
        "Bar Association".to_owned(),
        case_number.to_owned(),
        contract_fee,
        "Bank Transfer".to_owned(),
        "None".to_owned(),
        "Arbitration".to_owned(),
    );
}

#[test]
fn test_create_appointment() {
    let mut store = Store::new();

    let fee = AttorneyClientContract::create_appointment(
        &mut store,
        "John Doe".to_owned(),
        "Legal Advice".to_owned(),
        "2024-01-01T10:00:00Z".to_owned(),
        120,
        "Credit Card".to_owned(),
        "online".to_owned(),
    )
    .unwrap();

    assert_eq!(fee, 3500 + 1500);
}

#[test]
fn test_appointment_time_conflict() {
    let mut store = Store::new();

    let _ = AttorneyClientContract::create_appointment(
        &mut store,
        "My Client".to_owned(),
        "Legal Advice".to_owned(),
        "2024-01-01T10:00:00Z".to_owned(),
        120,
        "Credit Card".to_owned(),
        "online".to_owned(),
    )
    .unwrap();

    let result = AttorneyClientContract::create_appointment(
        &mut store,
        "My Client".to_owned(),
        "Legal Advice".to_owned(),
        "2024-01-01T10:00:00Z".to_owned(),
        120,
        "Credit Card".to_owned(),
        "online".to_owned(),
    );

    assert_eq!(result.unwrap_err().message(), "Appointment time is already booked.");
}

#[test]
fn two_hour_consultation_costs_5000() {
    let mut store = Store::new();
    assert_eq!(book(&mut store, "john", 120), Ok(5000));
}

#[test]
fn one_hour_consultation_costs_3500() {
    let mut store = Store::new();
    assert_eq!(book(&mut store, "jane", 60), Ok(3500));
}

#[test]
fn zero_minute_consultation_is_free() {
    let mut store = Store::new();
    assert_eq!(book(&mut store, "jane", 0), Ok(0));
}

#[test]
fn second_booking_for_same_client_is_refused() {
    let mut store = Store::new();
    assert_eq!(book(&mut store, "mary", 120), Ok(5000));

    let second = AttorneyClientContract::create_appointment(
        &mut store,
        "mary".to_owned(),
        "Estate Planning".to_owned(),
        "2030-06-06T09:00:00Z".to_owned(),
        45,
        "Cash".to_owned(),
        "in-person".to_owned(),
    );
    assert_eq!(second, Err(BookingConflict));

    let kept = AttorneyClientContract::get_appointment(&store, &"mary".to_owned()).unwrap();
    assert_eq!(kept.consultation_topic, "Legal Advice");
    assert_eq!(kept.start_date, "2024-01-01T10:00:00Z");
    assert_eq!(kept.total_duration, 120);
    assert_eq!(kept.consultation_fee, 5000);
    assert_eq!(kept.payment_method, "Credit Card");
    assert_eq!(kept.consultation_type, "online");
}

#[test]
fn booking_one_client_leaves_others_untouched() {
    let mut store = Store::new();
    assert!(AttorneyClientContract::get_appointment(&store, &"beth".to_owned()).is_none());
    assert_eq!(book(&mut store, "beth", 60), Ok(3500));

    assert!(AttorneyClientContract::get_appointment(&store, &"adam".to_owned()).is_none());
    assert_eq!(book(&mut store, "adam", 30), Ok(3500));

    let beth = AttorneyClientContract::get_appointment(&store, &"beth".to_owned()).unwrap();
    assert_eq!(beth.client_name, "beth");
    assert_eq!(beth.total_duration, 60);
}

#[test]
fn reads_are_idempotent() {
    let mut store = Store::new();
    file_contract(&mut store, "case-1", 800);
    book(&mut store, "rita", 90).unwrap();

    let c1 = AttorneyClientContract::get_contract(&store, &"case-1".to_owned()).unwrap();
    let c2 = AttorneyClientContract::get_contract(&store, &"case-1".to_owned()).unwrap();
    assert_eq!(c1.case_number, c2.case_number);
    assert_eq!(c1.contract_fee, c2.contract_fee);
    assert_eq!(c1.attorney_name, c2.attorney_name);

    let a1 = AttorneyClientContract::get_appointment(&store, &"rita".to_owned()).unwrap();
    let a2 = AttorneyClientContract::get_appointment(&store, &"rita".to_owned()).unwrap();
    assert_eq!(a1.client_name, a2.client_name);
    assert_eq!(a1.consultation_fee, a2.consultation_fee);
    assert_eq!(a1.start_date, a2.start_date);
}

#[test]
fn filing_a_contract_twice_keeps_only_the_second() {
    let mut store = Store::new();
    file_contract(&mut store, "case-9", 1000);
    file_contract(&mut store, "case-9", 2500);

    let kept = AttorneyClientContract::get_contract(&store, &"case-9".to_owned()).unwrap();
    assert_eq!(kept.contract_fee, 2500);
}

#[test]
fn contract_fields_are_stored_verbatim() {
    let mut store = Store::new();
    AttorneyClientContract::create_contract(
        &mut store,
        "Ada Attorney".to_owned(),
        "Cleo Client".to_owned(),
        "Bar Association".to_owned(),
        "case-42".to_owned(),
        12000,
        "Bank Transfer".to_owned(),
        "10 percent".to_owned(),
        "Arbitration".to_owned(),
    );

    let c = AttorneyClientContract::get_contract(&store, &"case-42".to_owned()).unwrap();
    assert_eq!(c.attorney_name, "Ada Attorney");
    assert_eq!(c.client_name, "Cleo Client");
    assert_eq!(c.institution, "Bar Association");
    assert_eq!(c.case_number, "case-42");
    assert_eq!(c.contract_fee, 12000);
    assert_eq!(c.payment_method, "Bank Transfer");
    assert_eq!(c.penalty_clause, "10 percent");
    assert_eq!(c.dispute_resolution, "Arbitration");
}

#[test]
fn missing_contract_is_absent_not_an_error() {
    let store = Store::new();
    assert!(AttorneyClientContract::get_contract(&store, &"case-404".to_owned()).is_none());
}

#[test]
fn a_key_holding_an_appointment_yields_no_contract() {
    let mut store = Store::new();
    book(&mut store, "shared-id", 60).unwrap();
    assert!(AttorneyClientContract::get_contract(&store, &"shared-id".to_owned()).is_none());
    assert!(AttorneyClientContract::get_appointment(&store, &"shared-id".to_owned()).is_some());
}

#[test]
fn conflict_message_matches_the_refusal() {
    let mut store = Store::new();
    book(&mut store, "nina", 15).unwrap();
    let err = book(&mut store, "nina", 15).unwrap_err();
    assert_eq!(err.message(), "Appointment time is already booked.");
}
