use gatt_characteristic::{
    decimal, failure_message, removal_report, Error, GattCommunicationStatus, Operation,
    ACCESS_DENIED, PROTOCOL_ERROR, SUCCESS, UNREACHABLE,
};

#[test]
fn decimal_of_one_digit() {
    assert_eq!(decimal(0), "0");
    assert_eq!(decimal(7), "7");
    assert_eq!(decimal(9), "9");
}

#[test]
fn decimal_of_several_digits() {
    assert_eq!(decimal(10), "10");
    assert_eq!(decimal(1234567890), "1234567890");
    assert_eq!(decimal(100), "100");
    assert_eq!(decimal(2147483647), "2147483647");
}

#[test]
fn decimal_of_negative_numbers() {
    assert_eq!(decimal(-1), "-1");
    assert_eq!(decimal(-10), "-10");
    assert_eq!(decimal(-2147483647), "-2147483647");
    assert_eq!(decimal(i32::MIN), "-2147483648");
}

#[test]
fn decimal_agrees_with_the_standard_rendering() {
    let mut n: i32 = -100_000;
    while n <= 100_000 {
        assert_eq!(decimal(n), n.to_string());
        n += 37;
    }
}

#[test]
fn status_codes_are_those_of_the_stack() {
    assert_eq!(SUCCESS, 0);
    assert_eq!(UNREACHABLE, 1);
    assert_eq!(PROTOCOL_ERROR, 2);
    assert_eq!(ACCESS_DENIED, 3);
    assert!(GattCommunicationStatus { code: 0 }.is_success());
    assert!(!GattCommunicationStatus { code: 1 }.is_success());
    assert!(!GattCommunicationStatus { code: -1 }.is_success());
}

#[test]
fn failure_message_names_the_operation_and_the_status() {
    assert_eq!(
        failure_message(Operation::Write, GattCommunicationStatus { code: 1 }),
        "Windows UWP threw error on write: GattCommunicationStatus(1)"
    );
    assert_eq!(
        failure_message(Operation::Read, GattCommunicationStatus { code: 2 }),
        "Windows UWP threw error on read: GattCommunicationStatus(2)"
    );
    assert_eq!(
        failure_message(Operation::Subscribe, GattCommunicationStatus { code: 3 }),
        "Windows UWP threw error on subscribe: GattCommunicationStatus(3)"
    );
    assert_eq!(
        failure_message(Operation::Unsubscribe, GattCommunicationStatus { code: -40 }),
        "Windows UWP threw error on unsubscribe: GattCommunicationStatus(-40)"
    );
}

#[test]
fn error_message_is_the_text_it_carries() {
    let error = Error::Other("the device is closed".to_string());
    assert_eq!(error.message(), "the device is closed");
    assert_eq!(Error::Other(String::new()).message(), "");
}

#[test]
fn removal_report_is_empty_when_the_handler_was_removed() {
    assert_eq!(removal_report(Ok(())), None);
}

#[test]
fn removal_report_is_one_line_when_the_removal_failed() {
    assert_eq!(
        removal_report(Err(Error::Other("the object has been closed".to_string()))),
        Some("Failed to remove the value-changed handler: the object has been closed".to_string())
    );
}
