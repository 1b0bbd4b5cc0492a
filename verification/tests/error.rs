//! Messages of backend errors.

use sdr_source_rs::SdrError;

#[test]
fn messages_name_the_kind_and_the_detail() {
    assert_eq!(
        SdrError::NotFound("B210".to_string()).to_string(),
        "hardware not found: B210"
    );
    assert_eq!(
        SdrError::BadConfig("no channels".to_string()).to_string(),
        "configuration rejected: no channels"
    );
    assert_eq!(
        SdrError::Io("usb reset".to_string()).to_string(),
        "I/O error during capture: usb reset"
    );
    assert_eq!(
        SdrError::Backend("uhd: timeout".to_string()).to_string(),
        "backend error: uhd: timeout"
    );
}

#[test]
fn message_of_empty_detail_ends_in_its_label() {
    assert_eq!(
        SdrError::Backend(String::new()).to_string(),
        "backend error: "
    );
}
