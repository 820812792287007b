use fork_relay::event::Event;
use fork_relay::report::failure_report;

fn event_from(address: [u8; 20]) -> Event {
    Event {
        address,
        topics: Vec::new(),
        data: Vec::new(),
        block_hash: None,
        block_number: Some(1001),
        transaction_hash: None,
        transaction_index: None,
        log_index: None,
        transaction_log_index: None,
        log_type: None,
        removed: None,
    }
}

fn sample_address() -> [u8; 20] {
    let mut address = [0u8; 20];
    address[0] = 0x12;
    address[1] = 0x34;
    address[2] = 0x56;
    address[17] = 0x9a;
    address[18] = 0xcd;
    address[19] = 0xef;
    address
}

#[test]
fn report_names_address_and_cause() {
    let report = failure_report(&event_from(sample_address()), "Timeout");
    assert_eq!(report, "could not process event 0x1234\u{2026}cdef: Timeout");
}

#[test]
fn report_shows_the_address_as_ethers_does() {
    let address = sample_address();
    let report = failure_report(&event_from(address), "nonce too low");
    let shown = format!("{}", ethers::types::H160(address));
    assert_eq!(report, format!("could not process event {}: nonce too low", shown));
}

#[test]
fn report_pads_small_bytes() {
    let mut address = [0u8; 20];
    address[1] = 0x0a;
    address[18] = 0x01;
    address[19] = 0xf0;
    let report = failure_report(&event_from(address), "x");
    assert_eq!(report, "could not process event 0x000a\u{2026}01f0: x");
}

#[test]
fn report_of_the_highest_address() {
    let report = failure_report(&event_from([0xff; 20]), "");
    assert_eq!(report, "could not process event 0xffff\u{2026}ffff: ");
}

#[test]
fn report_keeps_the_cause_as_it_is() {
    let report = failure_report(&event_from([0u8; 20]), "Custom { code: 3, text: \"r\u{e9}vert\" }");
    assert_eq!(
        report,
        "could not process event 0x0000\u{2026}0000: Custom { code: 3, text: \"r\u{e9}vert\" }"
    );
}
