use ocw_worker::ledger::Event;
use ocw_worker::ledger::Ledger;
use ocw_worker::parser::PricePoint;
use ocw_worker::payload::Payload;
use ocw_worker::payload::PayloadPrice;

#[test]
fn signed_entry_records_the_submitter() {
    let mut ledger = Ledger::new();
    ledger.submit_number_signed(vec![9u8; 32], 77);
    assert_eq!(ledger.numbers_len(), 1);
    assert_eq!(ledger.number_at(0), 77);
    match ledger.event_at(0) {
        Event::NewNumber(Some(who), 77) => assert_eq!(*who, vec![9u8; 32]),
        _ => panic!("expected an attributed NewNumber event"),
    }
}

#[test]
fn unsigned_entry_records_no_submitter() {
    let mut ledger = Ledger::new();
    ledger.submit_number_unsigned(5);
    match ledger.event_at(0) {
        Event::NewNumber(None, 5) => {}
        _ => panic!("expected an anonymous NewNumber event"),
    }
}

#[test]
fn payload_entry_appends_the_payload_number() {
    let mut ledger = Ledger::new();
    let payload = Payload { number: 123, public: vec![1u8; 32] };
    ledger.submit_number_unsigned_with_signed_payload(payload);
    assert_eq!(ledger.number_at(0), 123);
    match ledger.event_at(0) {
        Event::NewNumber(None, 123) => {}
        _ => panic!("expected an anonymous NewNumber event"),
    }
}

#[test]
fn number_history_evicts_the_oldest_at_ten() {
    let mut ledger = Ledger::new();
    for n in 1..=11u64 {
        ledger.submit_number_unsigned(n);
    }
    assert_eq!(ledger.numbers_len(), 10);
    assert_eq!(ledger.number_at(0), 2);
    assert_eq!(ledger.number_at(9), 11);
    assert_eq!(ledger.events_len(), 11);
}

#[test]
fn price_history_evicts_the_oldest_at_ten() {
    let mut ledger = Ledger::new();
    for n in 1..=11u32 {
        let payload = PayloadPrice {
            price: PricePoint { integer: n as u64, fraction: n },
            public: vec![1u8; 32],
        };
        ledger.submit_price_unsigned_with_signed_payload(payload);
    }
    assert_eq!(ledger.prices_len(), 10);
    assert_eq!(ledger.price_at(0), PricePoint { integer: 2, fraction: 2 });
    assert_eq!(ledger.price_at(9), PricePoint { integer: 11, fraction: 11 });
}

#[test]
fn payloads_expose_their_embedded_key() {
    let p = Payload { number: 4, public: vec![8u8; 32] };
    assert_eq!(p.public(), vec![8u8; 32]);
    let q = PayloadPrice { price: PricePoint { integer: 1, fraction: 0 }, public: vec![6u8; 32] };
    assert_eq!(q.public(), vec![6u8; 32]);
}

#[test]
fn number_signing_message_is_the_number_then_the_key() {
    let payload = Payload { number: 1, public: vec![2u8; 32] };
    let mut expected = vec![1u8, 0, 0, 0, 0, 0, 0, 0];
    expected.extend_from_slice(&[2u8; 32]);
    assert_eq!(payload.signing_message(), expected);
}

#[test]
fn price_signing_message_is_integer_fraction_then_the_key() {
    let payload = PayloadPrice {
        price: PricePoint { integer: 258, fraction: 65537 },
        public: vec![3u8; 32],
    };
    let mut expected = vec![2u8, 1, 0, 0, 0, 0, 0, 0];
    expected.extend_from_slice(&[1u8, 0, 1, 0]);
    expected.extend_from_slice(&[3u8; 32]);
    assert_eq!(payload.signing_message(), expected);
}
