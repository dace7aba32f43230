use veil::{share_patient_data_callback, BidDataEvent, CallbackResult, ErrorCode};

fn counting_payload(len: usize) -> Vec<u8> {
    let mut raw = Vec::new();
    for i in 0..len {
        raw.push((i % 251) as u8);
    }
    raw
}

fn payload(header: [u8; 32], nonce: [u8; 16], bidder: [u8; 32], bid: [u8; 32]) -> Vec<u8> {
    let mut raw = Vec::new();
    raw.extend_from_slice(&header);
    raw.extend_from_slice(&nonce);
    raw.extend_from_slice(&bidder);
    raw.extend_from_slice(&bid);
    raw
}

#[test]
fn decode_reads_fields_at_fixed_offsets() {
    let raw = counting_payload(112);
    let event = share_patient_data_callback(CallbackResult::Bytes(raw)).unwrap();
    let mut nonce = [0u8; 16];
    let mut bidder = [0u8; 32];
    let mut bid = [0u8; 32];
    for i in 0..16 {
        nonce[i] = (32 + i) as u8;
    }
    for i in 0..32 {
        bidder[i] = (48 + i) as u8;
        bid[i] = (80 + i) as u8;
    }
    assert_eq!(event, BidDataEvent { nonce, bidder, bid });
    assert_eq!(event.nonce[0], 32);
    assert_eq!(event.nonce[15], 47);
    assert_eq!(event.bidder[0], 48);
    assert_eq!(event.bidder[31], 79);
    assert_eq!(event.bid[0], 80);
    assert_eq!(event.bid[31], 111);
}

#[test]
fn decode_ignores_header_content() {
    let nonce = [0xA1u8; 16];
    let bidder = [0xB2u8; 32];
    let bid = [0xC3u8; 32];
    let zero = share_patient_data_callback(CallbackResult::Bytes(payload(
        [0u8; 32], nonce, bidder, bid,
    )));
    let noisy = share_patient_data_callback(CallbackResult::Bytes(payload(
        [0xFFu8; 32],
        nonce,
        bidder,
        bid,
    )));
    assert_eq!(zero, Ok(BidDataEvent { nonce, bidder, bid }));
    assert_eq!(zero, noisy);
}

#[test]
fn decode_zero_header_example() {
    let nonce = [9u8; 16];
    let id2 = [2u8; 32];
    let v2 = [3u8; 32];
    let raw = payload([0u8; 32], nonce, id2, v2);
    assert_eq!(raw.len(), 112);
    assert_eq!(
        share_patient_data_callback(CallbackResult::Bytes(raw)),
        Ok(BidDataEvent { nonce, bidder: id2, bid: v2 })
    );
}

#[test]
fn decode_aborted_fails() {
    assert_eq!(
        share_patient_data_callback(CallbackResult::Aborted),
        Err(ErrorCode::AbortedComputation)
    );
}

#[test]
fn decode_length_100_is_malformed() {
    assert_eq!(
        share_patient_data_callback(CallbackResult::Bytes(vec![0u8; 100])),
        Err(ErrorCode::MalformedPayload)
    );
}

#[test]
fn decode_empty_is_malformed() {
    assert_eq!(
        share_patient_data_callback(CallbackResult::Bytes(Vec::new())),
        Err(ErrorCode::MalformedPayload)
    );
}

#[test]
fn decode_every_short_length_is_malformed() {
    for len in 0..112 {
        assert_eq!(
            share_patient_data_callback(CallbackResult::Bytes(counting_payload(len))),
            Err(ErrorCode::MalformedPayload)
        );
    }
}

#[test]
fn decode_length_111_is_malformed_and_112_is_not() {
    assert_eq!(
        share_patient_data_callback(CallbackResult::Bytes(vec![1u8; 111])),
        Err(ErrorCode::MalformedPayload)
    );
    assert_eq!(
        share_patient_data_callback(CallbackResult::Bytes(vec![1u8; 112])),
        Ok(BidDataEvent { nonce: [1u8; 16], bidder: [1u8; 32], bid: [1u8; 32] })
    );
}

#[test]
fn decode_does_not_read_past_the_payload() {
    let mut long = counting_payload(112);
    let exact = share_patient_data_callback(CallbackResult::Bytes(long.clone()));
    long.extend_from_slice(&[0xEEu8; 40]);
    assert_eq!(share_patient_data_callback(CallbackResult::Bytes(long)), exact);
    assert!(exact.is_ok());
}

#[test]
fn decode_twice_gives_the_same_event() {
    let raw = counting_payload(130);
    let first = share_patient_data_callback(CallbackResult::Bytes(raw.clone()));
    let second = share_patient_data_callback(CallbackResult::Bytes(raw));
    assert_eq!(first, second);
}

#[test]
fn error_messages() {
    assert_eq!(ErrorCode::AbortedComputation.message(), "The computation was aborted");
    assert_eq!(ErrorCode::MalformedPayload.message(), "The computation output is malformed");
    assert_ne!(ErrorCode::AbortedComputation, ErrorCode::MalformedPayload);
}
