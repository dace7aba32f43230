//! Decoding what the cluster hands back for a queued computation.

use vstd::prelude::*;
use crate::error::ErrorCode;

verus! {

/// Bytes of the cluster's own header, which precede the fields.
pub const HEADER_LEN: usize = 32;

/// Bytes of the nonce under which the fields were re-encrypted.
pub const NONCE_LEN: usize = 16;

/// Bytes of one re-encrypted field.
pub const CIPHERTEXT_LEN: usize = 32;

/// Bytes of a whole payload: header, nonce, identity, value.
pub const PAYLOAD_LEN: usize = 112;

/// What the cluster reports for one computation.
#[derive(Debug, Clone, PartialEq, Eq)]
pub enum CallbackResult {
    /// The computation ran; these are its raw output bytes.
    Bytes(Vec<u8>),
    /// The computation never completed.
    Aborted,
}

/// The re-encrypted record, as published for the receiver.
#[derive(Debug, Clone, Copy, PartialEq, Eq)]
pub struct BidDataEvent {
    pub nonce: [u8; 16],
    pub bidder: [u8; 32],
    pub bid: [u8; 32],
}

/// The three fields of an event as byte sequences.
pub ghost struct EventFields {
    pub nonce: Seq<u8>,
    pub bidder: Seq<u8>,
    pub bid: Seq<u8>,
}

impl EventFields {
    /// Each field has the length that the payload layout gives it.
    pub open spec fn well_formed(self) -> bool {
        &&& self.nonce.len() == NONCE_LEN
        &&& self.bidder.len() == CIPHERTEXT_LEN
        &&& self.bid.len() == CIPHERTEXT_LEN
    }
}

impl View for BidDataEvent {
    type V = EventFields;

    open spec fn view(&self) -> EventFields {
        EventFields { nonce: self.nonce@, bidder: self.bidder@, bid: self.bid@ }
    }
}

/// The payload that carries `fields` behind `header`.
pub open spec fn encode_payload(header: Seq<u8>, fields: EventFields) -> Seq<u8> {
    header + fields.nonce + fields.bidder + fields.bid
}

/// The fields that a payload carries. A payload under [`PAYLOAD_LEN`] bytes
/// carries none; bytes beyond that length are not read.
pub open spec fn decode_payload(raw: Seq<u8>) -> Result<EventFields, ErrorCode> {
    if raw.len() < PAYLOAD_LEN {
        Err(ErrorCode::MalformedPayload)
    } else {
        Ok(
            EventFields {
                nonce: raw.subrange(32, 48),
                bidder: raw.subrange(48, 80),
                bid: raw.subrange(80, 112),
            },
        )
    }
}

/// What a callback yields for `output`.
pub open spec fn decode_output(output: CallbackResult) -> Result<EventFields, ErrorCode> {
    match output {
        CallbackResult::Bytes(raw) => decode_payload(raw@),
        CallbackResult::Aborted => Err(ErrorCode::AbortedComputation),
    }
}

/// Copies the `N` bytes of `bytes` that start at `start`.
fn read_array<const N: usize>(bytes: &Vec<u8>, start: usize) -> (out: [u8; N])
    requires
        start + N <= bytes@.len(),
    ensures
        out@ == bytes@.subrange(start as int, start + N),
{
    let len: usize = bytes.len();
    let mut out: [u8; N] = [0u8; N];
    let mut i: usize = 0;
    while i < N
        invariant
            i <= N,
            start + N <= len,
            len == bytes@.len(),
            out@.len() == N,
            forall|k: int| 0 <= k < i ==> out@[k] == bytes@[start + k],
        decreases N - i,
    {
        out[i] = bytes[start + i];
        i += 1;
    }
    assert(out@ =~= bytes@.subrange(start as int, start + N));
    out
}

/// Decodes the cluster's report into the event to publish. An aborted
/// computation and a payload under [`PAYLOAD_LEN`] bytes give no event; the
/// header's content plays no part.
pub fn share_patient_data_callback(output: CallbackResult) -> (r: Result<BidDataEvent, ErrorCode>)
    ensures
        match r {
            Ok(event) => decode_output(output) == Ok::<EventFields, ErrorCode>(event@),
            Err(code) => decode_output(output) == Err::<EventFields, ErrorCode>(code),
        },
        output is Aborted ==> r == Err::<BidDataEvent, ErrorCode>(ErrorCode::AbortedComputation),
        output matches CallbackResult::Bytes(raw) ==> {
            if raw@.len() < 112 {
                r == Err::<BidDataEvent, ErrorCode>(ErrorCode::MalformedPayload)
            } else {
                &&& r matches Ok(event)
                &&& event.nonce@ == raw@.subrange(32, 48)
                &&& event.bidder@ == raw@.subrange(48, 80)
                &&& event.bid@ == raw@.subrange(80, 112)
            }
        },
{
    match output {
        CallbackResult::Aborted => Err(ErrorCode::AbortedComputation),
        CallbackResult::Bytes(bytes) => {
            if bytes.len() < PAYLOAD_LEN {
                return Err(ErrorCode::MalformedPayload);
            }
            let nonce: [u8; 16] = read_array(&bytes, HEADER_LEN);
            let bidder: [u8; 32] = read_array(&bytes, HEADER_LEN + NONCE_LEN);
            let bid: [u8; 32] = read_array(&bytes, HEADER_LEN + NONCE_LEN + CIPHERTEXT_LEN);
            Ok(BidDataEvent { nonce, bidder, bid })
        },
    }
}

/// The payload is the header, the nonce and the two ciphertexts, one after
/// the other: what a payload of full length decodes to has fields of the
/// layout's lengths, and they are the bytes behind the header in order.
pub proof fn lemma_payload_layout(raw: Seq<u8>)
    requires
        raw.len() >= PAYLOAD_LEN,
    ensures
        PAYLOAD_LEN == HEADER_LEN + NONCE_LEN + CIPHERTEXT_LEN + CIPHERTEXT_LEN,
        decode_payload(raw) is Ok,
        decode_payload(raw)->Ok_0.well_formed(),
        raw.subrange(HEADER_LEN as int, PAYLOAD_LEN as int) == decode_payload(raw)->Ok_0.nonce
            + decode_payload(raw)->Ok_0.bidder + decode_payload(raw)->Ok_0.bid,
{
    let fields = decode_payload(raw)->Ok_0;
    assert(raw.subrange(32, 112) =~= fields.nonce + fields.bidder + fields.bid);
}

/// An event is known by its fields: two events with the same three byte
/// sequences are the same event, so a payload decodes to one event only.
pub proof fn lemma_event_fields_determine_event(a: BidDataEvent, b: BidDataEvent)
    requires
        a@ == b@,
    ensures
        a == b,
{
    assert(a.nonce@ =~= b.nonce@);
    assert(a.bidder@ =~= b.bidder@);
    assert(a.bid@ =~= b.bid@);
    assert(a.nonce == b.nonce);
    assert(a.bidder == b.bidder);
    assert(a.bid == b.bid);
}

/// The header's content plays no part: two payloads that agree from byte
/// [`HEADER_LEN`] up to [`PAYLOAD_LEN`] decode to the same fields.
pub proof fn lemma_decode_ignores_header(a: Seq<u8>, b: Seq<u8>)
    requires
        a.len() >= PAYLOAD_LEN,
        b.len() >= PAYLOAD_LEN,
        a.subrange(32, 112) == b.subrange(32, 112),
    ensures
        decode_payload(a) == decode_payload(b),
{
    let body = a.subrange(32, 112);
    assert(a.subrange(32, 48) =~= body.subrange(0, 16));
    assert(b.subrange(32, 48) =~= body.subrange(0, 16));
    assert(a.subrange(48, 80) =~= body.subrange(16, 48));
    assert(b.subrange(48, 80) =~= body.subrange(16, 48));
    assert(a.subrange(80, 112) =~= body.subrange(48, 80));
    assert(b.subrange(80, 112) =~= body.subrange(48, 80));
}

/// Decoding undoes encoding: fields laid out behind any header of
/// [`HEADER_LEN`] bytes are read back as they were written.
pub proof fn lemma_decode_inverts_encode(header: Seq<u8>, fields: EventFields)
    requires
        header.len() == HEADER_LEN,
        fields.well_formed(),
    ensures
        encode_payload(header, fields).len() == PAYLOAD_LEN,
        decode_payload(encode_payload(header, fields)) == Ok::<EventFields, ErrorCode>(fields),
{
    let raw = encode_payload(header, fields);
    assert(raw.subrange(32, 48) =~= fields.nonce);
    assert(raw.subrange(48, 80) =~= fields.bidder);
    assert(raw.subrange(80, 112) =~= fields.bid);
}

} // verus!
