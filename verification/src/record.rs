//! The ciphertext record that one owner keeps on the ledger.

use vstd::prelude::*;
use crate::error::ErrorCode;

verus! {

/// Bytes that precede a record's fields in its ledger account.
pub const ACCOUNT_DISCRIMINATOR_LEN: u32 = 8;

/// Bytes that the two fields of a [`BidderData`] occupy in its account.
pub const BIDDER_DATA_INIT_SPACE: usize = 64;

/// One owner's encrypted identity and encrypted value. Both fields are
/// opaque ciphertext: nothing here inspects them.
#[derive(Debug, Clone, Copy, PartialEq, Eq)]
pub struct BidderData {
    pub bidder: [u8; 32],
    pub bid: [u8; 32],
}

impl BidderData {
    /// Number of bytes that the fields take, one after the other.
    pub open spec fn field_bytes(self) -> nat {
        self.bidder@.len() + self.bid@.len()
    }

    /// Every record fills exactly [`BIDDER_DATA_INIT_SPACE`] bytes.
    pub proof fn lemma_field_bytes(self)
        ensures
            self.field_bytes() == BIDDER_DATA_INIT_SPACE,
    {
    }
}

/// What a store call works on: the owner who pays and signs, and that
/// owner's record.
#[derive(Debug, Clone, Copy, PartialEq, Eq)]
pub struct StorePatientData {
    pub payer: [u8; 32],
    pub bidder_data: BidderData,
}

impl StorePatientData {
    /// The state after the owner has stored `bidder` and `bid`.
    pub open spec fn after_store(self, bidder: [u8; 32], bid: [u8; 32]) -> StorePatientData {
        StorePatientData { payer: self.payer, bidder_data: BidderData { bidder, bid } }
    }
}

/// Writes both ciphertext fields of the owner's record, whatever it held.
pub fn store_patient_data(ctx: &mut StorePatientData, bidder: [u8; 32], bid: [u8; 32]) -> (r:
    Result<(), ErrorCode>)
    ensures
        r is Ok,
        *final(ctx) == old(ctx).after_store(bidder, bid),
{
    ctx.bidder_data.bidder = bidder;
    ctx.bidder_data.bid = bid;
    Ok(())
}

/// Last writer wins: after two stores by one owner the record holds the
/// second pair of fields and nothing of the first.
pub proof fn lemma_store_last_writer_wins(
    ctx: StorePatientData,
    first_bidder: [u8; 32],
    first_bid: [u8; 32],
    second_bidder: [u8; 32],
    second_bid: [u8; 32],
)
    ensures
        ctx.after_store(first_bidder, first_bid).after_store(second_bidder, second_bid)
            == ctx.after_store(second_bidder, second_bid),
        ctx.after_store(first_bidder, first_bid).after_store(
            second_bidder,
            second_bid,
        ).bidder_data == (BidderData { bidder: second_bidder, bid: second_bid }),
{
}

/// A store never merges: what the record held before has no part in what it
/// holds afterwards.
pub proof fn lemma_store_never_merges(
    a: StorePatientData,
    b: StorePatientData,
    bidder: [u8; 32],
    bid: [u8; 32],
)
    ensures
        a.after_store(bidder, bid).bidder_data == b.after_store(bidder, bid).bidder_data,
        a.after_store(bidder, bid).payer == a.payer,
{
}

} // verus!
