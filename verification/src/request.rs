//! The request that asks the cluster to re-encrypt a record for a receiver.

use vstd::prelude::*;
use crate::definition::{comp_def_offset, comp_def_offset_of, share_patient_data_circuit};
use crate::record::{ACCOUNT_DISCRIMINATOR_LEN, BIDDER_DATA_INIT_SPACE};

verus! {

/// One positional input of the circuit.
#[derive(Debug, Clone, Copy, PartialEq, Eq)]
pub enum Argument {
    /// A 32-byte public key.
    ArcisPubkey([u8; 32]),
    /// A 128-bit number in the clear.
    PlaintextU128(u128),
    /// A span of a ledger account's data: address, first byte, length.
    Account([u8; 32], u32, u32),
}

/// An account that the callback is to receive besides the fixed ones.
#[derive(Debug, Clone, Copy, PartialEq, Eq)]
pub struct CallbackAccount {
    pub pubkey: [u8; 32],
    pub is_writable: bool,
}

/// A computation as it is handed to the queue. It stays pending until the
/// cluster calls back with the same `computation_offset`.
#[derive(Debug, Clone, PartialEq, Eq)]
pub struct ComputationRequest {
    /// Chosen by the caller; links the request to its callback.
    pub computation_offset: u64,
    /// Handle of the circuit to run.
    pub comp_def_offset: u32,
    /// The circuit's inputs, in the order in which it binds them.
    pub args: Vec<Argument>,
    pub callback_accs: Vec<CallbackAccount>,
    pub callback_url: Option<String>,
}

/// A request as contracts speak of it.
pub ghost struct ComputationRequestView {
    pub computation_offset: u64,
    pub comp_def_offset: u32,
    pub args: Seq<Argument>,
    pub callback_accs: Seq<CallbackAccount>,
    pub callback_url: Option<Seq<char>>,
}

impl View for ComputationRequest {
    type V = ComputationRequestView;

    open spec fn view(&self) -> ComputationRequestView {
        ComputationRequestView {
            computation_offset: self.computation_offset,
            comp_def_offset: self.comp_def_offset,
            args: self.args@,
            callback_accs: self.callback_accs@,
            callback_url: match self.callback_url {
                Some(url) => Some(url@),
                None => None,
            },
        }
    }
}

/// What a share call reads: the address of the record to re-encrypt.
#[derive(Debug, Clone, Copy, PartialEq, Eq)]
pub struct SharePatientData {
    pub patient_data: [u8; 32],
}

/// The inputs of the `share_patient_data` circuit in their fixed order:
/// receiver key, receiver nonce, sender key, sender nonce, and the record's
/// fields as they lie in its account.
pub open spec fn share_patient_data_args(
    receiver: [u8; 32],
    receiver_nonce: u128,
    sender_pub_key: [u8; 32],
    nonce: u128,
    patient_data: [u8; 32],
) -> Seq<Argument> {
    seq![
        Argument::ArcisPubkey(receiver),
        Argument::PlaintextU128(receiver_nonce),
        Argument::ArcisPubkey(sender_pub_key),
        Argument::PlaintextU128(nonce),
        Argument::Account(patient_data, ACCOUNT_DISCRIMINATOR_LEN, BIDDER_DATA_INIT_SPACE as u32),
    ]
}

/// The request that re-encrypts the record at `patient_data` for `receiver`
/// with the circuit at `comp_def_offset`: the identifier as given, the five
/// inputs in order, no callback account and no callback address.
pub open spec fn share_patient_data_request(
    comp_def_offset: u32,
    computation_offset: u64,
    receiver: [u8; 32],
    receiver_nonce: u128,
    sender_pub_key: [u8; 32],
    nonce: u128,
    patient_data: [u8; 32],
) -> ComputationRequestView {
    ComputationRequestView {
        computation_offset,
        comp_def_offset,
        args: share_patient_data_args(receiver, receiver_nonce, sender_pub_key, nonce, patient_data),
        callback_accs: Seq::empty(),
        callback_url: None,
    }
}

impl ComputationRequest {
    /// Builds [`share_patient_data_request`] for a circuit handle already
    /// known.
    pub fn for_share_patient_data(
        comp_def_offset: u32,
        computation_offset: u64,
        receiver: [u8; 32],
        receiver_nonce: u128,
        sender_pub_key: [u8; 32],
        nonce: u128,
        patient_data: [u8; 32],
    ) -> (request: ComputationRequest)
        ensures
            request@ == share_patient_data_request(
                comp_def_offset,
                computation_offset,
                receiver,
                receiver_nonce,
                sender_pub_key,
                nonce,
                patient_data,
            ),
    {
        let mut args: Vec<Argument> = Vec::new();
        args.push(Argument::ArcisPubkey(receiver));
        args.push(Argument::PlaintextU128(receiver_nonce));
        args.push(Argument::ArcisPubkey(sender_pub_key));
        args.push(Argument::PlaintextU128(nonce));
        args.push(
            Argument::Account(
                patient_data,
                ACCOUNT_DISCRIMINATOR_LEN,
                BIDDER_DATA_INIT_SPACE as u32,
            ),
        );
        let request = ComputationRequest {
            computation_offset,
            comp_def_offset,
            args,
            callback_accs: Vec::new(),
            callback_url: None,
        };
        assert(request@.args =~= share_patient_data_args(
            receiver,
            receiver_nonce,
            sender_pub_key,
            nonce,
            patient_data,
        ));
        assert(request@.callback_accs =~= Seq::empty());
        request
    }
}

/// Builds the request to re-encrypt the record at `ctx.patient_data` for
/// `receiver` with the `share_patient_data` circuit. The identifier is passed
/// through unchanged, so that the callback can be matched to this request.
pub fn share_patient_data(
    ctx: &SharePatientData,
    computation_offset: u64,
    receiver: [u8; 32],
    receiver_nonce: u128,
    sender_pub_key: [u8; 32],
    nonce: u128,
) -> (request: ComputationRequest)
    ensures
        request@ == share_patient_data_request(
            comp_def_offset_of(share_patient_data_circuit()),
            computation_offset,
            receiver,
            receiver_nonce,
            sender_pub_key,
            nonce,
            ctx.patient_data,
        ),
{
    ComputationRequest::for_share_patient_data(
        comp_def_offset("share_patient_data"),
        computation_offset,
        receiver,
        receiver_nonce,
        sender_pub_key,
        nonce,
        ctx.patient_data,
    )
}

/// The circuit binds its inputs by position: each of the five stands at its
/// own index, and exchanging two of them gives another list unless the two
/// are equal.
pub proof fn lemma_args_are_positional(
    receiver: [u8; 32],
    receiver_nonce: u128,
    sender_pub_key: [u8; 32],
    nonce: u128,
    patient_data: [u8; 32],
)
    ensures
        ({
            let args = share_patient_data_args(
                receiver,
                receiver_nonce,
                sender_pub_key,
                nonce,
                patient_data,
            );
            &&& args.len() == 5
            &&& args[0] == Argument::ArcisPubkey(receiver)
            &&& args[1] == Argument::PlaintextU128(receiver_nonce)
            &&& args[2] == Argument::ArcisPubkey(sender_pub_key)
            &&& args[3] == Argument::PlaintextU128(nonce)
            &&& args[4] == Argument::Account(patient_data, 8, 64)
            &&& forall|i: int, j: int|
                0 <= i < 5 && 0 <= j < 5 && args[i] != args[j] ==> args.update(i, args[j]).update(
                    j,
                    args[i],
                ) != args
        }),
{
    let args = share_patient_data_args(receiver, receiver_nonce, sender_pub_key, nonce, patient_data);
    assert forall|i: int, j: int|
        0 <= i < 5 && 0 <= j < 5 && args[i] != args[j] implies args.update(i, args[j]).update(
        j,
        args[i],
    ) != args by {
        assert(args.update(i, args[j]).update(j, args[i])[j] == args[i]);
    }
}

} // verus!
