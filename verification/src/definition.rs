//! Computation definitions: the handle that ties a queued request and its
//! callback to one confidential circuit.

use vstd::prelude::*;

verus! {

/// The offset that `arcium_anchor::comp_def_offset` derives from a circuit's
/// name, as a function of the name's characters.
pub uninterp spec fn comp_def_offset_of(name: Seq<char>) -> u32;

/// Name of the circuit that re-encrypts a patient record for a receiver.
pub open spec fn share_patient_data_circuit() -> Seq<char> {
    "share_patient_data"@
}

/// Calls `arcium_anchor::comp_def_offset`, which hashes the name with SHA-256
/// and reads the first four bytes of the digest as a little-endian `u32`.
/// The contract only claims that the result is a function of the name.
#[verifier::external_body]
pub(crate) fn comp_def_offset(conf_ix_name: &str) -> (offset: u32)
    ensures
        offset == comp_def_offset_of(conf_ix_name@),
{
    arcium_anchor::comp_def_offset(conf_ix_name)
}

/// A place off the ledger from which a circuit is fetched, with the hash
/// that the fetched circuit must have.
#[derive(Debug, Clone, PartialEq, Eq)]
pub struct OffChainCircuitSource {
    pub source: String,
    pub hash: [u8; 32],
}

/// What is registered, once per deployment, for a circuit.
#[derive(Debug, Clone, PartialEq, Eq)]
pub struct ComputationDefinition {
    /// Handle derived from the circuit's name.
    pub comp_def_offset: u32,
    /// Whether the computation is finalized in the callback's transaction.
    pub finalize_during_callback: bool,
    /// Where to fetch the circuit, if not from the ledger.
    pub offchain_circuit_source_override: Option<OffChainCircuitSource>,
    /// The one identity allowed to finalize, if finalizing is restricted.
    pub finalize_authority: Option<[u8; 32]>,
}

impl ComputationDefinition {
    /// The definition at `comp_def_offset` that is finalized during the
    /// callback, keeps its circuit on the ledger and names no finalize
    /// authority.
    pub open spec fn finalized_during_callback(comp_def_offset: u32) -> ComputationDefinition {
        ComputationDefinition {
            comp_def_offset,
            finalize_during_callback: true,
            offchain_circuit_source_override: None,
            finalize_authority: None,
        }
    }

    /// Builds [`Self::finalized_during_callback`] for a handle already known.
    pub fn new_finalized_during_callback(comp_def_offset: u32) -> (def: ComputationDefinition)
        ensures
            def == Self::finalized_during_callback(comp_def_offset),
    {
        ComputationDefinition {
            comp_def_offset,
            finalize_during_callback: true,
            offchain_circuit_source_override: None,
            finalize_authority: None,
        }
    }
}

/// The definition to register for the `share_patient_data` circuit: its
/// handle is derived from the circuit's name, and it is finalized during the
/// callback.
pub fn init_share_patient_data_comp_def() -> (def: ComputationDefinition)
    ensures
        def == ComputationDefinition::finalized_during_callback(
            comp_def_offset_of(share_patient_data_circuit()),
        ),
{
    ComputationDefinition::new_finalized_during_callback(comp_def_offset("share_patient_data"))
}

} // verus!
