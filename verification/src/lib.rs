//! Confidential-computation submission and callback protocol for an
//! encrypted patient-data record: storing the ciphertext, describing the
//! re-encryption request handed to the MPC cluster, and decoding the
//! cluster's answer into a typed event.
//!
//! The ledger and the cluster stay outside: a caller hands in plain values
//! and gets plain values back, and does the storing, queuing and publishing
//! itself.

pub mod callback;
pub mod definition;
pub mod error;
pub mod record;
pub mod request;

pub use callback::{share_patient_data_callback, BidDataEvent, CallbackResult};
pub use definition::{
    init_share_patient_data_comp_def, ComputationDefinition, OffChainCircuitSource,
};
pub use error::ErrorCode;
pub use record::{store_patient_data, BidderData, StorePatientData};
pub use request::{
    share_patient_data, Argument, CallbackAccount, ComputationRequest, SharePatientData,
};
