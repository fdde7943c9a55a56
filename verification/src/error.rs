//! The error taxonomy of the lifecycle controller.
//!
//! Every error aborts the current invocation with no partial mutation; retry
//! is always caller-initiated.

use vstd::prelude::*;
use crate::state::PacketLifecycleStatus;

verus! {

/// Everything a controller operation can report to its caller.
#[derive(Debug, PartialEq, Eq)]
pub enum ContractError {
    /// The caller is not the registry owner.
    Unauthorized {},
    /// No amount of the requested denomination was attached by the sender.
    NoFunds { denom: String },
    /// No amount of the record's denomination was attached by the external
    /// claimant.
    NoExternalFunds { denom: String },
    /// The external claimant attached less than the required collateral.
    InsufficientExternalFunds { sent: u128, required: u128 },
    /// The sender attached less than the amount to transfer.
    NotEnoughFunds { sent: u128, required: u128 },
    /// A host reply carried an identifier that names no outstanding request.
    InvalidReplyID { id: u64 },
    /// The send confirmation was missing or not decodable.
    FailedIBCTransfer {},
    /// The settlement payment could not be carried out.
    FailedExternalTokensTransfer {},
    /// A pending context is already present; the operation must wait for the
    /// outstanding one to resolve.
    ContractLocked {},
    /// No transfer record is tracked at the given channel and sequence.
    NoInflightPacket { channel_id: String, sequence: u64 },
    /// No settlement is in flight.
    NoExternalTokensInflightPacket,
    /// The tracked record is not in the state the operation needs.
    InvalidInflightPacketState { channel_id: String, sequence: u64, status: PacketLifecycleStatus },
    /// The owner has no refund obligations to claim.
    NoRecovery {},
}

} // verus!
