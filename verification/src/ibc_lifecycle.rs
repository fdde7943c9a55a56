//! Acknowledgment and timeout handling.
//!
//! Acks and timeouts are externally delivered events: the messaging layer
//! calls back with the channel and sequence of a packet this contract sent.
//! A successful ack moves the record on to await an external claim; a failed
//! ack or a timeout resolves the record into a refund obligation.

use vstd::prelude::*;
use crate::error::ContractError;
use crate::state::recovery_with;
use crate::state::with_status;
use crate::state::ContractState;
use crate::state::IBCTransfer;
use crate::state::PacketLifecycleStatus;

verus! {

/// What handling an ack or timeout reports back.
#[derive(Debug, PartialEq, Eq)]
pub enum AckOutcome {
    /// The packet was successfully delivered; the transfer now awaits an
    /// external claim.
    Delivered,
    /// The transfer failed; a refund obligation was stored for its owner.
    RecoveryStored { recovery_addr: String },
}

/// Tags `transfer` with a terminal-failure status and appends it to its
/// owner's recovery list, returning the owner's address.
pub fn create_recovery(
    state: &mut ContractState,
    transfer: IBCTransfer,
    status: PacketLifecycleStatus,
) -> (addr: String)
    requires
        old(state).wf(),
    ensures
        final(state).wf(),
        addr == transfer.recovery_addr,
        final(state).recovery_states@ == recovery_with(
            old(state).recovery_states@,
            with_status(transfer, status),
        ),
        *final(state) == (ContractState {
            recovery_states: final(state).recovery_states,
            ..*old(state)
        }),
{
    let addr = transfer.recovery_addr.clone();
    let record = IBCTransfer { status, ..transfer };
    state.recovery_states.append(record);
    addr
}

/// How `receive_ack` relates state, the event, new state and result.
pub open spec fn receive_ack_post(
    s1: ContractState,
    channel: Seq<char>,
    sequence: u64,
    success: bool,
    s2: ContractState,
    r: Result<AckOutcome, ContractError>,
) -> bool {
    let key = (channel, sequence);
    if !s1.inflight_packets@.contains_key(key) {
        &&& r matches Err(e)
        &&& e matches ContractError::NoInflightPacket { channel_id, sequence: sq }
        &&& channel_id@ == channel && sq == sequence
        &&& s2 == s1
    } else {
        let rec = s1.inflight_packets@[key];
        if success {
            &&& r matches Ok(out)
            &&& out is Delivered
            &&& s2.inflight_packets@ == s1.inflight_packets@.insert(
                key,
                with_status(rec, PacketLifecycleStatus::AwaitingResponse),
            )
            &&& s2 == (ContractState { inflight_packets: s2.inflight_packets, ..s1 })
        } else {
            &&& r matches Ok(out)
            &&& out == (AckOutcome::RecoveryStored { recovery_addr: rec.recovery_addr })
            &&& s2.inflight_packets@ == s1.inflight_packets@.remove(key)
            &&& s2.recovery_states@ == recovery_with(
                s1.recovery_states@,
                with_status(rec, PacketLifecycleStatus::AckFailure),
            )
            &&& s2 == (ContractState {
                inflight_packets: s2.inflight_packets,
                recovery_states: s2.recovery_states,
                ..s1
            })
        }
    }
}

/// Handles an acknowledgment for the packet at `(channel, sequence)`.  On
/// success the record transitions to `AwaitingResponse`; on failure it is
/// removed and an `AckFailure` refund obligation is stored for its owner.
pub fn receive_ack(
    state: &mut ContractState,
    channel: String,
    sequence: u64,
    _ack: String,
    success: bool,
) -> (r: Result<AckOutcome, ContractError>)
    requires
        old(state).wf(),
    ensures
        final(state).wf(),
        receive_ack_post(*old(state), channel@, sequence, success, *final(state), r),
{
    let record = match state.inflight_packets.get(&channel, sequence) {
        Some(p) => p.duplicate(),
        None => {
            return Err(ContractError::NoInflightPacket { channel_id: channel, sequence });
        },
    };
    if success {
        let updated = IBCTransfer { status: PacketLifecycleStatus::AwaitingResponse, ..record };
        state.inflight_packets.save(updated);
        Ok(AckOutcome::Delivered)
    } else {
        state.inflight_packets.remove(&channel, sequence);
        let recovery_addr = create_recovery(state, record, PacketLifecycleStatus::AckFailure);
        Ok(AckOutcome::RecoveryStored { recovery_addr })
    }
}

/// How `receive_timeout` relates state, the event, new state and result.
pub open spec fn receive_timeout_post(
    s1: ContractState,
    channel: Seq<char>,
    sequence: u64,
    s2: ContractState,
    r: Result<AckOutcome, ContractError>,
) -> bool {
    let key = (channel, sequence);
    if !s1.inflight_packets@.contains_key(key) {
        &&& r matches Err(e)
        &&& e matches ContractError::NoInflightPacket { channel_id, sequence: sq }
        &&& channel_id@ == channel && sq == sequence
        &&& s2 == s1
    } else {
        let rec = s1.inflight_packets@[key];
        &&& r matches Ok(out)
        &&& out == (AckOutcome::RecoveryStored { recovery_addr: rec.recovery_addr })
        &&& s2.inflight_packets@ == s1.inflight_packets@.remove(key)
        &&& s2.recovery_states@ == recovery_with(
            s1.recovery_states@,
            with_status(rec, PacketLifecycleStatus::TimedOut),
        )
        &&& s2 == (ContractState {
            inflight_packets: s2.inflight_packets,
            recovery_states: s2.recovery_states,
            ..s1
        })
    }
}

/// Handles a timeout for the packet at `(channel, sequence)`: the record is
/// removed and a `TimedOut` refund obligation is stored for its owner.
pub fn receive_timeout(state: &mut ContractState, channel: String, sequence: u64) -> (r: Result<
    AckOutcome,
    ContractError,
>)
    requires
        old(state).wf(),
    ensures
        final(state).wf(),
        receive_timeout_post(*old(state), channel@, sequence, *final(state), r),
{
    let record = match state.inflight_packets.get(&channel, sequence) {
        Some(p) => p.duplicate(),
        None => {
            return Err(ContractError::NoInflightPacket { channel_id: channel, sequence });
        },
    };
    state.inflight_packets.remove(&channel, sequence);
    let recovery_addr = create_recovery(state, record, PacketLifecycleStatus::TimedOut);
    Ok(AckOutcome::RecoveryStored { recovery_addr })
}

} // verus!
