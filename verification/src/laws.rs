//! Laws relating sequences of controller operations.
//!
//! Each operation's postcondition is a named predicate; these proof functions
//! state what holds across two consecutive operations joined only through the
//! durable state, exactly as the host re-enters the controller.

use vstd::prelude::*;
use crate::consts::EXTERNAL_CLAIM_COLLATERAL_FACTOR;
use crate::error::ContractError;
use crate::execute::attached_coin;
use crate::execute::receive_ibc_token_post;
use crate::execute::recover_post;
use crate::execute::transfer_ibc_token_post;
use crate::msg::BankSend;
use crate::msg::Coin;
use crate::proto::MsgTransfer;
use crate::state::ContractState;
use crate::state::PacketLifecycleStatus;

verus! {

/// Initiating a send takes the single pending-send slot: while the first
/// send's confirmation is outstanding, a second initiation — even a fully
/// funded one — fails with the lock error and changes nothing.
pub proof fn lemma_pending_send_excludes_second(
    s0: ContractState,
    s1: ContractState,
    s2: ContractState,
    contract_address1: Seq<char>,
    sender1: Seq<char>,
    funds1: Seq<Coin>,
    amount1: Coin,
    port1: Seq<char>,
    channel1: Seq<char>,
    recipient1: Seq<char>,
    r1: Result<MsgTransfer, ContractError>,
    contract_address2: Seq<char>,
    sender2: Seq<char>,
    funds2: Seq<Coin>,
    amount2: Coin,
    port2: Seq<char>,
    channel2: Seq<char>,
    recipient2: Seq<char>,
    r2: Result<MsgTransfer, ContractError>,
)
    requires
        transfer_ibc_token_post(
            s0,
            contract_address1,
            sender1,
            funds1,
            amount1,
            port1,
            channel1,
            recipient1,
            s1,
            r1,
        ),
        r1 is Ok,
        attached_coin(funds2, amount2.denom@) matches Some(c) && c.amount >= amount2.amount,
        transfer_ibc_token_post(
            s1,
            contract_address2,
            sender2,
            funds2,
            amount2,
            port2,
            channel2,
            recipient2,
            s2,
            r2,
        ),
    ensures
        r2 matches Err(e) && e is ContractLocked,
        s2 == s1,
{
}

/// A recovery list is claimable exactly once: after a successful claim, a
/// second immediate claim by the same owner fails with `NoRecovery` and
/// changes nothing — no double refund.
pub proof fn lemma_claim_is_exactly_once(
    s0: ContractState,
    s1: ContractState,
    s2: ContractState,
    owner: Seq<char>,
    r1: Result<Vec<BankSend>, ContractError>,
    r2: Result<Vec<BankSend>, ContractError>,
)
    requires
        recover_post(s0, owner, s1, r1),
        r1 is Ok,
        recover_post(s1, owner, s2, r2),
    ensures
        r2 matches Err(e) && e is NoRecovery,
        s2 == s1,
{
    assert(!s1.recovery_states@.contains_key(owner));
}

/// The settlement slot is exclusive in the same way: while one claim's
/// settlement is outstanding, a second funded claim against an awaiting
/// record fails with the lock error and changes nothing.
pub proof fn lemma_pending_settlement_excludes_second(
    s0: ContractState,
    s1: ContractState,
    s2: ContractState,
    funds1: Seq<Coin>,
    channel1: Seq<char>,
    sequence1: u64,
    r1: Result<BankSend, ContractError>,
    funds2: Seq<Coin>,
    channel2: Seq<char>,
    sequence2: u64,
    r2: Result<BankSend, ContractError>,
)
    requires
        receive_ibc_token_post(s0, funds1, channel1, sequence1, s1, r1),
        r1 is Ok,
        s1.inflight_packets@.contains_key((channel2, sequence2)),
        s1.inflight_packets@[(channel2, sequence2)].status
            == PacketLifecycleStatus::AwaitingResponse,
        attached_coin(funds2, s1.inflight_packets@[(channel2, sequence2)].denom@) matches Some(c)
            && c.amount >= s1.inflight_packets@[(channel2, sequence2)].amount
            * EXTERNAL_CLAIM_COLLATERAL_FACTOR,
        receive_ibc_token_post(s1, funds2, channel2, sequence2, s2, r2),
    ensures
        r2 matches Err(e) && e is ContractLocked,
        s2 == s1,
{
}

} // verus!
