//! The caller-facing operations of the lifecycle controller.
//!
//! Each operation is a single transaction: it either returns an error and
//! leaves the state exactly as it was, or commits all its writes together
//! with its successful result.  The postcondition of every operation is a
//! named predicate relating the state before, the arguments, the state after
//! and the result, so that laws about sequences of operations can be stated
//! over the same predicates.

use vstd::prelude::*;
use vstd::hash_map::StringHashMap;
use vstd::pervasive::unreached;
use crate::assignment::MapShouldLoad;
use crate::consts::EXTERNAL_CLAIM_COLLATERAL_FACTOR;
use crate::decimal::dec_str;
use crate::decimal::u32_to_dec_string;
use crate::error::ContractError;
use crate::ibc_lifecycle::create_recovery;
use crate::msg::BankSend;
use crate::msg::Coin;
use crate::msg::Reply;
use crate::msg::SubMsgResult;
use crate::proto::decode_transfer_response;
use crate::proto::transfer_response_value;
use crate::proto::MsgTransfer;
use crate::state::default_alias;
use crate::state::recovery_with;
use crate::state::with_status;
use crate::state::ContractState;
use crate::state::IBCTransfer;
use crate::state::PacketLifecycleStatus;
use crate::state::TransferMsgReplyState;

verus! {

/// What a confirmed send reports back: the stored record's coordinates and
/// the resolved destination.
#[derive(Debug, PartialEq, Eq)]
pub struct SendConfirmation {
    pub channel_id: String,
    pub sequence: u64,
    pub amount: u128,
    pub denom: String,
    pub to_address: String,
}

/// What a finished settlement reports back.
#[derive(Debug, PartialEq, Eq)]
pub enum ExternalSettlement {
    /// The settlement payment went through; the transfer is fully settled.
    Settled { to_address: String, amount: u128 },
    /// The settlement payment failed; a refund obligation was stored.
    RecoveryStored { recovery_addr: String },
}

/// The first coin of the given denomination among the attached funds.
pub open spec fn attached_coin(funds: Seq<Coin>, denom: Seq<char>) -> Option<Coin>
    decreases funds.len(),
{
    if funds.len() == 0 {
        None
    } else if funds[0].denom@ == denom {
        Some(funds[0])
    } else {
        attached_coin(funds.drop_first(), denom)
    }
}

proof fn lemma_attached_coin_skip(funds: Seq<Coin>, denom: Seq<char>, i: int)
    requires
        0 <= i <= funds.len(),
        forall|j: int| 0 <= j < i ==> funds[j].denom@ != denom,
    ensures
        attached_coin(funds, denom) == attached_coin(
            funds.subrange(i, funds.len() as int),
            denom,
        ),
    decreases i,
{
    if i > 0 {
        lemma_attached_coin_skip(funds, denom, i - 1);
        let tail = funds.subrange(i - 1, funds.len() as int);
        assert(tail[0] == funds[i - 1]);
        assert(tail.drop_first() =~= funds.subrange(i, funds.len() as int));
    } else {
        assert(funds.subrange(0, funds.len() as int) =~= funds);
    }
}

/// The first attached coin of denomination `denom`, if any.
fn find_attached<'a>(funds: &'a Vec<Coin>, denom: &String) -> (r: Option<&'a Coin>)
    ensures
        match r {
            Some(c) => attached_coin(funds@, denom@) == Some(*c),
            None => attached_coin(funds@, denom@) is None,
        },
{
    let n = funds.len();
    for i in 0..n
        invariant
            n == funds@.len(),
            forall|j: int| 0 <= j < i ==> funds@[j].denom@ != denom@,
    {
        if funds[i].denom == *denom {
            proof {
                lemma_attached_coin_skip(funds@, denom@, i as int);
                let tail = funds@.subrange(i as int, n as int);
                assert(tail[0] == funds@[i as int]);
            }
            return Some(&funds[i]);
        }
    }
    proof {
        lemma_attached_coin_skip(funds@, denom@, n as int);
    }
    None
}

/// What an alias resolves to in a string registry: its own entry, or the
/// fallback entry when the alias misses.
pub open spec fn resolve_string(m: Map<Seq<char>, String>, alias: Seq<char>) -> String {
    if m.contains_key(alias) {
        m[alias]
    } else {
        m[default_alias()]
    }
}

/// What an alias resolves to in the channel registry.
pub open spec fn resolve_channel(m: Map<Seq<char>, u32>, alias: Seq<char>) -> u32 {
    if m.contains_key(alias) {
        m[alias]
    } else {
        m[default_alias()]
    }
}

fn resolve_string_alias(m: &StringHashMap<String>, alias: &String) -> (r: String)
    requires
        m@.contains_key(default_alias()),
    ensures
        r == resolve_string(m@, alias@),
{
    match m.should_load(alias.as_str()) {
        Ok(v) => v,
        Err(_) => match m.should_load("default") {
            Ok(v) => v,
            Err(_) => unreached(),
        },
    }
}

fn resolve_channel_alias(m: &StringHashMap<u32>, alias: &String) -> (r: u32)
    requires
        m@.contains_key(default_alias()),
    ensures
        r == resolve_channel(m@, alias@),
{
    match m.should_load(alias.as_str()) {
        Ok(v) => v,
        Err(_) => match m.should_load("default") {
            Ok(v) => v,
            Err(_) => unreached(),
        },
    }
}

/// The identity allowed to update the registries.
pub open spec fn is_owner(s: ContractState, addr: Seq<char>) -> bool {
    s.config matches Some(c) && c.owner@ == addr
}

/// How `transfer_ibc_token` relates state, arguments, new state and result.
pub open spec fn transfer_ibc_token_post(
    s1: ContractState,
    contract_address: Seq<char>,
    sender: Seq<char>,
    funds: Seq<Coin>,
    amount: Coin,
    port: Seq<char>,
    channel: Seq<char>,
    recipient: Seq<char>,
    s2: ContractState,
    r: Result<MsgTransfer, ContractError>,
) -> bool {
    match attached_coin(funds, amount.denom@) {
        Option::None => {
            &&& r matches Err(e)
            &&& e matches ContractError::NoFunds { denom } && denom@ == amount.denom@
            &&& s2 == s1
        },
        Option::Some(c) => {
            if c.amount < amount.amount {
                &&& r matches Err(e)
                &&& e == (ContractError::NotEnoughFunds { sent: c.amount, required: amount.amount })
                &&& s2 == s1
            } else if s1.transfer_reply_state is Some {
                &&& r matches Err(e)
                &&& e is ContractLocked
                &&& s2 == s1
            } else {
                &&& r matches Ok(msg)
                &&& msg.source_port == resolve_string(s1.ports@, port)
                &&& msg.source_channel@ == dec_str(resolve_channel(s1.channels@, channel) as nat)
                &&& msg.token == amount
                &&& msg.sender@ == contract_address
                &&& msg.receiver == resolve_string(s1.external_addresses@, recipient)
                &&& s2.transfer_reply_state matches Some(ctx)
                &&& ctx.channel_id@ == dec_str(resolve_channel(s1.channels@, channel) as nat)
                &&& ctx.to_address == resolve_string(s1.external_addresses@, recipient)
                &&& ctx.amount == amount.amount
                &&& ctx.denom == amount.denom
                &&& ctx.sender@ == sender
                &&& s2 == (ContractState { transfer_reply_state: s2.transfer_reply_state, ..s1 })
            }
        },
    }
}

/// Initiates an outbound send: validates the attached funds, resolves the
/// destination through the registries (falling back to the default alias),
/// persists the pending-send context and returns the submit request for the
/// caller to dispatch.  No ledger entry is made yet: the sequence number is
/// not known until confirmation.
pub fn transfer_ibc_token(
    state: &mut ContractState,
    contract_address: String,
    sender: String,
    funds: &Vec<Coin>,
    amount: Coin,
    port: String,
    channel: String,
    recipient: String,
) -> (r: Result<MsgTransfer, ContractError>)
    requires
        old(state).wf(),
    ensures
        final(state).wf(),
        transfer_ibc_token_post(
            *old(state),
            contract_address@,
            sender@,
            funds@,
            amount,
            port@,
            channel@,
            recipient@,
            *final(state),
            r,
        ),
{
    // make sure some token of the transfer's denomination was attached
    let sent_coin = match find_attached(funds, &amount.denom) {
        Some(c) => c,
        None => {
            return Err(ContractError::NoFunds { denom: amount.denom });
        },
    };
    // check that the sender attached enough to cover the transfer
    if sent_coin.amount < amount.amount {
        return Err(
            ContractError::NotEnoughFunds { sent: sent_coin.amount, required: amount.amount },
        );
    }
    // resolve destination, port and channel through the registries
    let receiver = resolve_string_alias(&state.external_addresses, &recipient);
    let source_port = resolve_string_alias(&state.ports, &port);
    let channel_number = resolve_channel_alias(&state.channels, &channel);
    let source_channel = u32_to_dec_string(channel_number);
    // a present context means the contract is already waiting for a reply
    if state.transfer_reply_state.is_some() {
        return Err(ContractError::ContractLocked {});
    }
    // store the send information so the confirmation can pick it up
    state.transfer_reply_state = Some(
        TransferMsgReplyState {
            channel_id: source_channel.clone(),
            to_address: receiver.clone(),
            amount: amount.amount,
            denom: amount.denom.clone(),
            sender,
        },
    );
    Ok(
        MsgTransfer {
            source_port,
            source_channel,
            token: amount,
            sender: contract_address,
            receiver,
        },
    )
}

/// The data a reply carries when its sub-message succeeded.
pub open spec fn reply_data(msg: Reply) -> Option<Vec<u8>> {
    match msg.result {
        SubMsgResult::Success(resp) => resp.data,
        SubMsgResult::Failure(_) => None,
    }
}

/// How `handle_transfer_ibc_token_reply` relates state, reply, new state and
/// result.
pub open spec fn handle_transfer_reply_post(
    s1: ContractState,
    msg: Reply,
    s2: ContractState,
    r: Result<SendConfirmation, ContractError>,
) -> bool
    recommends
        s1.transfer_reply_state is Some,
{
    match reply_data(msg) {
        Option::None => {
            &&& r matches Err(e)
            &&& e is FailedIBCTransfer
            &&& s2 == s1
        },
        Option::Some(data) => match transfer_response_value(data@) {
            Option::None => {
                &&& r matches Err(e)
                &&& e is FailedIBCTransfer
                &&& s2 == s1
            },
            Option::Some(seq_no) => {
                &&& s1.transfer_reply_state matches Some(ctx)
                &&& s2.transfer_reply_state is None
                &&& s2.inflight_packets@ == s1.inflight_packets@.insert(
                    (ctx.channel_id@, seq_no),
                    (IBCTransfer {
                        recovery_addr: ctx.sender,
                        channel_id: ctx.channel_id,
                        sequence: seq_no,
                        amount: ctx.amount,
                        denom: ctx.denom,
                        status: PacketLifecycleStatus::Sent,
                    }),
                )
                &&& r matches Ok(conf)
                &&& conf == (SendConfirmation {
                    channel_id: ctx.channel_id,
                    sequence: seq_no,
                    amount: ctx.amount,
                    denom: ctx.denom,
                    to_address: ctx.to_address,
                })
                &&& s2 == (ContractState {
                    transfer_reply_state: s2.transfer_reply_state,
                    inflight_packets: s2.inflight_packets,
                    ..s1
                })
            },
        },
    }
}

/// Confirms an initiated send: decodes the assigned sequence number from the
/// reply payload, consumes the pending-send context and writes the `Sent`
/// ledger record at `(channel, sequence)`.  A missing or undecodable payload
/// fails without touching the context.  A missing context is a programming
/// invariant violation, not a recoverable user error, so it is required away.
pub fn handle_transfer_ibc_token_reply(state: &mut ContractState, msg: Reply) -> (r: Result<
    SendConfirmation,
    ContractError,
>)
    requires
        old(state).wf(),
        old(state).transfer_reply_state is Some,
    ensures
        final(state).wf(),
        handle_transfer_reply_post(*old(state), msg, *final(state), r),
{
    // the reply must carry a successful result with a payload
    let data = match msg.result {
        SubMsgResult::Success(resp) => match resp.data {
            Some(b) => b,
            None => {
                return Err(ContractError::FailedIBCTransfer {});
            },
        },
        SubMsgResult::Failure(_) => {
            return Err(ContractError::FailedIBCTransfer {});
        },
    };
    // the payload carries the packet sequence the channel assigned
    let response = match decode_transfer_response(&data) {
        Some(m) => m,
        None => {
            return Err(ContractError::FailedIBCTransfer {});
        },
    };
    // consume the stored context
    let ctx = match state.transfer_reply_state.take() {
        Some(c) => c,
        None => unreached(),
    };
    // track the transfer so it can later be recovered by the sender
    let record = IBCTransfer {
        recovery_addr: ctx.sender,
        channel_id: ctx.channel_id.clone(),
        sequence: response.sequence,
        amount: ctx.amount,
        denom: ctx.denom.clone(),
        status: PacketLifecycleStatus::Sent,
    };
    state.inflight_packets.save(record);
    Ok(
        SendConfirmation {
            channel_id: ctx.channel_id,
            sequence: response.sequence,
            amount: ctx.amount,
            denom: ctx.denom,
            to_address: ctx.to_address,
        },
    )
}

/// Whether a reply reports success: a successful result carrying a payload.
pub open spec fn reply_success(msg: Reply) -> bool {
    msg.result matches SubMsgResult::Success(resp) && resp.data is Some
}

/// How `handle_send_external_tokens_reply` relates state, reply, new state
/// and result.
pub open spec fn handle_send_external_reply_post(
    s1: ContractState,
    msg: Reply,
    s2: ContractState,
    r: Result<ExternalSettlement, ContractError>,
) -> bool {
    match s1.send_external_tokens_reply_state {
        Option::None => {
            &&& r matches Err(e)
            &&& e is NoExternalTokensInflightPacket
            &&& s2 == s1
        },
        Option::Some(ctx) => {
            if reply_success(msg) {
                &&& r matches Ok(out)
                &&& out == (ExternalSettlement::Settled {
                    to_address: ctx.recovery_addr,
                    amount: ctx.amount,
                })
                &&& s2.send_external_tokens_reply_state is None
                &&& s2.inflight_packets@ == s1.inflight_packets@.remove(
                    (ctx.channel_id@, ctx.sequence),
                )
                &&& s2 == (ContractState {
                    send_external_tokens_reply_state: s2.send_external_tokens_reply_state,
                    inflight_packets: s2.inflight_packets,
                    ..s1
                })
            } else {
                &&& r matches Ok(out)
                &&& out == (ExternalSettlement::RecoveryStored { recovery_addr: ctx.recovery_addr })
                &&& s2.send_external_tokens_reply_state is None
                &&& s2.inflight_packets@ == s1.inflight_packets@.remove(
                    (ctx.channel_id@, ctx.sequence),
                )
                &&& s2.recovery_states@ == recovery_with(
                    s1.recovery_states@,
                    with_status(ctx, PacketLifecycleStatus::SendingExternalTokensFailure),
                )
                &&& s2 == (ContractState {
                    send_external_tokens_reply_state: s2.send_external_tokens_reply_state,
                    inflight_packets: s2.inflight_packets,
                    recovery_states: s2.recovery_states,
                    ..s1
                })
            }
        },
    }
}

/// Settles the pending external send: consumes the settlement context and
/// removes the ledger record.  On settlement success the transfer is fully
/// settled; on failure a refund obligation is stored for the original
/// sender.
pub fn handle_send_external_tokens_reply(state: &mut ContractState, msg: Reply) -> (r: Result<
    ExternalSettlement,
    ContractError,
>)
    requires
        old(state).wf(),
    ensures
        final(state).wf(),
        handle_send_external_reply_post(*old(state), msg, *final(state), r),
{
    let success = match &msg.result {
        SubMsgResult::Success(resp) => resp.data.is_some(),
        SubMsgResult::Failure(_) => false,
    };
    // consume the stored settlement context
    let ctx = match state.send_external_tokens_reply_state.take() {
        Some(c) => c,
        None => {
            return Err(ContractError::NoExternalTokensInflightPacket);
        },
    };
    // the tracked transfer is resolved either way
    state.inflight_packets.remove(&ctx.channel_id, ctx.sequence);
    if success {
        Ok(ExternalSettlement::Settled { to_address: ctx.recovery_addr, amount: ctx.amount })
    } else {
        // store a refund obligation for the original sender of the packet
        let recovery_addr = create_recovery(
            state,
            ctx,
            PacketLifecycleStatus::SendingExternalTokensFailure,
        );
        Ok(ExternalSettlement::RecoveryStored { recovery_addr })
    }
}

/// The doubled amount a stored record would settle for fits the amount's
/// machine width.
pub open spec fn claim_amount_fits(s: ContractState, channel: Seq<char>, sequence: u64) -> bool {
    s.inflight_packets@.contains_key((channel, sequence))
        ==> s.inflight_packets@[(channel, sequence)].amount * EXTERNAL_CLAIM_COLLATERAL_FACTOR
        <= u128::MAX
}

/// How `send_external_tokens` relates state, the packet, new state and
/// result.
pub open spec fn send_external_tokens_post(
    s1: ContractState,
    packet: IBCTransfer,
    s2: ContractState,
    r: Result<BankSend, ContractError>,
) -> bool {
    if s1.send_external_tokens_reply_state is Some {
        &&& r matches Err(e)
        &&& e is ContractLocked
        &&& s2 == s1
    } else {
        &&& r matches Ok(b)
        &&& b.to_address == packet.recovery_addr
        &&& b.amount == packet.amount * EXTERNAL_CLAIM_COLLATERAL_FACTOR
        &&& b.denom == packet.denom
        &&& s2.send_external_tokens_reply_state matches Some(ctx)
        &&& ctx.recovery_addr == packet.recovery_addr
        &&& ctx.channel_id == packet.channel_id
        &&& ctx.sequence == packet.sequence
        &&& ctx.amount == packet.amount * EXTERNAL_CLAIM_COLLATERAL_FACTOR
        &&& ctx.denom == packet.denom
        &&& ctx.status == PacketLifecycleStatus::SendingExternalTokens
        &&& s2 == (ContractState {
            send_external_tokens_reply_state: s2.send_external_tokens_reply_state,
            ..s1
        })
    }
}

/// Issues the settlement payment for a claimed packet: persists the doubled,
/// `SendingExternalTokens`-tagged copy of the record as the settlement
/// context and returns the payment for the caller to dispatch.  The context
/// slot must be free; a present one means a settlement is outstanding.
pub fn send_external_tokens(state: &mut ContractState, packet: IBCTransfer) -> (r: Result<
    BankSend,
    ContractError,
>)
    requires
        old(state).wf(),
        packet.amount * EXTERNAL_CLAIM_COLLATERAL_FACTOR <= u128::MAX,
    ensures
        final(state).wf(),
        send_external_tokens_post(*old(state), packet, *final(state), r),
{
    if state.send_external_tokens_reply_state.is_some() {
        return Err(ContractError::ContractLocked {});
    }
    let settled_amount = packet.amount * EXTERNAL_CLAIM_COLLATERAL_FACTOR;
    let payment = BankSend {
        to_address: packet.recovery_addr.clone(),
        amount: settled_amount,
        denom: packet.denom.clone(),
    };
    state.send_external_tokens_reply_state = Some(
        IBCTransfer {
            recovery_addr: packet.recovery_addr,
            channel_id: packet.channel_id,
            sequence: packet.sequence,
            amount: settled_amount,
            denom: packet.denom,
            status: PacketLifecycleStatus::SendingExternalTokens,
        },
    );
    Ok(payment)
}

/// How `receive_ibc_token` relates state, arguments, new state and result.
pub open spec fn receive_ibc_token_post(
    s1: ContractState,
    funds: Seq<Coin>,
    channel: Seq<char>,
    sequence: u64,
    s2: ContractState,
    r: Result<BankSend, ContractError>,
) -> bool {
    let key = (channel, sequence);
    if !s1.inflight_packets@.contains_key(key) {
        &&& r matches Err(e)
        &&& e matches ContractError::NoInflightPacket { channel_id, sequence: sq }
        &&& channel_id@ == channel && sq == sequence
        &&& s2 == s1
    } else {
        let rec = s1.inflight_packets@[key];
        if rec.status != PacketLifecycleStatus::AwaitingResponse {
            &&& r matches Err(e)
            &&& e matches ContractError::InvalidInflightPacketState {
                channel_id,
                sequence: sq,
                status,
            }
            &&& channel_id@ == channel && sq == sequence && status == rec.status
            &&& s2 == s1
        } else {
            match attached_coin(funds, rec.denom@) {
                Option::None => {
                    &&& r matches Err(e)
                    &&& e matches ContractError::NoExternalFunds { denom } && denom@ == rec.denom@
                    &&& s2 == s1
                },
                Option::Some(c) => {
                    if c.amount < rec.amount * EXTERNAL_CLAIM_COLLATERAL_FACTOR {
                        &&& r matches Err(e)
                        &&& e == (ContractError::InsufficientExternalFunds {
                            sent: c.amount,
                            required: (rec.amount * EXTERNAL_CLAIM_COLLATERAL_FACTOR) as u128,
                        })
                        &&& s2 == s1
                    } else {
                        send_external_tokens_post(s1, rec, s2, r)
                    }
                },
            }
        }
    }
}

/// Handles an external claim against an awaiting transfer: the record must
/// exist and await a response, the claimant must attach the record's
/// denomination and at least the collateral multiple of its amount; then the
/// settlement payment to the original sender is issued.
pub fn receive_ibc_token(
    state: &mut ContractState,
    funds: &Vec<Coin>,
    channel: String,
    sequence: u64,
) -> (r: Result<BankSend, ContractError>)
    requires
        old(state).wf(),
        claim_amount_fits(*old(state), channel@, sequence),
    ensures
        final(state).wf(),
        receive_ibc_token_post(*old(state), funds@, channel@, sequence, *final(state), r),
{
    // the claim must name a tracked transfer
    let record = match state.inflight_packets.get(&channel, sequence) {
        Some(p) => p.duplicate(),
        None => {
            return Err(ContractError::NoInflightPacket { channel_id: channel, sequence });
        },
    };
    // the transfer must await an external response
    if record.status != PacketLifecycleStatus::AwaitingResponse {
        return Err(
            ContractError::InvalidInflightPacketState {
                channel_id: channel,
                sequence,
                status: record.status,
            },
        );
    }
    // the claimant must attach the record's denomination
    let sent_coin = match find_attached(funds, &record.denom) {
        Some(c) => c,
        None => {
            return Err(ContractError::NoExternalFunds { denom: record.denom });
        },
    };
    // and at least the collateral multiple of the recorded amount
    let required = record.amount * EXTERNAL_CLAIM_COLLATERAL_FACTOR;
    if sent_coin.amount < required {
        return Err(
            ContractError::InsufficientExternalFunds { sent: sent_coin.amount, required },
        );
    }
    send_external_tokens(state, record)
}

/// How `recover` relates state, the claiming owner, new state and result.
pub open spec fn recover_post(
    s1: ContractState,
    sender: Seq<char>,
    s2: ContractState,
    r: Result<Vec<BankSend>, ContractError>,
) -> bool {
    if !s1.recovery_states@.contains_key(sender) {
        &&& r matches Err(e)
        &&& e is NoRecovery
        &&& s2 == s1
    } else {
        let list = s1.recovery_states@[sender];
        &&& r matches Ok(msgs)
        &&& msgs@.len() == list.len()
        &&& forall|i: int|
            0 <= i < list.len() ==> #[trigger] msgs@[i] == (BankSend {
                to_address: list[i].recovery_addr,
                amount: list[i].amount,
                denom: list[i].denom,
            })
        &&& s2.recovery_states@ == s1.recovery_states@.remove(sender)
        &&& s2 == (ContractState { recovery_states: s2.recovery_states, ..s1 })
    }
}

/// Drains the owner's full recovery list atomically and returns one refund
/// payment per entry, in list order.  The removal and the returned payments
/// commit together; a second immediate claim finds nothing.
pub fn recover(state: &mut ContractState, sender: String) -> (r: Result<
    Vec<BankSend>,
    ContractError,
>)
    requires
        old(state).wf(),
    ensures
        final(state).wf(),
        recover_post(*old(state), sender@, *final(state), r),
{
    let recoveries = match state.recovery_states.claim(&sender) {
        Some(list) => list,
        None => {
            return Err(ContractError::NoRecovery {});
        },
    };
    let mut msgs: Vec<BankSend> = Vec::new();
    let n = recoveries.len();
    for i in 0..n
        invariant
            n == recoveries@.len(),
            msgs@.len() == i,
            forall|j: int|
                0 <= j < i ==> #[trigger] msgs@[j] == (BankSend {
                    to_address: recoveries@[j].recovery_addr,
                    amount: recoveries@[j].amount,
                    denom: recoveries@[j].denom,
                }),
    {
        msgs.push(
            BankSend {
                to_address: recoveries[i].recovery_addr.clone(),
                amount: recoveries[i].amount,
                denom: recoveries[i].denom.clone(),
            },
        );
    }
    Ok(msgs)
}

/// Checks that `addr` is the registry owner.
pub fn validate_owner(state: &ContractState, addr: &String) -> (r: Result<(), ContractError>)
    requires
        state.wf(),
    ensures
        r is Ok <==> is_owner(*state, addr@),
        r matches Err(e) ==> e is Unauthorized,
{
    match &state.config {
        Some(c) => {
            if c.owner == *addr {
                Ok(())
            } else {
                Err(ContractError::Unauthorized {})
            }
        },
        None => unreached(),
    }
}

/// How `add_external_address` relates state, arguments, new state and
/// result.
pub open spec fn add_external_address_post(
    s1: ContractState,
    sender: Seq<char>,
    alias: Seq<char>,
    addr: String,
    s2: ContractState,
    r: Result<(), ContractError>,
) -> bool {
    if is_owner(s1, sender) {
        &&& r is Ok
        &&& s2.external_addresses@ == s1.external_addresses@.insert(alias, addr)
        &&& s2 == (ContractState { external_addresses: s2.external_addresses, ..s1 })
    } else {
        &&& r matches Err(e)
        &&& e is Unauthorized
        &&& s2 == s1
    }
}

/// Adds an external address under `alias`; only the registry owner may.
pub fn add_external_address(
    state: &mut ContractState,
    sender: &String,
    alias: String,
    addr: String,
) -> (r: Result<(), ContractError>)
    requires
        old(state).wf(),
    ensures
        final(state).wf(),
        add_external_address_post(*old(state), sender@, alias@, addr, *final(state), r),
{
    validate_owner(state, sender)?;
    state.external_addresses.insert(alias, addr);
    Ok(())
}

/// How `add_port` relates state, arguments, new state and result.
pub open spec fn add_port_post(
    s1: ContractState,
    sender: Seq<char>,
    alias: Seq<char>,
    port: String,
    s2: ContractState,
    r: Result<(), ContractError>,
) -> bool {
    if is_owner(s1, sender) {
        &&& r is Ok
        &&& s2.ports@ == s1.ports@.insert(alias, port)
        &&& s2 == (ContractState { ports: s2.ports, ..s1 })
    } else {
        &&& r matches Err(e)
        &&& e is Unauthorized
        &&& s2 == s1
    }
}

/// Adds a port under `alias`; only the registry owner may.
pub fn add_port(state: &mut ContractState, sender: &String, alias: String, port: String) -> (r:
    Result<(), ContractError>)
    requires
        old(state).wf(),
    ensures
        final(state).wf(),
        add_port_post(*old(state), sender@, alias@, port, *final(state), r),
{
    validate_owner(state, sender)?;
    state.ports.insert(alias, port);
    Ok(())
}

/// How `add_channel` relates state, arguments, new state and result.
pub open spec fn add_channel_post(
    s1: ContractState,
    sender: Seq<char>,
    alias: Seq<char>,
    channel_id: u32,
    s2: ContractState,
    r: Result<(), ContractError>,
) -> bool {
    if is_owner(s1, sender) {
        &&& r is Ok
        &&& s2.channels@ == s1.channels@.insert(alias, channel_id)
        &&& s2 == (ContractState { channels: s2.channels, ..s1 })
    } else {
        &&& r matches Err(e)
        &&& e is Unauthorized
        &&& s2 == s1
    }
}

/// Adds a channel under `alias`; only the registry owner may.
pub fn add_channel(
    state: &mut ContractState,
    sender: &String,
    alias: String,
    channel_id: u32,
) -> (r: Result<(), ContractError>)
    requires
        old(state).wf(),
    ensures
        final(state).wf(),
        add_channel_post(*old(state), sender@, alias@, channel_id, *final(state), r),
{
    validate_owner(state, sender)?;
    state.channels.insert(alias, channel_id);
    Ok(())
}

} // verus!
