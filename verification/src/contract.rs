//! The contract's entry points: instantiation and the three dispatchers the
//! host drives (caller operations, sub-message replies, privileged lifecycle
//! events).

use vstd::prelude::*;
use vstd::hash_map::StringHashMap;
use crate::consts::MsgReplyID;
use crate::error::ContractError;
use crate::execute::add_channel;
use crate::execute::add_channel_post;
use crate::execute::add_external_address;
use crate::execute::add_external_address_post;
use crate::execute::add_port;
use crate::execute::add_port_post;
use crate::execute::claim_amount_fits;
use crate::execute::handle_send_external_reply_post;
use crate::execute::handle_send_external_tokens_reply;
use crate::execute::handle_transfer_ibc_token_reply;
use crate::execute::handle_transfer_reply_post;
use crate::execute::receive_ibc_token;
use crate::execute::receive_ibc_token_post;
use crate::execute::recover;
use crate::execute::recover_post;
use crate::execute::transfer_ibc_token;
use crate::execute::transfer_ibc_token_post;
use crate::execute::ExternalSettlement;
use crate::execute::SendConfirmation;
use crate::ibc_lifecycle::receive_ack;
use crate::ibc_lifecycle::receive_ack_post;
use crate::ibc_lifecycle::receive_timeout;
use crate::ibc_lifecycle::receive_timeout_post;
use crate::ibc_lifecycle::AckOutcome;
use crate::msg::BankSend;
use crate::msg::Coin;
use crate::msg::ExecuteMsg;
use crate::msg::IBCLifecycleComplete;
use crate::msg::InstantiateMsg;
use crate::msg::Reply;
use crate::msg::SudoMsg;
use crate::proto::MsgTransfer;
use crate::state::default_alias;
use crate::state::Config;
use crate::state::ContractState;
use crate::state::IBCTransfer;
use crate::state::PacketLedger;
use crate::state::RecoveryLedger;

verus! {

/// Creates the contract's state: the instantiating sender becomes the
/// registry owner, each registry holds its default entry, no context is
/// pending and both ledgers are empty.
pub fn instantiate(sender: String, _msg: InstantiateMsg) -> (state: ContractState)
    ensures
        state.wf(),
        state.config matches Some(c) && c.owner == sender,
        state.external_addresses@.dom() == set![default_alias()],
        state.external_addresses@[default_alias()]@ == "external_address"@,
        state.ports@.dom() == set![default_alias()],
        state.ports@[default_alias()]@ == "transfer"@,
        state.channels@.dom() == set![default_alias()],
        state.channels@[default_alias()] == 0u32,
        state.transfer_reply_state is None,
        state.send_external_tokens_reply_state is None,
        state.inflight_packets@ == Map::<(Seq<char>, u64), IBCTransfer>::empty(),
        state.recovery_states@ == Map::<Seq<char>, Seq<IBCTransfer>>::empty(),
{
    let mut external_addresses: StringHashMap<String> = StringHashMap::new();
    external_addresses.insert("default".to_owned(), "external_address".to_owned());
    let mut ports: StringHashMap<String> = StringHashMap::new();
    ports.insert("default".to_owned(), "transfer".to_owned());
    let mut channels: StringHashMap<u32> = StringHashMap::new();
    channels.insert("default".to_owned(), 0);
    let state = ContractState {
        config: Some(Config { owner: sender }),
        external_addresses,
        ports,
        channels,
        transfer_reply_state: None,
        send_external_tokens_reply_state: None,
        inflight_packets: PacketLedger::new(),
        recovery_states: RecoveryLedger::new(),
    };
    proof {
        assert(state.external_addresses@.dom() =~= set![default_alias()]);
        assert(state.ports@.dom() =~= set![default_alias()]);
        assert(state.channels@.dom() =~= set![default_alias()]);
    }
    state
}

/// What an executed operation asks the host to do next.
#[derive(Debug, PartialEq, Eq)]
pub enum ExecuteOutcome {
    /// Dispatch this submit-transfer request and route its reply back.
    Submitted(MsgTransfer),
    /// Dispatch this settlement payment and route its reply back.
    SettlementIssued(BankSend),
    /// Dispatch one refund payment per drained recovery entry.
    Refunded(Vec<BankSend>),
    /// A registry entry was written; nothing to dispatch.
    RegistryUpdated,
}

/// How `execute` relates state, arguments, new state and result: each
/// operation's own postcondition, under the corresponding outcome.
pub open spec fn execute_post(
    s1: ContractState,
    contract_address: Seq<char>,
    sender: Seq<char>,
    funds: Seq<Coin>,
    msg: ExecuteMsg,
    s2: ContractState,
    res: Result<ExecuteOutcome, ContractError>,
) -> bool {
    match msg {
        ExecuteMsg::SendToken { port, channel, recipient, amount } => match res {
            Ok(out) => {
                &&& out matches ExecuteOutcome::Submitted(m)
                &&& transfer_ibc_token_post(
                    s1,
                    contract_address,
                    sender,
                    funds,
                    amount,
                    port@,
                    channel@,
                    recipient@,
                    s2,
                    Ok(m),
                )
            },
            Err(e) => transfer_ibc_token_post(
                s1,
                contract_address,
                sender,
                funds,
                amount,
                port@,
                channel@,
                recipient@,
                s2,
                Err(e),
            ),
        },
        ExecuteMsg::ReceiveToken { channel, sequence } => match res {
            Ok(out) => {
                &&& out matches ExecuteOutcome::SettlementIssued(b)
                &&& receive_ibc_token_post(s1, funds, channel@, sequence, s2, Ok(b))
            },
            Err(e) => receive_ibc_token_post(s1, funds, channel@, sequence, s2, Err(e)),
        },
        ExecuteMsg::RecoverToken {  } => match res {
            Ok(out) => {
                &&& out matches ExecuteOutcome::Refunded(msgs)
                &&& recover_post(s1, sender, s2, Ok(msgs))
            },
            Err(e) => recover_post(s1, sender, s2, Err(e)),
        },
        ExecuteMsg::AddExternalAddress { alias, address } => match res {
            Ok(out) => {
                &&& out is RegistryUpdated
                &&& add_external_address_post(s1, sender, alias@, address, s2, Ok(()))
            },
            Err(e) => add_external_address_post(s1, sender, alias@, address, s2, Err(e)),
        },
        ExecuteMsg::AddPort { alias, port } => match res {
            Ok(out) => {
                &&& out is RegistryUpdated
                &&& add_port_post(s1, sender, alias@, port, s2, Ok(()))
            },
            Err(e) => add_port_post(s1, sender, alias@, port, s2, Err(e)),
        },
        ExecuteMsg::AddChannel { alias, channel_id } => match res {
            Ok(out) => {
                &&& out is RegistryUpdated
                &&& add_channel_post(s1, sender, alias@, channel_id, s2, Ok(()))
            },
            Err(e) => add_channel_post(s1, sender, alias@, channel_id, s2, Err(e)),
        },
    }
}

/// Dispatches a caller operation.  `contract_address` is this contract's own
/// address, `sender` the caller and `funds` what the caller attached.
pub fn execute(
    state: &mut ContractState,
    contract_address: String,
    sender: String,
    funds: &Vec<Coin>,
    msg: ExecuteMsg,
) -> (res: Result<ExecuteOutcome, ContractError>)
    requires
        old(state).wf(),
        msg matches ExecuteMsg::ReceiveToken { channel, sequence } ==> claim_amount_fits(
            *old(state),
            channel@,
            sequence,
        ),
    ensures
        final(state).wf(),
        execute_post(*old(state), contract_address@, sender@, funds@, msg, *final(state), res),
{
    match msg {
        ExecuteMsg::SendToken { port, channel, recipient, amount } => {
            match transfer_ibc_token(
                state,
                contract_address,
                sender,
                funds,
                amount,
                port,
                channel,
                recipient,
            ) {
                Ok(m) => Ok(ExecuteOutcome::Submitted(m)),
                Err(e) => Err(e),
            }
        },
        ExecuteMsg::ReceiveToken { channel, sequence } => {
            match receive_ibc_token(state, funds, channel, sequence) {
                Ok(b) => Ok(ExecuteOutcome::SettlementIssued(b)),
                Err(e) => Err(e),
            }
        },
        ExecuteMsg::RecoverToken {  } => {
            match recover(state, sender) {
                Ok(msgs) => Ok(ExecuteOutcome::Refunded(msgs)),
                Err(e) => Err(e),
            }
        },
        ExecuteMsg::AddExternalAddress { alias, address } => {
            match add_external_address(state, &sender, alias, address) {
                Ok(_) => Ok(ExecuteOutcome::RegistryUpdated),
                Err(e) => Err(e),
            }
        },
        ExecuteMsg::AddPort { alias, port } => {
            match add_port(state, &sender, alias, port) {
                Ok(_) => Ok(ExecuteOutcome::RegistryUpdated),
                Err(e) => Err(e),
            }
        },
        ExecuteMsg::AddChannel { alias, channel_id } => {
            match add_channel(state, &sender, alias, channel_id) {
                Ok(_) => Ok(ExecuteOutcome::RegistryUpdated),
                Err(e) => Err(e),
            }
        },
    }
}

/// What a handled reply reports back.
#[derive(Debug, PartialEq, Eq)]
pub enum ReplyOutcome {
    /// An initiated send was confirmed and is now tracked.
    TransferConfirmed(SendConfirmation),
    /// A pending settlement was resolved.
    Settlement(ExternalSettlement),
}

/// How `reply` relates state, the reply, new state and result.
pub open spec fn reply_post(
    s1: ContractState,
    message: Reply,
    s2: ContractState,
    res: Result<ReplyOutcome, ContractError>,
) -> bool {
    if message.id == MsgReplyID::TransferIbc.repr_spec() {
        match res {
            Ok(out) => {
                &&& out matches ReplyOutcome::TransferConfirmed(c)
                &&& handle_transfer_reply_post(s1, message, s2, Ok(c))
            },
            Err(e) => handle_transfer_reply_post(s1, message, s2, Err(e)),
        }
    } else if message.id == MsgReplyID::SendAddr.repr_spec() {
        match res {
            Ok(out) => {
                &&& out matches ReplyOutcome::Settlement(st)
                &&& handle_send_external_reply_post(s1, message, s2, Ok(st))
            },
            Err(e) => handle_send_external_reply_post(s1, message, s2, Err(e)),
        }
    } else {
        &&& res matches Err(e)
        &&& e == (ContractError::InvalidReplyID { id: message.id })
        &&& s2 == s1
    }
}

/// Routes a host reply to the handler its identifier names.
pub fn reply(state: &mut ContractState, message: Reply) -> (res: Result<
    ReplyOutcome,
    ContractError,
>)
    requires
        old(state).wf(),
        message.id == MsgReplyID::TransferIbc.repr_spec() ==> old(
            state,
        ).transfer_reply_state is Some,
    ensures
        final(state).wf(),
        reply_post(*old(state), message, *final(state), res),
{
    match MsgReplyID::from_repr(message.id) {
        Some(MsgReplyID::TransferIbc) => {
            match handle_transfer_ibc_token_reply(state, message) {
                Ok(c) => Ok(ReplyOutcome::TransferConfirmed(c)),
                Err(e) => Err(e),
            }
        },
        Some(MsgReplyID::SendAddr) => {
            match handle_send_external_tokens_reply(state, message) {
                Ok(st) => Ok(ReplyOutcome::Settlement(st)),
                Err(e) => Err(e),
            }
        },
        None => Err(ContractError::InvalidReplyID { id: message.id }),
    }
}

/// Routes a privileged lifecycle event to the ack or timeout handler.
pub fn sudo(state: &mut ContractState, msg: SudoMsg) -> (res: Result<AckOutcome, ContractError>)
    requires
        old(state).wf(),
    ensures
        final(state).wf(),
        match msg {
            SudoMsg::IBCLifecycleComplete(
                IBCLifecycleComplete::IBCAck { channel, sequence, ack, success },
            ) => receive_ack_post(*old(state), channel@, sequence, success, *final(state), res),
            SudoMsg::IBCLifecycleComplete(
                IBCLifecycleComplete::IBCTimeout { channel, sequence },
            ) => receive_timeout_post(*old(state), channel@, sequence, *final(state), res),
        },
{
    match msg {
        SudoMsg::IBCLifecycleComplete(
            IBCLifecycleComplete::IBCAck { channel, sequence, ack, success },
        ) => receive_ack(state, channel, sequence, ack, success),
        SudoMsg::IBCLifecycleComplete(IBCLifecycleComplete::IBCTimeout { channel, sequence }) => {
            receive_timeout(state, channel, sequence)
        },
    }
}

} // verus!
