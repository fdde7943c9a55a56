use ibc_transfer::consts::MsgReplyID;
use ibc_transfer::contract::{execute, instantiate, reply, sudo, ExecuteOutcome, ReplyOutcome};
use ibc_transfer::error::ContractError;
use ibc_transfer::execute::{
    handle_send_external_tokens_reply, handle_transfer_ibc_token_reply, receive_ibc_token, recover,
    send_external_tokens, transfer_ibc_token, ExternalSettlement, SendConfirmation,
};
use ibc_transfer::ibc_lifecycle::{create_recovery, receive_ack, receive_timeout, AckOutcome};
use ibc_transfer::msg::{
    BankSend, Coin, ExecuteMsg, IBCLifecycleComplete, InstantiateMsg, Reply, SubMsgResponse,
    SubMsgResult, SudoMsg,
};
use ibc_transfer::proto::MsgTransfer;
use ibc_transfer::state::{ContractState, IBCTransfer, PacketLifecycleStatus, TransferMsgReplyState};

fn fresh(sender: &str) -> ContractState {
    instantiate(sender.to_string(), InstantiateMsg {})
}

fn ok_reply(id: u64, data: Vec<u8>) -> Reply {
    Reply { id, result: SubMsgResult::Success(SubMsgResponse { data: Some(data) }) }
}

#[test]
fn instantiate_test() {
    let state = fresh("creator");

    let config = state.config.as_ref().expect("config stored");
    assert_eq!(config.owner, "creator".to_string());
    assert_eq!(
        state.external_addresses.get("default").cloned(),
        Some("external_address".to_string())
    );
    assert_eq!(state.ports.get("default").cloned(), Some("transfer".to_string()));
    assert_eq!(state.channels.get("default").copied(), Some(0));
    assert!(state.transfer_reply_state.is_none());
    assert!(state.send_external_tokens_reply_state.is_none());
}

#[test]
fn transfer_ibc_token_test() {
    let mut state = fresh("sender");
    let funds = vec![Coin::new(100, "token")];
    let amount = Coin::new(50, "token");

    let res = transfer_ibc_token(
        &mut state,
        "contract".to_string(),
        "sender".to_string(),
        &funds,
        amount,
        "port".to_string(),
        0.to_string(),
        "recipient".to_string(),
    )
    .expect("ibc transfer should succeed");

    // none of the aliases is registered, so every lookup falls back to the
    // defaults written at instantiation
    assert_eq!(
        res,
        MsgTransfer {
            source_port: "transfer".to_string(),
            source_channel: "0".to_string(),
            token: Coin::new(50, "token"),
            sender: "contract".to_string(),
            receiver: "external_address".to_string(),
        }
    );

    assert_eq!(
        state.transfer_reply_state,
        Some(TransferMsgReplyState {
            channel_id: "0".to_string(),
            to_address: "external_address".to_string(),
            amount: 50,
            denom: "token".to_string(),
            sender: "sender".to_string(),
        })
    );
}

#[test]
fn transfer_ibc_token_test_insufficient_funds() {
    let mut state = fresh("sender");
    let funds = vec![Coin::new(50, "token")];
    let amount = Coin::new(100, "token");

    let res = transfer_ibc_token(
        &mut state,
        "contract".to_string(),
        "sender".to_string(),
        &funds,
        amount,
        "port".to_string(),
        0.to_string(),
        "recipient".to_string(),
    );

    match res {
        Err(ContractError::NotEnoughFunds { sent, required }) => {
            assert_eq!(sent, 50);
            assert_eq!(required, 100);
        }
        _ => panic!("Unexpected error"),
    }

    assert!(state.transfer_reply_state.is_none());
}

#[test]
fn handle_transfer_ibc_token_reply_test() {
    let mut state = fresh("sender");
    state.transfer_reply_state = Some(TransferMsgReplyState {
        channel_id: 0.to_string(),
        to_address: "default".to_string(),
        amount: 100,
        denom: "token".to_string(),
        sender: "sender".to_string(),
    });

    // wrong response encoding should fail
    let bad = ok_reply(MsgReplyID::TransferIbc.repr(), vec![0, 1, 2]);
    handle_transfer_ibc_token_reply(&mut state, bad)
        .expect_err("ibc transfer reply wrong encoding should fail");

    // the proto encoding of a sequence-number message with sequence one
    let good = ok_reply(MsgReplyID::TransferIbc.repr(), vec![8, 1]);
    let res = handle_transfer_ibc_token_reply(&mut state, good)
        .expect("ibc transfer reply should succeed");

    assert_eq!(
        res,
        SendConfirmation {
            channel_id: "0".to_string(),
            sequence: 1,
            amount: 100,
            denom: "token".to_string(),
            to_address: "default".to_string(),
        }
    );

    assert_eq!(
        state.inflight_packets.get(&"0".to_string(), 1),
        Some(&IBCTransfer {
            recovery_addr: "sender".to_string(),
            channel_id: "0".to_string(),
            sequence: 1,
            amount: 100,
            denom: "token".to_string(),
            status: PacketLifecycleStatus::Sent,
        })
    );

    assert_eq!(state.transfer_reply_state, None);
}

#[test]
fn receive_ibc_token_test() {
    let mut state = fresh("sender");
    state.inflight_packets.save(IBCTransfer {
        recovery_addr: "sender".to_string(),
        channel_id: 0.to_string(),
        sequence: 1,
        amount: 100,
        denom: "token".to_string(),
        status: PacketLifecycleStatus::AwaitingResponse,
    });

    // attaching less than twice the recorded amount must fail
    let poor_funds = vec![Coin::new(50, "token")];
    receive_ibc_token(&mut state, &poor_funds, 0.to_string(), 1)
        .expect_err("receive ibc token should fail on insufficient funds");

    let funds = vec![Coin::new(200, "token")];
    let res = receive_ibc_token(&mut state, &funds, 0.to_string(), 1)
        .expect("receive ibc token should succeed");

    assert_eq!(
        res,
        BankSend { to_address: "sender".to_string(), amount: 200, denom: "token".to_string() }
    );

    assert_eq!(
        state.send_external_tokens_reply_state,
        Some(IBCTransfer {
            recovery_addr: "sender".to_string(),
            channel_id: "0".to_string(),
            sequence: 1,
            amount: 200,
            denom: "token".to_string(),
            status: PacketLifecycleStatus::SendingExternalTokens,
        })
    );
}

#[test]
fn recover_test() {
    let mut state = fresh("sender");
    let recovery_1 = IBCTransfer {
        recovery_addr: "sender".to_string(),
        channel_id: 0.to_string(),
        sequence: 1,
        amount: 100,
        denom: "token".to_string(),
        status: PacketLifecycleStatus::SendingExternalTokensFailure,
    };
    let recovery_2 = IBCTransfer {
        recovery_addr: "sender".to_string(),
        channel_id: 2.to_string(),
        sequence: 2,
        amount: 200,
        denom: "token".to_string(),
        status: PacketLifecycleStatus::SendingExternalTokensFailure,
    };
    state.recovery_states.append(recovery_1);
    state.recovery_states.append(recovery_2);

    let res = recover(&mut state, "sender".to_string()).expect("recover should succeed");

    assert_eq!(
        res,
        vec![
            BankSend { to_address: "sender".to_string(), amount: 100, denom: "token".to_string() },
            BankSend { to_address: "sender".to_string(), amount: 200, denom: "token".to_string() },
        ]
    );

    // the list was drained wholesale
    assert!(state.recovery_states.claim(&"sender".to_string()).is_none());

    recover(&mut state, "unexisting_sender".to_string())
        .expect_err("recover should fail on non-existing recovery");
}

#[test]
fn receive_ack_test() {
    let mut state = fresh("sender");
    state.inflight_packets.save(IBCTransfer {
        recovery_addr: "sender".to_string(),
        channel_id: 0.to_string(),
        sequence: 1,
        amount: 100,
        denom: "token".to_string(),
        status: PacketLifecycleStatus::Sent,
    });

    let res = receive_ack(&mut state, 0.to_string(), 1, "acknowledged".to_string(), true)
        .expect("receive ack should succeed");
    assert_eq!(res, AckOutcome::Delivered);

    assert_eq!(
        state.inflight_packets.get(&"0".to_string(), 1),
        Some(&IBCTransfer {
            recovery_addr: "sender".to_string(),
            channel_id: "0".to_string(),
            sequence: 1,
            amount: 100,
            denom: "token".to_string(),
            status: PacketLifecycleStatus::AwaitingResponse,
        })
    );

    // a failed ack resolves the record into a refund obligation
    let res = receive_ack(&mut state, 0.to_string(), 1, "failed".to_string(), false)
        .expect("receive ack should succeed");
    assert_eq!(res, AckOutcome::RecoveryStored { recovery_addr: "sender".to_string() });

    assert_eq!(
        state.recovery_states.claim(&"sender".to_string()),
        Some(vec![IBCTransfer {
            recovery_addr: "sender".to_string(),
            channel_id: "0".to_string(),
            sequence: 1,
            amount: 100,
            denom: "token".to_string(),
            status: PacketLifecycleStatus::AckFailure,
        }])
    );
}

#[test]
fn transfer_locked_while_confirmation_outstanding() {
    let mut state = fresh("sender");
    let funds = vec![Coin::new(100, "token")];

    transfer_ibc_token(
        &mut state,
        "contract".to_string(),
        "sender".to_string(),
        &funds,
        Coin::new(50, "token"),
        "port".to_string(),
        0.to_string(),
        "recipient".to_string(),
    )
    .expect("first transfer should succeed");

    let second = transfer_ibc_token(
        &mut state,
        "contract".to_string(),
        "sender".to_string(),
        &funds,
        Coin::new(50, "token"),
        "port".to_string(),
        0.to_string(),
        "recipient".to_string(),
    );
    assert!(matches!(second, Err(ContractError::ContractLocked {})));
}

#[test]
fn transfer_no_funds_of_denom() {
    let mut state = fresh("sender");
    let funds = vec![Coin::new(100, "other")];
    let res = transfer_ibc_token(
        &mut state,
        "contract".to_string(),
        "sender".to_string(),
        &funds,
        Coin::new(50, "token"),
        "port".to_string(),
        0.to_string(),
        "recipient".to_string(),
    );
    match res {
        Err(ContractError::NoFunds { denom }) => assert_eq!(denom, "token".to_string()),
        _ => panic!("Unexpected error"),
    }
    assert!(state.transfer_reply_state.is_none());
}

#[test]
fn transfer_uses_registered_aliases() {
    let mut state = fresh("owner");
    let sender = "owner".to_string();
    ibc_transfer::execute::add_external_address(
        &mut state,
        &sender,
        "friend".to_string(),
        "friend_address".to_string(),
    )
    .expect("owner may add an address");
    ibc_transfer::execute::add_port(&mut state, &sender, "p".to_string(), "customport".to_string())
        .expect("owner may add a port");
    ibc_transfer::execute::add_channel(&mut state, &sender, "c".to_string(), 57)
        .expect("owner may add a channel");

    let funds = vec![Coin::new(10, "token")];
    let res = transfer_ibc_token(
        &mut state,
        "contract".to_string(),
        "owner".to_string(),
        &funds,
        Coin::new(10, "token"),
        "p".to_string(),
        "c".to_string(),
        "friend".to_string(),
    )
    .expect("transfer should succeed");

    // the registered channel number is rendered as its decimal string
    assert_eq!(res.source_channel, "57".to_string());
    assert_eq!(res.source_port, "customport".to_string());
    assert_eq!(res.receiver, "friend_address".to_string());
    assert_eq!(state.transfer_reply_state.as_ref().unwrap().channel_id, "57".to_string());
}

#[test]
fn registry_updates_require_owner() {
    let mut state = fresh("owner");
    let intruder = "intruder".to_string();
    let res = ibc_transfer::execute::add_port(
        &mut state,
        &intruder,
        "p".to_string(),
        "customport".to_string(),
    );
    assert!(matches!(res, Err(ContractError::Unauthorized {})));
    assert!(state.ports.get("p").is_none());
}

#[test]
fn reply_decodes_multibyte_sequence() {
    let mut state = fresh("sender");
    state.transfer_reply_state = Some(TransferMsgReplyState {
        channel_id: "0".to_string(),
        to_address: "default".to_string(),
        amount: 7,
        denom: "token".to_string(),
        sender: "sender".to_string(),
    });
    // 300 = 0b10_0101100: varint 0xAC 0x02 after the field-one tag
    let res = handle_transfer_ibc_token_reply(&mut state, ok_reply(1, vec![8, 0xAC, 0x02]))
        .expect("reply should decode");
    assert_eq!(res.sequence, 300);
    assert!(state.inflight_packets.get(&"0".to_string(), 300).is_some());
}

#[test]
fn reply_empty_payload_means_default_sequence() {
    let mut state = fresh("sender");
    state.transfer_reply_state = Some(TransferMsgReplyState {
        channel_id: "0".to_string(),
        to_address: "default".to_string(),
        amount: 7,
        denom: "token".to_string(),
        sender: "sender".to_string(),
    });
    let res = handle_transfer_ibc_token_reply(&mut state, ok_reply(1, vec![]))
        .expect("an empty payload decodes to the default sequence");
    assert_eq!(res.sequence, 0);
}

#[test]
fn reply_failure_result_fails_transfer() {
    let mut state = fresh("sender");
    state.transfer_reply_state = Some(TransferMsgReplyState {
        channel_id: "0".to_string(),
        to_address: "default".to_string(),
        amount: 7,
        denom: "token".to_string(),
        sender: "sender".to_string(),
    });
    let failed = Reply { id: 1, result: SubMsgResult::Failure("boom".to_string()) };
    let res = handle_transfer_ibc_token_reply(&mut state, failed);
    assert!(matches!(res, Err(ContractError::FailedIBCTransfer {})));
    // the context is untouched: the caller may resolve it out of band
    assert!(state.transfer_reply_state.is_some());
}

#[test]
fn receive_claim_wrong_state_and_missing_packet() {
    let mut state = fresh("sender");
    let funds = vec![Coin::new(200, "token")];

    let missing = receive_ibc_token(&mut state, &funds, "0".to_string(), 9);
    match missing {
        Err(ContractError::NoInflightPacket { channel_id, sequence }) => {
            assert_eq!(channel_id, "0".to_string());
            assert_eq!(sequence, 9);
        }
        _ => panic!("Unexpected error"),
    }

    state.inflight_packets.save(IBCTransfer {
        recovery_addr: "sender".to_string(),
        channel_id: "0".to_string(),
        sequence: 1,
        amount: 100,
        denom: "token".to_string(),
        status: PacketLifecycleStatus::Sent,
    });
    let wrong_state = receive_ibc_token(&mut state, &funds, "0".to_string(), 1);
    match wrong_state {
        Err(ContractError::InvalidInflightPacketState { channel_id, sequence, status }) => {
            assert_eq!(channel_id, "0".to_string());
            assert_eq!(sequence, 1);
            assert_eq!(status, PacketLifecycleStatus::Sent);
        }
        _ => panic!("Unexpected error"),
    }
    // the record is unchanged
    assert_eq!(
        state.inflight_packets.get(&"0".to_string(), 1).unwrap().status,
        PacketLifecycleStatus::Sent
    );
}

#[test]
fn receive_claim_wrong_denomination() {
    let mut state = fresh("sender");
    state.inflight_packets.save(IBCTransfer {
        recovery_addr: "sender".to_string(),
        channel_id: "0".to_string(),
        sequence: 1,
        amount: 100,
        denom: "token".to_string(),
        status: PacketLifecycleStatus::AwaitingResponse,
    });
    let funds = vec![Coin::new(500, "other")];
    let res = receive_ibc_token(&mut state, &funds, "0".to_string(), 1);
    match res {
        Err(ContractError::NoExternalFunds { denom }) => assert_eq!(denom, "token".to_string()),
        _ => panic!("Unexpected error"),
    }
}

#[test]
fn settlement_slot_is_exclusive() {
    let mut state = fresh("sender");
    state.send_external_tokens_reply_state = Some(IBCTransfer {
        recovery_addr: "sender".to_string(),
        channel_id: "0".to_string(),
        sequence: 1,
        amount: 200,
        denom: "token".to_string(),
        status: PacketLifecycleStatus::SendingExternalTokens,
    });
    let packet = IBCTransfer {
        recovery_addr: "other".to_string(),
        channel_id: "0".to_string(),
        sequence: 2,
        amount: 10,
        denom: "token".to_string(),
        status: PacketLifecycleStatus::AwaitingResponse,
    };
    let res = send_external_tokens(&mut state, packet);
    assert!(matches!(res, Err(ContractError::ContractLocked {})));
}

#[test]
fn external_send_reply_settles_or_stores_recovery() {
    // success: the ledger record is removed entirely
    let mut state = fresh("sender");
    let record = IBCTransfer {
        recovery_addr: "sender".to_string(),
        channel_id: "0".to_string(),
        sequence: 1,
        amount: 200,
        denom: "token".to_string(),
        status: PacketLifecycleStatus::SendingExternalTokens,
    };
    state.inflight_packets.save(IBCTransfer { status: PacketLifecycleStatus::AwaitingResponse, amount: 100, ..record_copy(&record) });
    state.send_external_tokens_reply_state = Some(record_copy(&record));
    let res = handle_send_external_tokens_reply(&mut state, ok_reply(2, vec![1]))
        .expect("settlement reply should succeed");
    assert_eq!(
        res,
        ExternalSettlement::Settled { to_address: "sender".to_string(), amount: 200 }
    );
    assert!(state.inflight_packets.get(&"0".to_string(), 1).is_none());
    assert!(state.send_external_tokens_reply_state.is_none());
    assert!(state.recovery_states.claim(&"sender".to_string()).is_none());

    // failure: the record is removed and exactly one recovery entry appended
    let mut state = fresh("sender");
    state.inflight_packets.save(IBCTransfer { status: PacketLifecycleStatus::AwaitingResponse, amount: 100, ..record_copy(&record) });
    state.send_external_tokens_reply_state = Some(record_copy(&record));
    let failed = Reply { id: 2, result: SubMsgResult::Failure("boom".to_string()) };
    let res = handle_send_external_tokens_reply(&mut state, failed)
        .expect("settlement failure is still handled");
    assert_eq!(res, ExternalSettlement::RecoveryStored { recovery_addr: "sender".to_string() });
    assert!(state.inflight_packets.get(&"0".to_string(), 1).is_none());
    assert_eq!(
        state.recovery_states.claim(&"sender".to_string()),
        Some(vec![IBCTransfer {
            status: PacketLifecycleStatus::SendingExternalTokensFailure,
            ..record_copy(&record)
        }])
    );
}

fn record_copy(r: &IBCTransfer) -> IBCTransfer {
    r.duplicate()
}

#[test]
fn external_send_reply_without_context() {
    let mut state = fresh("sender");
    let res = handle_send_external_tokens_reply(&mut state, ok_reply(2, vec![1]));
    assert!(matches!(res, Err(ContractError::NoExternalTokensInflightPacket)));
}

#[test]
fn timeout_stores_recovery() {
    let mut state = fresh("sender");
    state.inflight_packets.save(IBCTransfer {
        recovery_addr: "sender".to_string(),
        channel_id: "0".to_string(),
        sequence: 1,
        amount: 100,
        denom: "token".to_string(),
        status: PacketLifecycleStatus::Sent,
    });
    let res = receive_timeout(&mut state, "0".to_string(), 1).expect("timeout is handled");
    assert_eq!(res, AckOutcome::RecoveryStored { recovery_addr: "sender".to_string() });
    assert!(state.inflight_packets.get(&"0".to_string(), 1).is_none());
    let entries = state.recovery_states.claim(&"sender".to_string()).unwrap();
    assert_eq!(entries.len(), 1);
    assert_eq!(entries[0].status, PacketLifecycleStatus::TimedOut);
    assert_eq!(entries[0].amount, 100);
}

#[test]
fn ack_for_unknown_packet_fails() {
    let mut state = fresh("sender");
    let res = receive_ack(&mut state, "0".to_string(), 5, "ack".to_string(), true);
    assert!(matches!(res, Err(ContractError::NoInflightPacket { .. })));
}

#[test]
fn create_recovery_appends_in_order() {
    let mut state = fresh("sender");
    let mk = |seq: u64, amount: u128| IBCTransfer {
        recovery_addr: "sender".to_string(),
        channel_id: "0".to_string(),
        sequence: seq,
        amount,
        denom: "token".to_string(),
        status: PacketLifecycleStatus::Sent,
    };
    let addr = create_recovery(&mut state, mk(1, 10), PacketLifecycleStatus::AckFailure);
    assert_eq!(addr, "sender".to_string());
    create_recovery(&mut state, mk(2, 20), PacketLifecycleStatus::TimedOut);
    let entries = state.recovery_states.claim(&"sender".to_string()).unwrap();
    assert_eq!(entries.len(), 2);
    assert_eq!(entries[0].sequence, 1);
    assert_eq!(entries[0].status, PacketLifecycleStatus::AckFailure);
    assert_eq!(entries[1].sequence, 2);
    assert_eq!(entries[1].status, PacketLifecycleStatus::TimedOut);
}

#[test]
fn claim_is_all_or_nothing_once() {
    let mut state = fresh("sender");
    state.recovery_states.append(IBCTransfer {
        recovery_addr: "sender".to_string(),
        channel_id: "0".to_string(),
        sequence: 1,
        amount: 100,
        denom: "token".to_string(),
        status: PacketLifecycleStatus::AckFailure,
    });
    let first = recover(&mut state, "sender".to_string()).expect("first claim succeeds");
    assert_eq!(first.len(), 1);
    let second = recover(&mut state, "sender".to_string());
    assert!(matches!(second, Err(ContractError::NoRecovery {})));
}

#[test]
fn invalid_reply_id_is_rejected() {
    let mut state = fresh("sender");
    let res = reply(&mut state, ok_reply(5, vec![8, 1]));
    match res {
        Err(ContractError::InvalidReplyID { id }) => assert_eq!(id, 5),
        _ => panic!("Unexpected error"),
    }
}

#[test]
fn msg_reply_id_round_trip() {
    assert_eq!(MsgReplyID::TransferIbc.repr(), 1);
    assert_eq!(MsgReplyID::SendAddr.repr(), 2);
    assert_eq!(MsgReplyID::from_repr(1), Some(MsgReplyID::TransferIbc));
    assert_eq!(MsgReplyID::from_repr(2), Some(MsgReplyID::SendAddr));
    assert_eq!(MsgReplyID::from_repr(3), None);
}

#[test]
fn end_to_end_success() {
    let mut state = fresh("owner");
    let funds = vec![Coin::new(100, "token")];

    // the owner sends 50 token with 100 attached
    let res = execute(
        &mut state,
        "contract".to_string(),
        "owner".to_string(),
        &funds,
        ExecuteMsg::SendToken {
            port: "port".to_string(),
            channel: "0".to_string(),
            recipient: "recipient".to_string(),
            amount: Coin::new(50, "token"),
        },
    )
    .expect("send should succeed");
    assert!(matches!(res, ExecuteOutcome::Submitted(_)));

    // the channel confirms with sequence one
    let res = reply(&mut state, ok_reply(1, vec![8, 1])).expect("confirmation should succeed");
    assert!(matches!(res, ReplyOutcome::TransferConfirmed(_)));
    let record = state.inflight_packets.get(&"0".to_string(), 1).unwrap();
    assert_eq!(record.status, PacketLifecycleStatus::Sent);
    assert_eq!(record.amount, 50);
    assert_eq!(record.denom, "token".to_string());

    // a successful ack moves the record on to await the external claim
    sudo(
        &mut state,
        SudoMsg::IBCLifecycleComplete(IBCLifecycleComplete::IBCAck {
            channel: "0".to_string(),
            sequence: 1,
            ack: "acknowledged".to_string(),
            success: true,
        }),
    )
    .expect("ack should succeed");
    assert_eq!(
        state.inflight_packets.get(&"0".to_string(), 1).unwrap().status,
        PacketLifecycleStatus::AwaitingResponse
    );

    // the external claimant attaches exactly twice the recorded amount
    let claim_funds = vec![Coin::new(100, "token")];
    let res = execute(
        &mut state,
        "contract".to_string(),
        "claimant".to_string(),
        &claim_funds,
        ExecuteMsg::ReceiveToken { channel: "0".to_string(), sequence: 1 },
    )
    .expect("claim should succeed");
    assert_eq!(
        res,
        ExecuteOutcome::SettlementIssued(BankSend {
            to_address: "owner".to_string(),
            amount: 100,
            denom: "token".to_string(),
        })
    );

    // the settlement reply settles the transfer completely
    let res = reply(&mut state, ok_reply(2, vec![1])).expect("settlement should succeed");
    assert_eq!(
        res,
        ReplyOutcome::Settlement(ExternalSettlement::Settled {
            to_address: "owner".to_string(),
            amount: 100,
        })
    );
    assert!(state.inflight_packets.get(&"0".to_string(), 1).is_none());
    assert!(state.recovery_states.claim(&"owner".to_string()).is_none());
}

#[test]
fn end_to_end_failure() {
    let mut state = fresh("owner");
    let funds = vec![Coin::new(100, "token")];

    execute(
        &mut state,
        "contract".to_string(),
        "owner".to_string(),
        &funds,
        ExecuteMsg::SendToken {
            port: "port".to_string(),
            channel: "0".to_string(),
            recipient: "recipient".to_string(),
            amount: Coin::new(50, "token"),
        },
    )
    .expect("send should succeed");
    reply(&mut state, ok_reply(1, vec![8, 1])).expect("confirmation should succeed");

    // the ack reports failure: the ledger entry is removed immediately and
    // the owner's recovery list gains exactly one entry
    sudo(
        &mut state,
        SudoMsg::IBCLifecycleComplete(IBCLifecycleComplete::IBCAck {
            channel: "0".to_string(),
            sequence: 1,
            ack: "failed".to_string(),
            success: false,
        }),
    )
    .expect("failed ack is still handled");
    assert!(state.inflight_packets.get(&"0".to_string(), 1).is_none());

    // the owner claims the single refund, then the list is empty
    let res = execute(
        &mut state,
        "contract".to_string(),
        "owner".to_string(),
        &vec![],
        ExecuteMsg::RecoverToken {},
    )
    .expect("recover should succeed");
    assert_eq!(
        res,
        ExecuteOutcome::Refunded(vec![BankSend {
            to_address: "owner".to_string(),
            amount: 50,
            denom: "token".to_string(),
        }])
    );
    let res = execute(
        &mut state,
        "contract".to_string(),
        "owner".to_string(),
        &vec![],
        ExecuteMsg::RecoverToken {},
    );
    assert!(matches!(res, Err(ContractError::NoRecovery {})));
}

#[test]
fn status_names_are_stable() {
    assert_eq!(PacketLifecycleStatus::Sent.as_name(), "Sent".to_string());
    assert_eq!(PacketLifecycleStatus::AwaitingResponse.as_name(), "AwaitingResponse".to_string());
    assert_eq!(
        PacketLifecycleStatus::SendingExternalTokensFailure.as_name(),
        "SendingExternalTokensFailure".to_string()
    );
}
