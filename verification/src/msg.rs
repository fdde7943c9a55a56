//! Messages at the controller's boundary: what callers hand in and what the
//! controller asks the host to dispatch.

use vstd::prelude::*;

verus! {

/// An amount of a single fungible asset.
#[derive(Debug, PartialEq, Eq)]
pub struct Coin {
    pub denom: String,
    pub amount: u128,
}

impl Coin {
    /// A coin of `amount` units of `denom`.
    pub fn new(amount: u128, denom: &str) -> (c: Coin)
        ensures
            c.amount == amount,
            c.denom@ == denom@,
    {
        Coin { denom: denom.to_owned(), amount }
    }
}

/// A payment the host is asked to dispatch: send `amount` of `denom` to
/// `to_address`.
#[derive(Debug, PartialEq, Eq)]
pub struct BankSend {
    pub to_address: String,
    pub amount: u128,
    pub denom: String,
}

/// Instantiation carries no parameters; the instantiating sender becomes the
/// registry owner.
#[derive(Debug, PartialEq, Eq)]
pub struct InstantiateMsg {}

/// The caller-facing operations of the controller.
#[derive(Debug, PartialEq, Eq)]
pub enum ExecuteMsg {
    SendToken { port: String, channel: String, recipient: String, amount: Coin },
    ReceiveToken {
        /// Channel id of the initial transfer.
        channel: String,
        /// Sequence number of the packet.
        sequence: u64,
    },
    /// Recover tokens that were sent but never received.
    RecoverToken {},
    AddExternalAddress { alias: String, address: String },
    AddPort { alias: String, port: String },
    AddChannel { alias: String, channel_id: u32 },
}

/// Completion events delivered by the messaging layer.
#[derive(Debug, PartialEq, Eq)]
pub enum IBCLifecycleComplete {
    IBCAck {
        /// The source channel of the packet.
        channel: String,
        /// The sequence number that the packet was sent with.
        sequence: u64,
        /// String-encoded acknowledgment as seen by the channel.
        ack: String,
        /// Whether the acknowledgment reports success.
        success: bool,
    },
    IBCTimeout {
        /// The source channel of the packet.
        channel: String,
        /// The sequence number that the packet was sent with.
        sequence: u64,
    },
}

/// Events delivered through the host's privileged entry point.
#[derive(Debug, PartialEq, Eq)]
pub enum SudoMsg {
    IBCLifecycleComplete(IBCLifecycleComplete),
}

/// What a finished sub-message came back with.
#[derive(Debug, PartialEq, Eq)]
pub struct SubMsgResponse {
    pub data: Option<Vec<u8>>,
}

/// Outcome of a dispatched sub-message.
#[derive(Debug, PartialEq, Eq)]
pub enum SubMsgResult {
    Success(SubMsgResponse),
    Failure(String),
}

/// A host reply answering the outstanding request named by `id`.
#[derive(Debug, PartialEq, Eq)]
pub struct Reply {
    pub id: u64,
    pub result: SubMsgResult,
}

} // verus!
