//! Identifiers for sub-message replies and named protocol constants.

use vstd::prelude::*;

verus! {

/// An external claim must attach at least this multiple of the recorded
/// amount.  A fixed collateralization rule; kept as a named constant.
pub const EXTERNAL_CLAIM_COLLATERAL_FACTOR: u128 = 2;

/// Identifies which outstanding request a host reply answers.
#[derive(Clone, Copy, Debug, PartialEq, Eq, Structural)]
pub enum MsgReplyID {
    TransferIbc,
    SendAddr,
}

impl MsgReplyID {
    /// The wire identifier of this reply kind.
    pub open spec fn repr_spec(self) -> u64 {
        match self {
            MsgReplyID::TransferIbc => 1,
            MsgReplyID::SendAddr => 2,
        }
    }

    /// The wire identifier of this reply kind.
    pub fn repr(&self) -> (r: u64)
        ensures
            r == self.repr_spec(),
    {
        match self {
            MsgReplyID::TransferIbc => 1,
            MsgReplyID::SendAddr => 2,
        }
    }

    /// The reply kind a wire identifier names, if any.
    pub fn from_repr(id: u64) -> (r: Option<MsgReplyID>)
        ensures
            r == if id == 1 {
                Some(MsgReplyID::TransferIbc)
            } else if id == 2 {
                Some(MsgReplyID::SendAddr)
            } else {
                None::<MsgReplyID>
            },
    {
        if id == 1 {
            Some(MsgReplyID::TransferIbc)
        } else if id == 2 {
            Some(MsgReplyID::SendAddr)
        } else {
            None
        }
    }
}

} // verus!
