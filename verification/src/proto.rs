//! Transport-level request and reply payloads.
//!
//! The submit request is handed to the host as plain values; its wire
//! encoding is the host's business.  The confirmation reply, however, decides
//! a controller transition, so its payload grammar is pinned down here and
//! the decoder is verified against it: the payload is the protocol-buffer
//! encoding of a message whose single field, number one, is the assigned
//! sequence number as a base-128 varint.

use vstd::prelude::*;
use crate::msg::Coin;

verus! {

/// The submit-transfer request the controller asks the host to dispatch.
#[derive(Debug, PartialEq, Eq)]
pub struct MsgTransfer {
    pub source_port: String,
    pub source_channel: String,
    pub token: Coin,
    pub sender: String,
    pub receiver: String,
}

/// The decoded confirmation reply: the sequence number the channel assigned
/// to the submitted transfer.
#[derive(Debug, PartialEq, Eq)]
pub struct MsgTransferResponse {
    pub sequence: u64,
}

/// 128 to the power `k`.
pub open spec fn pow128(k: nat) -> nat
    decreases k,
{
    if k == 0 {
        1
    } else {
        128 * pow128((k - 1) as nat)
    }
}

/// A well-formed base-128 varint: one to ten bytes, all but the last with
/// the continuation bit set, and a tenth byte, if any, carrying at most the
/// single bit that still fits in 64 bits.
pub open spec fn is_varint(s: Seq<u8>) -> bool {
    &&& 1 <= s.len() <= 10
    &&& forall|i: int| 0 <= i < s.len() - 1 ==> s[i] >= 128
    &&& s[s.len() - 1] < 128
    &&& s.len() == 10 ==> s[9] <= 1
}

/// The value a varint denotes: seven payload bits per byte, least
/// significant group first.
pub open spec fn varint_value(s: Seq<u8>) -> nat
    decreases s.len(),
{
    if s.len() == 0 {
        0
    } else {
        (s[0] as nat) % 128 + 128 * varint_value(s.drop_first())
    }
}

proof fn lemma_pow128_monotone(a: nat, b: nat)
    requires
        a <= b,
    ensures
        pow128(a) <= pow128(b),
    decreases b,
{
    if a < b {
        lemma_pow128_monotone(a, (b - 1) as nat);
        assert(pow128(b) == 128 * pow128((b - 1) as nat));
    }
}

/// If every byte's payload is below 128 and the last byte's payload is at
/// most `l`, the denoted value is below `(l + 1) * 128^(len-1)`.
proof fn lemma_varint_value_bound(s: Seq<u8>, l: nat)
    requires
        s.len() >= 1,
        (s[s.len() - 1] as nat) % 128 <= l,
    ensures
        varint_value(s) + 1 <= (l + 1) * pow128((s.len() - 1) as nat),
    decreases s.len(),
{
    if s.len() == 1 {
        assert(varint_value(s.drop_first()) == 0);
        assert(varint_value(s) == (s[0] as nat) % 128);
        assert(pow128((s.len() - 1) as nat) == 1);
        assert(varint_value(s) <= l);
        assert(varint_value(s) + 1 <= (l + 1) * pow128((s.len() - 1) as nat)) by (nonlinear_arith)
            requires
                varint_value(s) <= l,
                pow128((s.len() - 1) as nat) == 1,
        ;
    } else {
        let rest = s.drop_first();
        assert(rest[rest.len() - 1] == s[s.len() - 1]);
        lemma_varint_value_bound(rest, l);
        let p = pow128((rest.len() - 1) as nat);
        lemma_pow128_pos((rest.len() - 1) as nat);
        assert(pow128((s.len() - 1) as nat) == 128 * p);
        let q = (l + 1) * p;
        assert(q >= 1 && 128 * q == (l + 1) * (128 * p)) by (nonlinear_arith)
            requires
                q == (l + 1) * p,
                p >= 1,
        ;
        assert(varint_value(rest) <= q - 1);
        assert(128 * varint_value(rest) <= 128 * (q - 1)) by (nonlinear_arith)
            requires
                varint_value(rest) <= q - 1,
        ;
        assert((s[0] as nat) % 128 < 128);
        assert(varint_value(s) == (s[0] as nat) % 128 + 128 * varint_value(rest));
        assert(varint_value(s) + 1 <= 128 + 128 * (q - 1));
        assert(128 + 128 * (q - 1) == 128 * q);
        assert(varint_value(s) + 1 <= (l + 1) * (128 * p));
        assert(varint_value(s) + 1 <= (l + 1) * pow128((s.len() - 1) as nat));
    }
}

proof fn lemma_pow128_pos(k: nat)
    ensures
        pow128(k) >= 1,
    decreases k,
{
    if k > 0 {
        lemma_pow128_pos((k - 1) as nat);
    }
}

proof fn lemma_pow128_values()
    ensures
        pow128(8) == 0x100000000000000,
        pow128(9) == 0x8000000000000000,
{
    assert(pow128(0) == 1);
    assert(pow128(1) == 128 * pow128(0));
    assert(pow128(2) == 128 * pow128(1));
    assert(pow128(3) == 128 * pow128(2));
    assert(pow128(4) == 128 * pow128(3));
    assert(pow128(5) == 128 * pow128(4));
    assert(pow128(6) == 128 * pow128(5));
    assert(pow128(7) == 128 * pow128(6));
    assert(pow128(8) == 128 * pow128(7));
    assert(pow128(9) == 128 * pow128(8));
}

/// A well-formed varint denotes a value that fits in 64 bits.
proof fn lemma_varint_fits(s: Seq<u8>)
    requires
        is_varint(s),
    ensures
        varint_value(s) < 0x10000000000000000,
{
    lemma_pow128_values();
    if s.len() == 10 {
        lemma_varint_value_bound(s, 1);
    } else {
        lemma_varint_value_bound(s, 127);
        lemma_pow128_monotone((s.len() - 1) as nat, 8);
        assert(varint_value(s) + 1 <= 128 * pow128((s.len() - 1) as nat));
        assert(128 * pow128((s.len() - 1) as nat) <= 128 * pow128(8)) by (nonlinear_arith)
            requires
                pow128((s.len() - 1) as nat) <= pow128(8),
        ;
    }
}

/// What a confirmation payload denotes, if anything: an empty payload
/// denotes the default sequence zero, and otherwise the payload must be the
/// field-one tag followed by exactly one well-formed varint.
pub open spec fn transfer_response_value(b: Seq<u8>) -> Option<u64> {
    if b.len() == 0 {
        Some(0u64)
    } else if b[0] == 8 && is_varint(b.drop_first()) {
        Some(varint_value(b.drop_first()) as u64)
    } else {
        None
    }
}

/// Decodes a confirmation payload; `None` exactly when the payload is not
/// decodable as a sequence-number message.
pub fn decode_transfer_response(data: &Vec<u8>) -> (r: Option<MsgTransferResponse>)
    ensures
        match r {
            Some(m) => transfer_response_value(data@) == Some(m.sequence),
            None => transfer_response_value(data@) is None,
        },
{
    let n = data.len();
    if n == 0 {
        return Some(MsgTransferResponse { sequence: 0 });
    }
    if data[0] != 8 {
        return None;
    }
    let ghost s = data@.drop_first();
    proof {
        assert(s =~= data@.subrange(1, n as int));
    }
    if n == 1 || n - 1 > 10 {
        return None;
    }
    if data[n - 1] >= 128 {
        proof {
            assert(s[s.len() - 1] == data@[n - 1]);
        }
        return None;
    }
    for i in 1..n - 1
        invariant
            2 <= n == data@.len(),
            forall|j: int| 1 <= j < i ==> data@[j] >= 128,
    {
        if data[i] < 128 {
            proof {
                let s2 = data@.drop_first();
                assert(s2 =~= data@.subrange(1, n as int));
                assert(s2[i - 1] == data@[i as int]);
                assert(!is_varint(s2));
            }
            return None;
        }
    }
    if n - 1 == 10 && data[10] > 1 {
        proof {
            assert(s[9] == data@[10]);
        }
        return None;
    }
    proof {
        assert forall|j: int| 0 <= j < s.len() - 1 implies s[j] >= 128 by {
            assert(s[j] == data@[j + 1]);
        }
        assert(s[s.len() - 1] == data@[n - 1]);
        assert(is_varint(s));
    }
    let mut i: usize = n;
    let mut val: u64 = 0;
    while i > 1
        invariant
            1 <= i <= n == data@.len(),
            2 <= n,
            data@[0] == 8,
            is_varint(s),
            s == data@.drop_first(),
            val == varint_value(data@.subrange(i as int, n as int)),
        decreases i,
    {
        i = i - 1;
        let limb = data[i] % 128;
        proof {
            let suffix = data@.subrange(i as int, n as int);
            assert(suffix.drop_first() =~= data@.subrange(i as int + 1, n as int));
            assert(suffix[0] == data@[i as int]);
            assert(varint_value(suffix) == (data@[i as int] as nat) % 128 + 128 * varint_value(
                data@.subrange(i as int + 1, n as int),
            ));
            // the suffix of a well-formed varint is itself well formed, so its
            // value fits in 64 bits
            assert forall|j: int| 0 <= j < suffix.len() - 1 implies suffix[j] >= 128 by {
                assert(suffix[j] == s[j + i - 1]);
            }
            assert(suffix[suffix.len() - 1] == s[s.len() - 1]);
            if suffix.len() == 10 {
                assert(suffix[9] == s[9]);
            }
            assert(is_varint(suffix));
            lemma_varint_fits(suffix);
        }
        val = val * 128 + limb as u64;
    }
    proof {
        assert(data@.subrange(1, n as int) =~= s);
    }
    Some(MsgTransferResponse { sequence: val })
}

} // verus!
