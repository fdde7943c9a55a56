//! Durable state of the lifecycle controller.
//!
//! The controller owns a config singleton, three alias registries, two
//! single-slot pending contexts, the in-flight packet ledger and the per-owner
//! recovery ledger.  The packet ledger is keyed by `(channel_id, sequence)`
//! and is modelled as a `Map` over those keys; the recovery ledger maps an
//! owner to the ordered list of refund obligations.

use vstd::prelude::*;
use vstd::hash_map::StringHashMap;

verus! {

/// Config singleton: the identity allowed to update the alias registries.
pub struct Config {
    pub owner: String,
}

/// Single-slot record correlating an initiated outbound send with its later
/// asynchronous confirmation.  Its presence doubles as a mutual-exclusion
/// lock for `transfer_ibc_token`.
#[derive(Debug, PartialEq, Eq)]
pub struct TransferMsgReplyState {
    pub channel_id: String,
    pub to_address: String,
    pub amount: u128,
    pub denom: String,
    pub sender: String,
}

/// Lifecycle states of a tracked transfer packet.
///
/// `AckSuccess` is declared but unreached: a successful acknowledgment
/// routes to `AwaitingResponse` instead.
#[derive(Clone, Copy, Debug, PartialEq, Eq, Structural)]
pub enum PacketLifecycleStatus {
    Sent,
    AckSuccess,
    AckFailure,
    TimedOut,
    AwaitingResponse,
    SendingExternalTokens,
    SendingExternalTokensFailure,
}

impl PacketLifecycleStatus {
    /// The status's display name.
    pub open spec fn name_spec(self) -> Seq<char> {
        match self {
            PacketLifecycleStatus::Sent => "Sent"@,
            PacketLifecycleStatus::AckSuccess => "AckSuccess"@,
            PacketLifecycleStatus::AckFailure => "AckFailure"@,
            PacketLifecycleStatus::TimedOut => "TimedOut"@,
            PacketLifecycleStatus::AwaitingResponse => "AwaitingResponse"@,
            PacketLifecycleStatus::SendingExternalTokens => "SendingExternalTokens"@,
            PacketLifecycleStatus::SendingExternalTokensFailure => "SendingExternalTokensFailure"@,
        }
    }

    /// The status's display name.
    pub fn as_name(&self) -> (r: String)
        ensures
            r@ == self.name_spec(),
    {
        match self {
            PacketLifecycleStatus::Sent => "Sent".to_owned(),
            PacketLifecycleStatus::AckSuccess => "AckSuccess".to_owned(),
            PacketLifecycleStatus::AckFailure => "AckFailure".to_owned(),
            PacketLifecycleStatus::TimedOut => "TimedOut".to_owned(),
            PacketLifecycleStatus::AwaitingResponse => "AwaitingResponse".to_owned(),
            PacketLifecycleStatus::SendingExternalTokens => "SendingExternalTokens".to_owned(),
            PacketLifecycleStatus::SendingExternalTokensFailure => {
                "SendingExternalTokensFailure".to_owned()
            },
        }
    }
}

/// A transfer packet sent by this contract that is expected to be received
/// but needs to be tracked in case the receive fails or times out.
#[derive(Debug, PartialEq, Eq)]
pub struct IBCTransfer {
    pub recovery_addr: String,
    pub channel_id: String,
    pub sequence: u64,
    pub amount: u128,
    pub denom: String,
    pub status: PacketLifecycleStatus,
}

impl IBCTransfer {
    /// An owned copy that is equal, field for field, to the original.
    pub fn duplicate(&self) -> (r: IBCTransfer)
        ensures
            r == *self,
    {
        IBCTransfer {
            recovery_addr: self.recovery_addr.clone(),
            channel_id: self.channel_id.clone(),
            sequence: self.sequence,
            amount: self.amount,
            denom: self.denom.clone(),
            status: self.status,
        }
    }
}

/// The same record, tagged with another lifecycle status.
pub open spec fn with_status(t: IBCTransfer, status: PacketLifecycleStatus) -> IBCTransfer {
    IBCTransfer { status, ..t }
}

/// The recovery map after appending `rec` to its owner's list, creating the
/// list if the owner had none.
pub open spec fn recovery_with(
    m: Map<Seq<char>, Seq<IBCTransfer>>,
    rec: IBCTransfer,
) -> Map<Seq<char>, Seq<IBCTransfer>> {
    m.insert(
        rec.recovery_addr@,
        if m.contains_key(rec.recovery_addr@) {
            m[rec.recovery_addr@].push(rec)
        } else {
            seq![rec]
        },
    )
}

/// The ledger key of a tracked packet: its source channel and sequence.
pub open spec fn transfer_key(t: IBCTransfer) -> (Seq<char>, u64) {
    (t.channel_id@, t.sequence)
}

/// Whether some entry of `s` carries the key `k`.
pub open spec fn ledger_has_key(s: Seq<IBCTransfer>, k: (Seq<char>, u64)) -> bool {
    exists|i: int| 0 <= i < s.len() && transfer_key(s[i]) == k
}

/// The index of the entry of `s` carrying the key `k`.
pub open spec fn ledger_index_of(s: Seq<IBCTransfer>, k: (Seq<char>, u64)) -> int {
    choose|i: int| 0 <= i < s.len() && transfer_key(s[i]) == k
}

/// The map each association list denotes.
pub open spec fn ledger_map(s: Seq<IBCTransfer>) -> Map<(Seq<char>, u64), IBCTransfer> {
    Map::new(|k: (Seq<char>, u64)| ledger_has_key(s, k), |k: (Seq<char>, u64)| s[ledger_index_of(s, k)])
}

/// Pairwise distinct keys.
pub open spec fn ledger_keys_unique(s: Seq<IBCTransfer>) -> bool {
    forall|i: int, j: int|
        0 <= i < s.len() && 0 <= j < s.len() && i != j ==> transfer_key(s[i]) != transfer_key(s[j])
}

/// In a list with distinct keys, the entry at `i` is what the denoted map
/// holds at its key.
proof fn lemma_ledger_map_at(s: Seq<IBCTransfer>, i: int)
    requires
        ledger_keys_unique(s),
        0 <= i < s.len(),
    ensures
        ledger_map(s).contains_key(transfer_key(s[i])),
        ledger_map(s)[transfer_key(s[i])] == s[i],
{
    let k = transfer_key(s[i]);
    assert(ledger_has_key(s, k));
    let j = ledger_index_of(s, k);
    assert(0 <= j < s.len() && transfer_key(s[j]) == k);
    assert(j == i);
}

/// Appending an entry whose key is fresh denotes inserting it.
proof fn lemma_ledger_push(s: Seq<IBCTransfer>, r: IBCTransfer)
    requires
        ledger_keys_unique(s),
        forall|j: int| 0 <= j < s.len() ==> transfer_key(s[j]) != transfer_key(r),
    ensures
        ledger_keys_unique(s.push(r)),
        ledger_map(s.push(r)) == ledger_map(s).insert(transfer_key(r), r),
{
    let s2 = s.push(r);
    let k = transfer_key(r);
    assert(s2[s.len() as int] == r);
    assert forall|i: int, j: int|
        0 <= i < s2.len() && 0 <= j < s2.len() && i != j implies transfer_key(s2[i])
        != transfer_key(s2[j]) by {
        if i < s.len() && j < s.len() {
            assert(transfer_key(s[i]) != transfer_key(s[j]));
        }
    }
    assert forall|k2: (Seq<char>, u64)| #[trigger] ledger_map(s2).contains_key(k2) implies ledger_map(
        s,
    ).insert(k, r).contains_key(k2) by {
        let i = ledger_index_of(s2, k2);
        assert(0 <= i < s2.len() && transfer_key(s2[i]) == k2);
        if i < s.len() {
            assert(ledger_has_key(s, k2));
        }
    }
    assert forall|k2: (Seq<char>, u64)| #[trigger] ledger_map(s).insert(k, r).contains_key(
        k2,
    ) implies ledger_map(s2).contains_key(k2) && ledger_map(s2)[k2] == ledger_map(s).insert(k, r)[k2]
        by {
        if k2 == k {
            lemma_ledger_map_at(s2, s.len() as int);
        } else {
            let i = ledger_index_of(s, k2);
            assert(0 <= i < s.len() && transfer_key(s[i]) == k2);
            lemma_ledger_map_at(s, i);
            lemma_ledger_map_at(s2, i);
        }
    }
    assert(ledger_map(s2) =~= ledger_map(s).insert(k, r));
}

/// Removing the entry at `i` denotes removing its key.
proof fn lemma_ledger_remove(s: Seq<IBCTransfer>, i: int)
    requires
        ledger_keys_unique(s),
        0 <= i < s.len(),
    ensures
        ledger_keys_unique(s.remove(i)),
        ledger_map(s.remove(i)) == ledger_map(s).remove(transfer_key(s[i])),
        !ledger_has_key(s.remove(i), transfer_key(s[i])),
{
    let s2 = s.remove(i);
    let k = transfer_key(s[i]);
    // each index of s2 corresponds to an index of s other than i
    assert forall|j: int| 0 <= j < s2.len() implies s2[j] == s[if j < i {
        j
    } else {
        j + 1
    }] by {}
    assert forall|p: int, q: int|
        0 <= p < s2.len() && 0 <= q < s2.len() && p != q implies transfer_key(s2[p])
        != transfer_key(s2[q]) by {
        let p1 = if p < i { p } else { p + 1 };
        let q1 = if q < i { q } else { q + 1 };
        assert(transfer_key(s[p1]) != transfer_key(s[q1]));
    }
    assert forall|j: int| 0 <= j < s2.len() implies transfer_key(s2[j]) != k by {
        let j1 = if j < i { j } else { j + 1 };
        assert(transfer_key(s[j1]) != transfer_key(s[i]));
    }
    assert forall|k2: (Seq<char>, u64)| #[trigger] ledger_map(s2).contains_key(k2) implies ledger_map(
        s,
    ).remove(k).contains_key(k2) && ledger_map(s2)[k2] == ledger_map(s).remove(k)[k2] by {
        let j = ledger_index_of(s2, k2);
        assert(0 <= j < s2.len() && transfer_key(s2[j]) == k2);
        let j1 = if j < i { j } else { j + 1 };
        assert(transfer_key(s[j1]) == k2);
        assert(k2 != k);
        assert(ledger_has_key(s, k2));
        lemma_ledger_map_at(s, j1);
        lemma_ledger_map_at(s2, j);
    }
    assert forall|k2: (Seq<char>, u64)| #[trigger] ledger_map(s).remove(k).contains_key(
        k2,
    ) implies ledger_map(s2).contains_key(k2) by {
        let j = ledger_index_of(s, k2);
        assert(0 <= j < s.len() && transfer_key(s[j]) == k2);
        assert(k2 != k);
        assert(j != i);
        let j2 = if j < i { j } else { j - 1 };
        assert(s2[j2] == s[j]);
        assert(ledger_has_key(s2, k2));
    }
    assert(ledger_map(s2) =~= ledger_map(s).remove(k));
}

/// In-flight packets by `(source_channel_id, sequence)`: one transfer record
/// per in-flight or settled-pending transfer.  Insertion is last-write-wins
/// at a given key; removal of an absent key is not an error.
pub struct PacketLedger {
    entries: Vec<IBCTransfer>,
}

impl View for PacketLedger {
    type V = Map<(Seq<char>, u64), IBCTransfer>;

    closed spec fn view(&self) -> Self::V {
        ledger_map(self.entries@)
    }
}

impl PacketLedger {
    /// Keys are pairwise distinct, so each key denotes one record.
    pub closed spec fn wf(self) -> bool {
        ledger_keys_unique(self.entries@)
    }

    /// An empty ledger.
    pub fn new() -> (l: PacketLedger)
        ensures
            l.wf(),
            l@ == Map::<(Seq<char>, u64), IBCTransfer>::empty(),
    {
        let l = PacketLedger { entries: Vec::new() };
        proof {
            assert(l@ =~= Map::<(Seq<char>, u64), IBCTransfer>::empty());
        }
        l
    }

    fn find_index(&self, channel: &String, sequence: u64) -> (r: Option<usize>)
        ensures
            match r {
                Some(i) => i < self.entries@.len() && transfer_key(self.entries@[i as int]) == (
                    channel@,
                    sequence,
                ),
                None => !ledger_has_key(self.entries@, (channel@, sequence)),
            },
    {
        let n = self.entries.len();
        for i in 0..n
            invariant
                n == self.entries@.len(),
                forall|j: int| 0 <= j < i ==> transfer_key(self.entries@[j]) != (channel@, sequence),
        {
            if self.entries[i].sequence == sequence && self.entries[i].channel_id == *channel {
                return Some(i);
            }
        }
        None
    }

    /// The record at `(channel, sequence)`, if one is tracked.
    pub fn get(&self, channel: &String, sequence: u64) -> (r: Option<&IBCTransfer>)
        requires
            self.wf(),
        ensures
            match r {
                Some(t) => self@.contains_key((channel@, sequence)) && *t == self@[(
                    channel@,
                    sequence,
                )] && t.channel_id@ == channel@ && t.sequence == sequence,
                None => !self@.contains_key((channel@, sequence)),
            },
    {
        match self.find_index(channel, sequence) {
            Some(i) => {
                proof {
                    lemma_ledger_map_at(self.entries@, i as int);
                }
                Some(&self.entries[i])
            },
            None => {
                proof {
                    assert(!self@.contains_key((channel@, sequence)));
                }
                None
            },
        }
    }

    /// Inserts or overwrites the record at its own key.
    pub fn save(&mut self, record: IBCTransfer)
        requires
            old(self).wf(),
        ensures
            final(self).wf(),
            final(self)@ == old(self)@.insert((record.channel_id@, record.sequence), record),
    {
        let ghost k = transfer_key(record);
        match self.find_index(&record.channel_id, record.sequence) {
            Some(i) => {
                let ghost s0 = self.entries@;
                proof {
                    lemma_ledger_remove(s0, i as int);
                }
                self.entries.remove(i);
                let ghost s1 = self.entries@;
                proof {
                    lemma_ledger_push(s1, record);
                }
                self.entries.push(record);
                proof {
                    assert(ledger_map(s1) == ledger_map(s0).remove(k));
                    assert(final(self)@ =~= old(self)@.insert(k, record));
                }
            },
            None => {
                proof {
                    lemma_ledger_push(self.entries@, record);
                }
                self.entries.push(record);
            },
        }
    }

    /// Removes the record at `(channel, sequence)`; absence is not an error.
    pub fn remove(&mut self, channel: &String, sequence: u64)
        requires
            old(self).wf(),
        ensures
            final(self).wf(),
            final(self)@ == old(self)@.remove((channel@, sequence)),
    {
        match self.find_index(channel, sequence) {
            Some(i) => {
                proof {
                    lemma_ledger_remove(self.entries@, i as int);
                }
                self.entries.remove(i);
            },
            None => {
                proof {
                    assert(!old(self)@.contains_key((channel@, sequence)));
                    assert(final(self)@ =~= old(self)@.remove((channel@, sequence)));
                }
            },
        }
    }
}

/// Returns an owned copy of a record list, equal element for element.
pub fn copy_records(v: &Vec<IBCTransfer>) -> (r: Vec<IBCTransfer>)
    ensures
        r@ == v@,
{
    let mut r: Vec<IBCTransfer> = Vec::new();
    let n = v.len();
    for i in 0..n
        invariant
            n == v@.len(),
            r@ =~= v@.subrange(0, i as int),
    {
        r.push(v[i].duplicate());
    }
    proof {
        assert(r@ =~= v@);
    }
    r
}

/// Refund obligations by owner, each an ordered, append-only list drained
/// wholesale when the owner claims.
pub struct RecoveryLedger {
    m: StringHashMap<Vec<IBCTransfer>>,
}

impl View for RecoveryLedger {
    type V = Map<Seq<char>, Seq<IBCTransfer>>;

    closed spec fn view(&self) -> Self::V {
        self.m@.map_values(|v: Vec<IBCTransfer>| v@)
    }
}

impl RecoveryLedger {
    /// An empty ledger.
    pub fn new() -> (l: RecoveryLedger)
        ensures
            l@ == Map::<Seq<char>, Seq<IBCTransfer>>::empty(),
    {
        let l = RecoveryLedger { m: StringHashMap::new() };
        proof {
            assert(l@ =~= Map::<Seq<char>, Seq<IBCTransfer>>::empty());
        }
        l
    }

    /// Appends `record` to the list of its own `recovery_addr`, creating the
    /// list if the owner has none yet.
    pub fn append(&mut self, record: IBCTransfer)
        ensures
            final(self)@ == old(self)@.insert(
                record.recovery_addr@,
                if old(self)@.contains_key(record.recovery_addr@) {
                    old(self)@[record.recovery_addr@].push(record)
                } else {
                    seq![record]
                },
            ),
    {
        let key = record.recovery_addr.clone();
        let mut list: Vec<IBCTransfer> = match self.m.get(key.as_str()) {
            Some(existing) => copy_records(existing),
            None => Vec::new(),
        };
        list.push(record);
        self.m.insert(key, list);
        proof {
            assert(final(self)@ =~= old(self)@.insert(
                record.recovery_addr@,
                if old(self)@.contains_key(record.recovery_addr@) {
                    old(self)@[record.recovery_addr@].push(record)
                } else {
                    seq![record]
                },
            ));
        }
    }

    /// An owned copy of the owner's list; `None` if the owner has no refund
    /// obligations.
    pub fn get(&self, owner: &String) -> (r: Option<Vec<IBCTransfer>>)
        ensures
            match r {
                Some(v) => self@.contains_key(owner@) && v@ == self@[owner@],
                None => !self@.contains_key(owner@),
            },
    {
        match self.m.get(owner.as_str()) {
            Some(existing) => Some(copy_records(existing)),
            None => None,
        }
    }

    /// Loads and removes the owner's full list atomically; `None` if the
    /// owner has no refund obligations.
    pub fn claim(&mut self, owner: &String) -> (r: Option<Vec<IBCTransfer>>)
        ensures
            match r {
                Some(v) => old(self)@.contains_key(owner@) && v@ == old(self)@[owner@]
                    && final(self)@ == old(self)@.remove(owner@),
                None => !old(self)@.contains_key(owner@) && *final(self) == *old(self),
            },
    {
        let list: Vec<IBCTransfer> = match self.m.get(owner.as_str()) {
            Some(existing) => copy_records(existing),
            None => {
                return None;
            },
        };
        self.m.remove(owner.as_str());
        proof {
            assert(final(self)@ =~= old(self)@.remove(owner@));
        }
        Some(list)
    }
}

/// The alias both registries fall back to when a lookup misses.
pub open spec fn default_alias() -> Seq<char> {
    "default"@
}

/// The whole durable state of the lifecycle controller.
pub struct ContractState {
    /// Config singleton holding the registry owner's identity.
    pub config: Option<Config>,
    /// Alias registry for recipient addresses.
    pub external_addresses: StringHashMap<String>,
    /// Alias registry for source ports.
    pub ports: StringHashMap<String>,
    /// Alias registry for source channels.
    pub channels: StringHashMap<u32>,
    /// Pending-send context slot, present between an initiated send and its
    /// confirmation.
    pub transfer_reply_state: Option<TransferMsgReplyState>,
    /// Pending settlement context slot, present between a settlement payment
    /// and its confirmation.
    pub send_external_tokens_reply_state: Option<IBCTransfer>,
    /// In-flight packet ledger.
    pub inflight_packets: PacketLedger,
    /// Per-owner recovery ledger.
    pub recovery_states: RecoveryLedger,
}

impl ContractState {
    /// Instantiation establishes this and every transition preserves it: the
    /// config singleton is set, each registry resolves the fallback alias,
    /// and the packet ledger keys are distinct.
    pub open spec fn wf(self) -> bool {
        &&& self.config is Some
        &&& self.external_addresses@.contains_key(default_alias())
        &&& self.ports@.contains_key(default_alias())
        &&& self.channels@.contains_key(default_alias())
        &&& self.inflight_packets.wf()
    }
}

} // verus!
