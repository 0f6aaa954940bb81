use vstd::prelude::*;
use crate::state::keys_equal;

verus! {

/// The globally unique identity of a cross-chain message.
#[derive(Debug, Clone, Copy)]
pub struct MessageId {
    pub emitter_chain: u16,
    pub emitter_address: [u8; 32],
    pub sequence: u64,
}

/// Where a message stands in the registry.
#[derive(Debug, Clone, Copy, PartialEq, Eq, Structural)]
pub enum BridgeStatus {
    Pending,
    Completed,
}

/// One registry entry: a message identity, its status, and a copy of the
/// payload that was applied.
#[derive(Debug, Clone)]
pub struct BridgeRequest {
    pub id: MessageId,
    pub status: BridgeStatus,
    pub payload: Vec<u8>,
}

/// The record of the messages that were already applied.
#[derive(Debug, Clone)]
pub struct Registry {
    pub entries: Vec<BridgeRequest>,
}

/// Two identities name the same message.
pub open spec fn same_id(a: MessageId, b: MessageId) -> bool {
    &&& a.emitter_chain == b.emitter_chain
    &&& a.emitter_address@ == b.emitter_address@
    &&& a.sequence == b.sequence
}

/// The message `id` has been applied according to `entries`.
pub open spec fn completed_in(entries: Seq<BridgeRequest>, id: MessageId) -> bool {
    exists|i: int|
        0 <= i < entries.len() && #[trigger] same_id(entries[i].id, id) && entries[i].status
            == BridgeStatus::Completed
}

/// Whether a message was applied depends on its identity alone.
pub proof fn lemma_completed_same_id(entries: Seq<BridgeRequest>, a: MessageId, b: MessageId)
    requires
        same_id(a, b),
        completed_in(entries, a),
    ensures
        completed_in(entries, b),
{
    let k = choose|k: int|
        0 <= k < entries.len() && #[trigger] same_id(entries[k].id, a) && entries[k].status
            == BridgeStatus::Completed;
    assert(same_id(entries[k].id, b));
}

fn ids_equal(a: &MessageId, b: &MessageId) -> (r: bool)
    ensures
        r == same_id(*a, *b),
{
    a.emitter_chain == b.emitter_chain && a.sequence == b.sequence && keys_equal(
        &a.emitter_address,
        &b.emitter_address,
    )
}

impl Registry {
    /// The registry with no entries.
    pub fn new() -> (r: Registry)
        ensures
            r.entries@.len() == 0,
    {
        Registry { entries: Vec::new() }
    }

    /// The message `id` has been applied.
    pub open spec fn completed(&self, id: MessageId) -> bool {
        completed_in(self.entries@, id)
    }

    /// Whether the message `id` has been applied.
    pub fn is_processed(&self, id: &MessageId) -> (r: bool)
        ensures
            r == self.completed(*id),
    {
        let mut i: usize = 0;
        while i < self.entries.len()
            invariant
                0 <= i <= self.entries@.len(),
                forall|j: int|
                    0 <= j < i ==> !(#[trigger] same_id(self.entries@[j].id, *id)
                        && self.entries@[j].status == BridgeStatus::Completed),
            decreases self.entries@.len() - i,
        {
            if ids_equal(&self.entries[i].id, id) && self.entries[i].status
                == BridgeStatus::Completed {
                return true;
            }
            i = i + 1;
        }
        false
    }

    /// Marks the message `id` as applied, keeping `payload` for audit. No
    /// other message changes status.
    pub fn commit(&mut self, id: MessageId, payload: Vec<u8>)
        ensures
            final(self).completed(id),
            forall|other: MessageId|
                !same_id(other, id) ==> (#[trigger] final(self).completed(other) == old(
                    self,
                ).completed(other)),
    {
        let ghost before = self.entries@;
        let mut i: usize = 0;
        while i < self.entries.len()
            invariant
                0 <= i <= self.entries@.len(),
                self.entries@ == before,
                before == old(self).entries@,
                forall|j: int| 0 <= j < i ==> !(#[trigger] same_id(self.entries@[j].id, id)),
            decreases self.entries@.len() - i,
        {
            if ids_equal(&self.entries[i].id, &id) {
                assert(same_id(before[i as int].id, id));
                let entry = BridgeRequest { id, status: BridgeStatus::Completed, payload };
                self.entries.set(i, entry);
                assert(same_id(self.entries@[i as int].id, id));
                assert forall|other: MessageId| !same_id(other, id) implies (#[trigger] completed_in(
                    self.entries@,
                    other,
                ) == completed_in(before, other)) by {
                    if completed_in(before, other) {
                        let k = choose|k: int|
                            0 <= k < before.len() && #[trigger] same_id(before[k].id, other)
                                && before[k].status == BridgeStatus::Completed;
                        assert(k != i);
                        assert(same_id(self.entries@[k].id, other));
                    }
                    if completed_in(self.entries@, other) {
                        let k = choose|k: int|
                            0 <= k < self.entries@.len() && #[trigger] same_id(
                                self.entries@[k].id,
                                other,
                            ) && self.entries@[k].status == BridgeStatus::Completed;
                        assert(k != i);
                        assert(same_id(before[k].id, other));
                    }
                }
                return;
            }
            i = i + 1;
        }
        let entry = BridgeRequest { id, status: BridgeStatus::Completed, payload };
        self.entries.push(entry);
        assert(same_id(self.entries@[before.len() as int].id, id));
        assert forall|other: MessageId| !same_id(other, id) implies (#[trigger] completed_in(
            self.entries@,
            other,
        ) == completed_in(before, other)) by {
            if completed_in(before, other) {
                let k = choose|k: int|
                    0 <= k < before.len() && #[trigger] same_id(before[k].id, other)
                        && before[k].status == BridgeStatus::Completed;
                assert(same_id(self.entries@[k].id, other));
            }
            if completed_in(self.entries@, other) {
                let k = choose|k: int|
                    0 <= k < self.entries@.len() && #[trigger] same_id(self.entries@[k].id, other)
                        && self.entries@[k].status == BridgeStatus::Completed;
                assert(k != before.len());
                assert(same_id(before[k].id, other));
            }
        }
    }
}

} // verus!
