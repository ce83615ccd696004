use vstd::prelude::*;
use crate::types::{Address, Word};

verus! {

/// The storage slots that one phase touched at one address, in order.
#[derive(Clone, Debug, PartialEq, Eq)]
pub struct StorageAccess {
    pub address: Address,
    pub slots: Vec<Word>,
}

/// What the tracer recorded for one phase of the traced call.
#[derive(Clone, Debug, PartialEq, Eq)]
pub struct Phase {
    /// Opcode bytes of the banned opcodes that the phase executed.
    pub forbidden_opcodes_used: Vec<u8>,
    pub used_invalid_gas_opcode: bool,
    pub storage_accesses: Vec<StorageAccess>,
    pub called_with_value: bool,
    pub ran_out_of_gas: bool,
    pub undeployed_contract_accesses: Vec<Address>,
    pub called_handle_ops: bool,
    pub gas_used: u64,
    pub account_revert_data: Option<Vec<u8>>,
}

/// The base slots derived from one address: each is `keccak256(address || k)`
/// for some key `k`.
#[derive(Clone, Debug, PartialEq, Eq)]
pub struct AssociatedSlots {
    pub address: Address,
    pub slots: Vec<Word>,
}

/// The relation between addresses and the storage slots associated with them.
/// A slot is associated with an address when it lies in `[base, base + 128)`
/// for one of the address's base slots.
#[derive(Clone, Debug, PartialEq, Eq)]
pub struct AssociatedSlotsByAddress {
    pub entries: Vec<AssociatedSlots>,
}

pub open spec fn slot_in_range(base: Word, slot: Word) -> bool {
    base.value() <= slot.value() && slot.value() < base.value() + 128
}

impl AssociatedSlotsByAddress {
    pub open spec fn associated(&self, address: Address, slot: Word) -> bool {
        exists|i: int, j: int|
            0 <= i < self.entries@.len() && self.entries@[i].address == address && 0 <= j
                < self.entries@[i].slots@.len() && #[trigger] slot_in_range(
                self.entries@[i].slots@[j],
                slot,
            )
    }

    pub fn is_associated_slot(&self, address: Address, slot: Word) -> (r: bool)
        ensures
            r == self.associated(address, slot),
    {
        let mut i: usize = 0;
        while i < self.entries.len()
            invariant
                i <= self.entries@.len(),
                forall|a: int, b: int|
                    0 <= a < i && self.entries@[a].address == address && 0 <= b
                        < self.entries@[a].slots@.len() ==> !#[trigger] slot_in_range(
                        self.entries@[a].slots@[b],
                        slot,
                    ),
            decreases self.entries@.len() - i,
        {
            let entry = &self.entries[i];
            if entry.address == address {
                let mut j: usize = 0;
                while j < entry.slots.len()
                    invariant
                        i < self.entries@.len(),
                        *entry == self.entries@[i as int],
                        entry.address == address,
                        j <= entry.slots@.len(),
                        forall|b: int| 0 <= b < j ==> !#[trigger] slot_in_range(entry.slots@[b], slot),
                    decreases entry.slots@.len() - j,
                {
                    if entry.slots[j].covers(&slot) {
                        assert(slot_in_range(self.entries@[i as int].slots@[j as int], slot));
                        return true;
                    }
                    j += 1;
                }
            }
            i += 1;
        }
        false
    }
}

/// One slot whose value validation relied on.
#[derive(Clone, Copy, Debug, PartialEq, Eq, Structural)]
pub struct ExpectedSlot {
    pub slot: Word,
    pub value: Word,
}

/// The slots of one address whose values validation relied on.
#[derive(Clone, Debug, PartialEq, Eq)]
pub struct ExpectedStorage {
    pub address: Address,
    pub slots: Vec<ExpectedSlot>,
}

/// The tracer's record of a traced entry-point call.
#[derive(Clone, Debug, PartialEq, Eq)]
pub struct TracerOutput {
    pub phases: Vec<Phase>,
    pub revert_data: Option<Vec<u8>>,
    pub accessed_contract_addresses: Vec<Address>,
    pub associated_slots_by_address: AssociatedSlotsByAddress,
    pub expected_storage: Vec<ExpectedStorage>,
    pub factory_called_create2_twice: bool,
}

} // verus!
