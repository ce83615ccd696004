use vstd::prelude::*;
use crate::tracer::AssociatedSlotsByAddress;
use crate::types::{Address, Word};

verus! {

/// How an entity may touch a storage slot during validation.
#[derive(Clone, Copy, Debug, PartialEq, Eq, Structural)]
pub enum StorageRestriction {
    Allowed,
    NeedsStake,
    Banned,
}

/// The inputs of one storage-access decision.
#[derive(Clone, Copy, Debug)]
pub struct GetStorageRestrictionArgs<'a> {
    pub slots_by_address: &'a AssociatedSlotsByAddress,
    pub is_wallet_creation: bool,
    pub entry_point_address: Address,
    pub entity_address: Address,
    pub sender_address: Address,
    pub accessed_address: Address,
    pub slot: Word,
}

/// The decision table for one access, first match wins:
/// the sender's own storage is allowed; a slot associated with the sender is
/// allowed, except that during wallet creation it needs stake unless it lies
/// in the entry point's storage; the entity's own storage or a slot
/// associated with the entity needs stake; anything else is banned.
pub open spec fn restriction(
    slots_by_address: AssociatedSlotsByAddress,
    is_wallet_creation: bool,
    entry_point_address: Address,
    entity_address: Address,
    sender_address: Address,
    accessed_address: Address,
    slot: Word,
) -> StorageRestriction {
    if accessed_address == sender_address {
        StorageRestriction::Allowed
    } else if slots_by_address.associated(sender_address, slot) {
        if is_wallet_creation && accessed_address != entry_point_address {
            StorageRestriction::NeedsStake
        } else {
            StorageRestriction::Allowed
        }
    } else if accessed_address == entity_address || slots_by_address.associated(
        entity_address,
        slot,
    ) {
        StorageRestriction::NeedsStake
    } else {
        StorageRestriction::Banned
    }
}

pub fn get_storage_restriction(args: GetStorageRestrictionArgs) -> (r: StorageRestriction)
    ensures
        r == restriction(
            *args.slots_by_address,
            args.is_wallet_creation,
            args.entry_point_address,
            args.entity_address,
            args.sender_address,
            args.accessed_address,
            args.slot,
        ),
{
    if args.accessed_address == args.sender_address {
        StorageRestriction::Allowed
    } else if args.slots_by_address.is_associated_slot(args.sender_address, args.slot) {
        // Deliberately looser than the standard's text: an unstaked sender
        // being created may still touch its associated storage on the entry
        // point, or it could not deposit for its own gas.
        if args.is_wallet_creation && args.accessed_address != args.entry_point_address {
            StorageRestriction::NeedsStake
        } else {
            StorageRestriction::Allowed
        }
    } else if args.accessed_address == args.entity_address
        || args.slots_by_address.is_associated_slot(args.entity_address, args.slot) {
        StorageRestriction::NeedsStake
    } else {
        StorageRestriction::Banned
    }
}

/// Every access gets exactly one of the three decisions, and an access to the
/// sender's own storage is always allowed.
pub proof fn lemma_restriction_total(
    slots_by_address: AssociatedSlotsByAddress,
    is_wallet_creation: bool,
    entry_point_address: Address,
    entity_address: Address,
    sender_address: Address,
    accessed_address: Address,
    slot: Word,
)
    ensures
        ({
            let r = restriction(
                slots_by_address,
                is_wallet_creation,
                entry_point_address,
                entity_address,
                sender_address,
                accessed_address,
                slot,
            );
            (r == StorageRestriction::Allowed) as int + (r == StorageRestriction::NeedsStake) as int
                + (r == StorageRestriction::Banned) as int == 1
        }),
        accessed_address == sender_address ==> restriction(
            slots_by_address,
            is_wallet_creation,
            entry_point_address,
            entity_address,
            sender_address,
            accessed_address,
            slot,
        ) == StorageRestriction::Allowed,
{
}

} // verus!
