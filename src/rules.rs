use vstd::prelude::*;
use crate::address_set::OrderedAddressSet;
use crate::context::{EntityInfo, ValidationContext};
use crate::storage::{
    get_storage_restriction, restriction, GetStorageRestrictionArgs, StorageRestriction,
};
use crate::tracer::{Phase, StorageAccess};
use crate::types::{is_staked, phase_entity, spec_is_staked, Address, Entity, Settings, Word};
use crate::violation::{reports, severity, SimulationError, Violation, ViolationOpCode};

verus! {

/// The number of phases the rules look at: the first three at most.
pub open spec fn phase_count(ctx: &ValidationContext) -> int {
    if ctx.tracer_out.phases@.len() < 3 {
        ctx.tracer_out.phases@.len() as int
    } else {
        3
    }
}

/// The entity of phase `i`, with its record, when the operation has one.
pub open spec fn phase_info(ctx: &ValidationContext, i: int) -> Option<EntityInfo> {
    if 0 <= i < phase_count(ctx) {
        ctx.entity_infos.spec_get(phase_entity(i)->Some_0)
    } else {
        None
    }
}

/// The decision for one slot that phase `i`'s entity touched.
pub open spec fn slot_restriction(
    ctx: &ValidationContext,
    entry_point: Address,
    info: EntityInfo,
    address: Address,
    slot: Word,
) -> StorageRestriction {
    restriction(
        ctx.tracer_out.associated_slots_by_address,
        ctx.is_wallet_creation,
        entry_point,
        info.address,
        ctx.entity_infos.sender.address,
        address,
        slot,
    )
}

/// Whether one of the access's slots gets the decision `kind`.
pub open spec fn access_has(
    ctx: &ValidationContext,
    entry_point: Address,
    info: EntityInfo,
    access: StorageAccess,
    kind: StorageRestriction,
) -> bool {
    exists|j: int|
        0 <= j < access.slots@.len() && #[trigger] slot_restriction(
            ctx,
            entry_point,
            info,
            access.address,
            access.slots@[j],
        ) == kind
}

/// The addresses at which a banned slot was touched, each once, in the order
/// of their first banned access.
pub open spec fn banned_list(
    ctx: &ValidationContext,
    entry_point: Address,
    info: EntityInfo,
    accesses: Seq<StorageAccess>,
) -> Seq<Address>
    decreases accesses.len(),
{
    if accesses.len() == 0 {
        seq![]
    } else {
        let prev = banned_list(ctx, entry_point, info, accesses.drop_last());
        let a = accesses.last();
        if access_has(ctx, entry_point, info, a, StorageRestriction::Banned) && !prev.contains(
            a.address,
        ) {
            prev.push(a.address)
        } else {
            prev
        }
    }
}

/// Whether the entity of phase `i` must be staked: a paymaster that returned a
/// context, or any access that needs stake.
pub open spec fn needs_stake(
    ctx: &ValidationContext,
    entry_point: Address,
    i: int,
    info: EntityInfo,
) -> bool {
    let accesses = ctx.tracer_out.phases@[i].storage_accesses@;
    (phase_entity(i) == Some(Entity::Paymaster)
        && ctx.entry_point_out.return_info.paymaster_context@.len() > 0) || exists|k: int|
        0 <= k < accesses.len() && #[trigger] access_has(
            ctx,
            entry_point,
            info,
            accesses[k],
            StorageRestriction::NeedsStake,
        )
}

pub open spec fn flag(b: bool, v: Violation) -> Seq<Violation> {
    if b {
        seq![v]
    } else {
        seq![]
    }
}

pub open spec fn min_stake_word(settings: Settings) -> Word {
    Word { high: 0, low: settings.min_stake_value as u128 }
}

pub open spec fn min_delay_word(settings: Settings) -> Word {
    Word { high: 0, low: settings.min_unstake_delay as u128 }
}

/// The violations of one kind that phase `i` gives, in the order of its
/// records. Kinds: 0 banned opcodes, 1 the GAS opcode, 2 banned storage,
/// 3 missing stake, 4 value transfer, 5 out of gas, 6 undeployed code,
/// 7 reentry into handleOps.
pub open spec fn phase_part(
    ctx: &ValidationContext,
    entry_point: Address,
    settings: Settings,
    kind: int,
    i: int,
) -> Seq<Violation> {
    match phase_info(ctx, i) {
        None => seq![],
        Some(info) => {
            let e = phase_entity(i)->Some_0;
            let p = ctx.tracer_out.phases@[i];
            if kind == 0 {
                p.forbidden_opcodes_used@.map_values(
                    |op: u8| Violation::UsedForbiddenOpcode(e, ViolationOpCode(op)),
                )
            } else if kind == 1 {
                flag(p.used_invalid_gas_opcode, Violation::InvalidGasOpcode(e))
            } else if kind == 2 {
                banned_list(ctx, entry_point, info, p.storage_accesses@).map_values(
                    |a: Address| Violation::InvalidStorageAccess(e, a),
                )
            } else if kind == 3 {
                flag(
                    needs_stake(ctx, entry_point, i, info) && !info.is_staked,
                    Violation::NotStaked(
                        e,
                        info.address,
                        min_stake_word(settings),
                        min_delay_word(settings),
                    ),
                )
            } else if kind == 4 {
                flag(p.called_with_value, Violation::CallHadValue(e))
            } else if kind == 5 {
                flag(p.ran_out_of_gas, Violation::OutOfGas(e))
            } else if kind == 6 {
                p.undeployed_contract_accesses@.map_values(
                    |a: Address| Violation::AccessedUndeployedContract(e, a),
                )
            } else {
                flag(p.called_handle_ops, Violation::CalledHandleOps(e))
            }
        },
    }
}

/// The violations of one kind over the first `n` phases, phase by phase.
pub open spec fn kind_over_phases(
    ctx: &ValidationContext,
    entry_point: Address,
    settings: Settings,
    kind: int,
    n: int,
) -> Seq<Violation>
    decreases n,
{
    if n <= 0 {
        seq![]
    } else {
        kind_over_phases(ctx, entry_point, settings, kind, n - 1) + phase_part(
            ctx,
            entry_point,
            settings,
            kind,
            n - 1,
        )
    }
}

pub open spec fn all_of_kind(
    ctx: &ValidationContext,
    entry_point: Address,
    settings: Settings,
    kind: int,
) -> Seq<Violation> {
    kind_over_phases(ctx, entry_point, settings, kind, phase_count(ctx))
}

/// The aggregator's missing stake, if it has one and is not staked.
pub open spec fn aggregator_part(ctx: &ValidationContext, settings: Settings) -> Seq<Violation> {
    match ctx.entry_point_out.aggregator_info {
        Some(agg) => flag(
            !spec_is_staked(agg.stake_info, settings),
            Violation::NotStaked(
                Entity::Aggregator,
                agg.address,
                min_stake_word(settings),
                min_delay_word(settings),
            ),
        ),
        None => seq![],
    }
}

/// Every violation that the trace shows, ordered by the severity of the
/// variant, then by phase, then by the order of the records within a phase.
pub open spec fn rule_violations(
    ctx: &ValidationContext,
    entry_point: Address,
    settings: Settings,
) -> Seq<Violation> {
    all_of_kind(ctx, entry_point, settings, 0) + all_of_kind(ctx, entry_point, settings, 1)
        + flag(ctx.tracer_out.factory_called_create2_twice, Violation::FactoryCalledCreate2Twice)
        + all_of_kind(ctx, entry_point, settings, 2) + all_of_kind(ctx, entry_point, settings, 3)
        + aggregator_part(ctx, settings) + all_of_kind(ctx, entry_point, settings, 4)
        + all_of_kind(ctx, entry_point, settings, 5) + all_of_kind(ctx, entry_point, settings, 6)
        + all_of_kind(ctx, entry_point, settings, 7)
}


/// Whether `v` holds `a`.
pub fn contains_address(v: &Vec<Address>, a: Address) -> (r: bool)
    ensures
        r == v@.contains(a),
{
    let mut i: usize = 0;
    while i < v.len()
        invariant
            i <= v@.len(),
            forall|j: int| 0 <= j < i ==> v@[j] != a,
        decreases v@.len() - i,
    {
        if v[i] == a {
            assert(v@[i as int] == a);
            return true;
        }
        i += 1;
    }
    false
}

/// Classifies every slot of one phase's accesses: whether any of them needs
/// stake, and the addresses with a banned slot.
fn scan_storage(
    ctx: &ValidationContext,
    entry_point: Address,
    info: EntityInfo,
    accesses: &Vec<StorageAccess>,
) -> (r: (bool, Vec<Address>))
    ensures
        r.0 == exists|k: int|
            0 <= k < accesses@.len() && #[trigger] access_has(
                ctx,
                entry_point,
                info,
                accesses@[k],
                StorageRestriction::NeedsStake,
            ),
        r.1@ == banned_list(ctx, entry_point, info, accesses@),
{
    let mut needs = false;
    let mut banned = OrderedAddressSet::new();
    let mut k: usize = 0;
    while k < accesses.len()
        invariant
            k <= accesses@.len(),
            needs == exists|k2: int|
                0 <= k2 < k && #[trigger] access_has(
                    ctx,
                    entry_point,
                    info,
                    accesses@[k2],
                    StorageRestriction::NeedsStake,
                ),
            banned.view() == banned_list(ctx, entry_point, info, accesses@.take(k as int)),
        decreases accesses@.len() - k,
    {
        let access = &accesses[k];
        let mut any_banned = false;
        let mut any_needs = false;
        let mut j: usize = 0;
        while j < access.slots.len()
            invariant
                k < accesses@.len(),
                *access == accesses@[k as int],
                j <= access.slots@.len(),
                any_banned == exists|j2: int|
                    0 <= j2 < j && #[trigger] slot_restriction(
                        ctx,
                        entry_point,
                        info,
                        access.address,
                        access.slots@[j2],
                    ) == StorageRestriction::Banned,
                any_needs == exists|j2: int|
                    0 <= j2 < j && #[trigger] slot_restriction(
                        ctx,
                        entry_point,
                        info,
                        access.address,
                        access.slots@[j2],
                    ) == StorageRestriction::NeedsStake,
            decreases access.slots@.len() - j,
        {
            let restriction = get_storage_restriction(
                GetStorageRestrictionArgs {
                    slots_by_address: &ctx.tracer_out.associated_slots_by_address,
                    is_wallet_creation: ctx.is_wallet_creation,
                    entry_point_address: entry_point,
                    entity_address: info.address,
                    sender_address: ctx.entity_infos.sender.address,
                    accessed_address: access.address,
                    slot: access.slots[j],
                },
            );
            proof {
                assert(restriction == slot_restriction(
                    ctx,
                    entry_point,
                    info,
                    access.address,
                    access.slots@[j as int],
                ));
            }
            match restriction {
                StorageRestriction::Allowed => {},
                StorageRestriction::NeedsStake => {
                    any_needs = true;
                },
                StorageRestriction::Banned => {
                    any_banned = true;
                },
            }
            j += 1;
        }
        proof {
            assert(accesses@.take(k + 1).drop_last() =~= accesses@.take(k as int));
            assert(accesses@.take(k + 1).last() == accesses@[k as int]);
        }
        if any_banned {
            banned.insert(access.address);
        }
        if any_needs {
            needs = true;
        }
        proof {
            assert(any_needs == access_has(ctx, entry_point, info, accesses@[k as int], StorageRestriction::NeedsStake));
        }
        k += 1;
    }
    proof {
        assert(accesses@.take(accesses@.len() as int) =~= accesses@);
    }
    (needs, banned.into_vec())
}


fn flag_vec(b: bool, v: Violation) -> (r: Vec<Violation>)
    ensures
        r@ == flag(b, v),
{
    let mut out: Vec<Violation> = Vec::new();
    if b {
        out.push(v);
    }
    proof {
        assert(out@ =~= flag(b, v));
    }
    out
}

fn min_stake(settings: Settings) -> (r: Word)
    ensures
        r == min_stake_word(settings),
{
    Word { high: 0, low: settings.min_stake_value as u128 }
}

fn min_delay(settings: Settings) -> (r: Word)
    ensures
        r == min_delay_word(settings),
{
    Word { high: 0, low: settings.min_unstake_delay as u128 }
}

/// The entity of phase `i` with its record, if the operation has one.
fn phase_entity_info(ctx: &ValidationContext, i: usize) -> (r: Option<(Entity, EntityInfo)>)
    requires
        i < phase_count(ctx),
    ensures
        r is Some <==> phase_info(ctx, i as int) is Some,
        r matches Some((e, info)) ==> e == phase_entity(i as int)->Some_0 && phase_info(
            ctx,
            i as int,
        ) == Some(info),
{
    match Entity::from_simulation_phase(i) {
        Some(entity) => match ctx.entity_infos.get(entity) {
            Some(info) => Some((entity, info)),
            None => None,
        },
        None => None,
    }
}

/// The violations of one kind that phase `i` gives.
fn phase_kind(
    ctx: &ValidationContext,
    entry_point: Address,
    settings: Settings,
    kind: u8,
    i: usize,
) -> (r: Vec<Violation>)
    requires
        i < phase_count(ctx),
        kind < 8,
    ensures
        r@ == phase_part(ctx, entry_point, settings, kind as int, i as int),
{
    let (entity, info) = match phase_entity_info(ctx, i) {
        Some(found) => found,
        None => {
            return Vec::new();
        },
    };
    let phase: &Phase = &ctx.tracer_out.phases[i];
    if kind == 0 {
        let mut out: Vec<Violation> = Vec::new();
        let mut j: usize = 0;
        while j < phase.forbidden_opcodes_used.len()
            invariant
                j <= phase.forbidden_opcodes_used@.len(),
                out@ =~= phase.forbidden_opcodes_used@.take(j as int).map_values(
                    |op: u8| Violation::UsedForbiddenOpcode(entity, ViolationOpCode(op)),
                ),
            decreases phase.forbidden_opcodes_used@.len() - j,
        {
            out.push(Violation::UsedForbiddenOpcode(entity, ViolationOpCode(phase.forbidden_opcodes_used[j])));
            j += 1;
            proof {
                assert(out@ =~= phase.forbidden_opcodes_used@.take(j as int).map_values(
                    |op: u8| Violation::UsedForbiddenOpcode(entity, ViolationOpCode(op)),
                ));
            }
        }
        proof {
            assert(phase.forbidden_opcodes_used@.take(j as int) =~= phase.forbidden_opcodes_used@);
        }
        out
    } else if kind == 1 {
        flag_vec(phase.used_invalid_gas_opcode, Violation::InvalidGasOpcode(entity))
    } else if kind == 2 {
        let (_, banned) = scan_storage(ctx, entry_point, info, &phase.storage_accesses);
        let mut out: Vec<Violation> = Vec::new();
        let mut j: usize = 0;
        while j < banned.len()
            invariant
                j <= banned@.len(),
                out@ =~= banned@.take(j as int).map_values(
                    |a: Address| Violation::InvalidStorageAccess(entity, a),
                ),
            decreases banned@.len() - j,
        {
            out.push(Violation::InvalidStorageAccess(entity, banned[j]));
            j += 1;
            proof {
                assert(out@ =~= banned@.take(j as int).map_values(
                    |a: Address| Violation::InvalidStorageAccess(entity, a),
                ));
            }
        }
        proof {
            assert(banned@.take(j as int) =~= banned@);
        }
        out
    } else if kind == 3 {
        let (storage_needs, _) = scan_storage(ctx, entry_point, info, &phase.storage_accesses);
        let needs = (matches!(entity, Entity::Paymaster)
            && ctx.entry_point_out.return_info.paymaster_context.len() > 0) || storage_needs;
        flag_vec(
            needs && !info.is_staked,
            Violation::NotStaked(entity, info.address, min_stake(settings), min_delay(settings)),
        )
    } else if kind == 4 {
        flag_vec(phase.called_with_value, Violation::CallHadValue(entity))
    } else if kind == 5 {
        flag_vec(phase.ran_out_of_gas, Violation::OutOfGas(entity))
    } else if kind == 6 {
        let mut out: Vec<Violation> = Vec::new();
        let mut j: usize = 0;
        while j < phase.undeployed_contract_accesses.len()
            invariant
                j <= phase.undeployed_contract_accesses@.len(),
                out@ =~= phase.undeployed_contract_accesses@.take(j as int).map_values(
                    |a: Address| Violation::AccessedUndeployedContract(entity, a),
                ),
            decreases phase.undeployed_contract_accesses@.len() - j,
        {
            out.push(Violation::AccessedUndeployedContract(entity, phase.undeployed_contract_accesses[j]));
            j += 1;
            proof {
                assert(out@ =~= phase.undeployed_contract_accesses@.take(j as int).map_values(
                    |a: Address| Violation::AccessedUndeployedContract(entity, a),
                ));
            }
        }
        proof {
            assert(phase.undeployed_contract_accesses@.take(j as int) =~= phase.undeployed_contract_accesses@);
        }
        out
    } else {
        flag_vec(phase.called_handle_ops, Violation::CalledHandleOps(entity))
    }
}

/// The violations of one kind over all phases, phase by phase.
fn kind_all(ctx: &ValidationContext, entry_point: Address, settings: Settings, kind: u8) -> (r: Vec<
    Violation,
>)
    requires
        kind < 8,
    ensures
        r@ == all_of_kind(ctx, entry_point, settings, kind as int),
{
    let n: usize = if ctx.tracer_out.phases.len() < 3 {
        ctx.tracer_out.phases.len()
    } else {
        3
    };
    let mut out: Vec<Violation> = Vec::new();
    let mut i: usize = 0;
    while i < n
        invariant
            n == phase_count(ctx),
            i <= n,
            kind < 8,
            out@ == kind_over_phases(ctx, entry_point, settings, kind as int, i as int),
        decreases n - i,
    {
        let mut part = phase_kind(ctx, entry_point, settings, kind, i);
        out.append(&mut part);
        i += 1;
    }
    out
}


/// The phase entities that must be staked, over the first `n` phases.
pub open spec fn stake_entities_over(ctx: &ValidationContext, entry_point: Address, n: int) -> Seq<
    Entity,
>
    decreases n,
{
    if n <= 0 {
        seq![]
    } else {
        stake_entities_over(ctx, entry_point, n - 1) + match phase_info(ctx, n - 1) {
            Some(info) => if needs_stake(ctx, entry_point, n - 1, info) {
                seq![phase_entity(n - 1)->Some_0]
            } else {
                seq![]
            },
            None => seq![],
        }
    }
}

/// The entities that must be staked, in phase order, the aggregator last.
pub open spec fn entities_needing_stake(ctx: &ValidationContext, entry_point: Address) -> Seq<
    Entity,
> {
    stake_entities_over(ctx, entry_point, phase_count(ctx)) + if ctx.entry_point_out.aggregator_info is Some {
        seq![Entity::Aggregator]
    } else {
        seq![]
    }
}

/// Whether access `k` of phase `i` touched address `a`, in a phase the rules look at.
pub open spec fn touched(ctx: &ValidationContext, i: int, k: int, a: Address) -> bool {
    &&& 0 <= i < phase_count(ctx)
    &&& phase_info(ctx, i) is Some
    &&& 0 <= k < ctx.tracer_out.phases@[i].storage_accesses@.len()
    &&& ctx.tracer_out.phases@[i].storage_accesses@[k].address == a
}

/// Every address whose storage the examined phases touched.
pub open spec fn accessed_set(ctx: &ValidationContext) -> Set<Address> {
    Set::new(|a: Address| exists|i: int, k: int| #[trigger] touched(ctx, i, k, a))
}

fn collect_accessed(ctx: &ValidationContext) -> (r: Vec<Address>)
    ensures
        r@.no_duplicates(),
        r@.to_set() == accessed_set(ctx),
{
    let n: usize = if ctx.tracer_out.phases.len() < 3 {
        ctx.tracer_out.phases.len()
    } else {
        3
    };
    let mut out: Vec<Address> = Vec::new();
    let mut i: usize = 0;
    while i < n
        invariant
            n == phase_count(ctx),
            i <= n,
            out@.no_duplicates(),
            forall|a: Address|
                out@.contains(a) <==> exists|i2: int, k2: int| i2 < i && #[trigger] touched(ctx, i2, k2, a),
        decreases n - i,
    {
        if phase_entity_info(ctx, i).is_some() {
            let accesses = &ctx.tracer_out.phases[i].storage_accesses;
            let mut k: usize = 0;
            while k < accesses.len()
                invariant
                    n == phase_count(ctx),
                    i < n,
                    phase_info(ctx, i as int) is Some,
                    *accesses == ctx.tracer_out.phases@[i as int].storage_accesses,
                    k <= accesses@.len(),
                    out@.no_duplicates(),
                    forall|a: Address|
                        out@.contains(a) <==> (exists|i2: int, k2: int| i2 < i && #[trigger] touched(ctx, i2, k2, a))
                            || (exists|k2: int| 0 <= k2 < k && #[trigger] touched(ctx, i as int, k2, a)),
                decreases accesses@.len() - k,
            {
                let a = accesses[k].address;
                assert(touched(ctx, i as int, k as int, a));
                let ghost prev = out@;
                if !contains_address(&out, a) {
                    out.push(a);
                    proof {
                        assert forall|b: Address| out@.contains(b) <==> (prev.contains(b) || b == a) by {
                            if prev.contains(b) {
                                let j = choose|j: int| 0 <= j < prev.len() && prev[j] == b;
                                assert(out@[j] == b);
                            }
                            if b == a {
                                assert(out@[prev.len() as int] == a);
                            }
                            if out@.contains(b) {
                                let j = choose|j: int| 0 <= j < out@.len() && out@[j] == b;
                                if j < prev.len() {
                                    assert(prev[j] == b);
                                }
                            }
                        }
                    }
                }
                assert(forall|b: Address| out@.contains(b) <==> (prev.contains(b) || b == a));
                proof {
                    assert forall|b: Address|
                        out@.contains(b) <==> (exists|i2: int, k2: int| i2 < i && #[trigger] touched(ctx, i2, k2, b))
                            || (exists|k2: int| 0 <= k2 < k + 1 && #[trigger] touched(ctx, i as int, k2, b)) by {
                        if exists|k2: int| 0 <= k2 < k + 1 && #[trigger] touched(ctx, i as int, k2, b) {
                            let k2 = choose|k2: int| 0 <= k2 < k + 1 && #[trigger] touched(ctx, i as int, k2, b);
                            if k2 < k {
                                assert(touched(ctx, i as int, k2, b));
                                assert(prev.contains(b));
                            } else {
                                assert(b == a);
                            }
                        }
                        if out@.contains(b) {
                            if b == a {
                                assert(touched(ctx, i as int, k as int, b));
                            } else {
                                assert(prev.contains(b));
                                if exists|k2: int| 0 <= k2 < k && #[trigger] touched(ctx, i as int, k2, b) {
                                    let k2 = choose|k2: int| 0 <= k2 < k && #[trigger] touched(ctx, i as int, k2, b);
                                    assert(touched(ctx, i as int, k2, b));
                                }
                            }
                        }
                        if exists|i2: int, k2: int| i2 < i && #[trigger] touched(ctx, i2, k2, b) {
                            assert(prev.contains(b));
                        }
                    }
                }
                k += 1;
            }
            assert forall|a: Address|
                out@.contains(a) <==> exists|i2: int, k2: int| i2 < i + 1 && #[trigger] touched(ctx, i2, k2, a) by {
                if exists|i2: int, k2: int| i2 < i + 1 && #[trigger] touched(ctx, i2, k2, a) {
                    let (i2, k2) = choose|i2: int, k2: int| i2 < i + 1 && #[trigger] touched(ctx, i2, k2, a);
                    if i2 == i {
                        assert(touched(ctx, i as int, k2, a));
                    }
                }
            }
        } else {
            assert forall|a: Address|
                out@.contains(a) <==> exists|i2: int, k2: int| i2 < i + 1 && #[trigger] touched(ctx, i2, k2, a) by {
                if exists|i2: int, k2: int| i2 < i + 1 && #[trigger] touched(ctx, i2, k2, a) {
                    let (i2, k2) = choose|i2: int, k2: int| i2 < i + 1 && #[trigger] touched(ctx, i2, k2, a);
                    assert(i2 != i);
                }
            }
        }
        i += 1;
    }
    proof {
        assert forall|a: Address| out@.to_set().contains(a) <==> accessed_set(ctx).contains(a) by {
            if accessed_set(ctx).contains(a) {
                let (i2, k2) = choose|i2: int, k2: int| #[trigger] touched(ctx, i2, k2, a);
                assert(i2 < i);
            }
        }
        assert(out@.to_set() =~= accessed_set(ctx));
    }
    out
}

fn collect_stake_entities(ctx: &ValidationContext, entry_point: Address) -> (r: Vec<Entity>)
    ensures
        r@ == entities_needing_stake(ctx, entry_point),
{
    let n: usize = if ctx.tracer_out.phases.len() < 3 {
        ctx.tracer_out.phases.len()
    } else {
        3
    };
    let mut out: Vec<Entity> = Vec::new();
    let mut i: usize = 0;
    while i < n
        invariant
            n == phase_count(ctx),
            i <= n,
            out@ == stake_entities_over(ctx, entry_point, i as int),
        decreases n - i,
    {
        let ghost prev = out@;
        match phase_entity_info(ctx, i) {
            Some((entity, info)) => {
                let (storage_needs, _) = scan_storage(
                    ctx,
                    entry_point,
                    info,
                    &ctx.tracer_out.phases[i].storage_accesses,
                );
                let needs = (matches!(entity, Entity::Paymaster)
                    && ctx.entry_point_out.return_info.paymaster_context.len() > 0)
                    || storage_needs;
                if needs {
                    out.push(entity);
                }
                proof {
                    assert(needs == needs_stake(ctx, entry_point, i as int, info));
                }
            },
            None => {},
        }
        proof {
            assert(out@ =~= stake_entities_over(ctx, entry_point, i + 1));
        }
        i += 1;
    }
    if ctx.entry_point_out.aggregator_info.is_some() {
        out.push(Entity::Aggregator);
    }
    proof {
        assert(out@ =~= entities_needing_stake(ctx, entry_point));
    }
    out
}


/// What a clean pass of the rules hands to the post-validation step.
#[derive(Debug, PartialEq, Eq)]
pub struct RulesPassed {
    pub entities_needing_stake: Vec<Entity>,
    /// Each address once.
    pub accessed_addresses: Vec<Address>,
}

/// Runs the rules over a validation context. On any violation it reports
/// them all, most severe first, and nothing else is computed; otherwise it
/// gives the entities that must be staked and the addresses touched.
pub fn check_rules(ctx: &ValidationContext, entry_point_address: Address, sim_settings: Settings) -> (r:
    Result<RulesPassed, SimulationError>)
    ensures
        rule_violations(ctx, entry_point_address, sim_settings).len() > 0 ==> reports(
            r,
            rule_violations(ctx, entry_point_address, sim_settings),
        ),
        rule_violations(ctx, entry_point_address, sim_settings).len() == 0 ==> (r matches Ok(p)
            && p.entities_needing_stake@ == entities_needing_stake(ctx, entry_point_address)
            && p.accessed_addresses@.no_duplicates() && p.accessed_addresses@.to_set()
            == accessed_set(ctx)),
{
    let ep = entry_point_address;
    let mut violations = kind_all(ctx, ep, sim_settings, 0);
    let mut part = kind_all(ctx, ep, sim_settings, 1);
    violations.append(&mut part);
    let mut part = flag_vec(
        ctx.tracer_out.factory_called_create2_twice,
        Violation::FactoryCalledCreate2Twice,
    );
    violations.append(&mut part);
    let mut part = kind_all(ctx, ep, sim_settings, 2);
    violations.append(&mut part);
    let mut part = kind_all(ctx, ep, sim_settings, 3);
    violations.append(&mut part);
    let mut part = match &ctx.entry_point_out.aggregator_info {
        Some(agg) => flag_vec(
            !is_staked(agg.stake_info, sim_settings),
            Violation::NotStaked(
                Entity::Aggregator,
                agg.address,
                min_stake(sim_settings),
                min_delay(sim_settings),
            ),
        ),
        None => Vec::new(),
    };
    proof {
        assert(part@ =~= aggregator_part(ctx, sim_settings));
    }
    violations.append(&mut part);
    let mut kind: u8 = 4;
    while kind < 8
        invariant
            4 <= kind <= 8,
            violations@ == all_of_kind(ctx, ep, sim_settings, 0) + all_of_kind(ctx, ep, sim_settings, 1)
                + flag(ctx.tracer_out.factory_called_create2_twice, Violation::FactoryCalledCreate2Twice)
                + all_of_kind(ctx, ep, sim_settings, 2) + all_of_kind(ctx, ep, sim_settings, 3)
                + aggregator_part(ctx, sim_settings) + (if kind > 4 { all_of_kind(ctx, ep, sim_settings, 4) } else { seq![] })
                + (if kind > 5 { all_of_kind(ctx, ep, sim_settings, 5) } else { seq![] })
                + (if kind > 6 { all_of_kind(ctx, ep, sim_settings, 6) } else { seq![] })
                + (if kind > 7 { all_of_kind(ctx, ep, sim_settings, 7) } else { seq![] }),
        decreases 8 - kind,
    {
        let mut part = kind_all(ctx, ep, sim_settings, kind);
        violations.append(&mut part);
        kind += 1;
        proof {
            assert(violations@ =~= all_of_kind(ctx, ep, sim_settings, 0) + all_of_kind(ctx, ep, sim_settings, 1)
                + flag(ctx.tracer_out.factory_called_create2_twice, Violation::FactoryCalledCreate2Twice)
                + all_of_kind(ctx, ep, sim_settings, 2) + all_of_kind(ctx, ep, sim_settings, 3)
                + aggregator_part(ctx, sim_settings) + (if kind > 4 { all_of_kind(ctx, ep, sim_settings, 4) } else { seq![] })
                + (if kind > 5 { all_of_kind(ctx, ep, sim_settings, 5) } else { seq![] })
                + (if kind > 6 { all_of_kind(ctx, ep, sim_settings, 6) } else { seq![] })
                + (if kind > 7 { all_of_kind(ctx, ep, sim_settings, 7) } else { seq![] }));
        }
    }
    proof {
        assert(violations@ =~= rule_violations(ctx, ep, sim_settings));
    }
    if violations.len() > 0 {
        return Err(SimulationError::Violations(violations));
    }
    let entities_needing_stake = collect_stake_entities(ctx, ep);
    let accessed_addresses = collect_accessed(ctx);
    Ok(RulesPassed { entities_needing_stake, accessed_addresses })
}


/// The severity of the variant that violations of one kind carry.
pub open spec fn kind_severity(kind: int) -> int {
    if kind == 0 {
        1
    } else if kind == 1 {
        2
    } else if kind == 2 {
        4
    } else if kind == 3 {
        5
    } else {
        kind + 5
    }
}

pub open spec fn sorted_by_severity(s: Seq<Violation>) -> bool {
    forall|i: int, j: int| 0 <= i < j < s.len() ==> severity(s[i]) <= severity(s[j])
}

pub open spec fn all_severity(s: Seq<Violation>, k: int) -> bool {
    forall|i: int| 0 <= i < s.len() ==> #[trigger] severity(s[i]) == k
}

pub open spec fn at_most_severity(s: Seq<Violation>, k: int) -> bool {
    forall|i: int| 0 <= i < s.len() ==> #[trigger] severity(s[i]) <= k
}

proof fn lemma_phase_part_severity(
    ctx: &ValidationContext,
    entry_point: Address,
    settings: Settings,
    kind: int,
    i: int,
)
    requires
        0 <= kind < 8,
    ensures
        all_severity(phase_part(ctx, entry_point, settings, kind, i), kind_severity(kind)),
{
}

proof fn lemma_kind_severity(
    ctx: &ValidationContext,
    entry_point: Address,
    settings: Settings,
    kind: int,
    n: int,
)
    requires
        0 <= kind < 8,
    ensures
        all_severity(kind_over_phases(ctx, entry_point, settings, kind, n), kind_severity(kind)),
    decreases n,
{
    if n > 0 {
        lemma_kind_severity(ctx, entry_point, settings, kind, n - 1);
        lemma_phase_part_severity(ctx, entry_point, settings, kind, n - 1);
        let a = kind_over_phases(ctx, entry_point, settings, kind, n - 1);
        let b = phase_part(ctx, entry_point, settings, kind, n - 1);
        assert forall|j: int| 0 <= j < (a + b).len() implies #[trigger] severity((a + b)[j])
            == kind_severity(kind) by {
            if j < a.len() {
                assert((a + b)[j] == a[j]);
            } else {
                assert((a + b)[j] == b[j - a.len()]);
            }
        }
    }
}

proof fn lemma_sorted_append(s1: Seq<Violation>, s2: Seq<Violation>, k: int)
    requires
        sorted_by_severity(s1),
        at_most_severity(s1, k),
        all_severity(s2, k),
    ensures
        sorted_by_severity(s1 + s2),
        at_most_severity(s1 + s2, k),
{
    let s = s1 + s2;
    assert forall|i: int, j: int| 0 <= i < j < s.len() implies severity(s[i]) <= severity(s[j]) by {
        if j < s1.len() {
            assert(s[i] == s1[i] && s[j] == s1[j]);
        } else if i < s1.len() {
            assert(s[i] == s1[i] && s[j] == s2[j - s1.len()]);
            assert(severity(s1[i]) <= k);
            assert(severity(s2[j - s1.len()]) == k);
        } else {
            assert(s[i] == s2[i - s1.len()] && s[j] == s2[j - s1.len()]);
            assert(severity(s2[i - s1.len()]) == k);
            assert(severity(s2[j - s1.len()]) == k);
        }
    }
    assert forall|i: int| 0 <= i < s.len() implies #[trigger] severity(s[i]) <= k by {
        if i < s1.len() {
            assert(s[i] == s1[i]);
        } else {
            assert(s[i] == s2[i - s1.len()]);
        }
    }
}

/// The violations of a context come sorted by the severity of their variant.
/// Within one variant they keep the order of the phases and, within a phase,
/// the order of the records, as `rule_violations` spells out.
pub proof fn lemma_violations_sorted(
    ctx: &ValidationContext,
    entry_point_address: Address,
    settings: Settings,
)
    ensures
        sorted_by_severity(rule_violations(ctx, entry_point_address, settings)),
{
    let ep = entry_point_address;
    let n = phase_count(ctx);
    lemma_kind_severity(ctx, ep, settings, 0, n);
    lemma_kind_severity(ctx, ep, settings, 1, n);
    lemma_kind_severity(ctx, ep, settings, 2, n);
    lemma_kind_severity(ctx, ep, settings, 3, n);
    lemma_kind_severity(ctx, ep, settings, 4, n);
    lemma_kind_severity(ctx, ep, settings, 5, n);
    lemma_kind_severity(ctx, ep, settings, 6, n);
    lemma_kind_severity(ctx, ep, settings, 7, n);
    let s0 = all_of_kind(ctx, ep, settings, 0);
    let s1 = s0 + all_of_kind(ctx, ep, settings, 1);
    let s2 = s1 + flag(ctx.tracer_out.factory_called_create2_twice, Violation::FactoryCalledCreate2Twice);
    let s3 = s2 + all_of_kind(ctx, ep, settings, 2);
    let s4 = s3 + all_of_kind(ctx, ep, settings, 3);
    let s5 = s4 + aggregator_part(ctx, settings);
    let s6 = s5 + all_of_kind(ctx, ep, settings, 4);
    let s7 = s6 + all_of_kind(ctx, ep, settings, 5);
    let s8 = s7 + all_of_kind(ctx, ep, settings, 6);
    let s9 = s8 + all_of_kind(ctx, ep, settings, 7);
    lemma_sorted_append(seq![], s0, 1);
    assert(seq![] + s0 =~= s0);
    lemma_sorted_append(s0, all_of_kind(ctx, ep, settings, 1), 2);
    lemma_sorted_append(
        s1,
        flag(ctx.tracer_out.factory_called_create2_twice, Violation::FactoryCalledCreate2Twice),
        3,
    );
    lemma_sorted_append(s2, all_of_kind(ctx, ep, settings, 2), 4);
    lemma_sorted_append(s3, all_of_kind(ctx, ep, settings, 3), 5);
    lemma_sorted_append(s4, aggregator_part(ctx, settings), 5);
    lemma_sorted_append(s5, all_of_kind(ctx, ep, settings, 4), 9);
    lemma_sorted_append(s6, all_of_kind(ctx, ep, settings, 5), 10);
    lemma_sorted_append(s7, all_of_kind(ctx, ep, settings, 6), 11);
    lemma_sorted_append(s8, all_of_kind(ctx, ep, settings, 7), 12);
}


/// The rules are a function of the context, the entry point and the
/// settings: the same inputs give the same violations, in the same order, and
/// the same entities needing stake and accessed addresses.
pub proof fn lemma_rules_deterministic(
    ctx1: &ValidationContext,
    ctx2: &ValidationContext,
    entry_point_address: Address,
    settings: Settings,
)
    requires
        ctx1.entity_infos == ctx2.entity_infos,
        ctx1.tracer_out == ctx2.tracer_out,
        ctx1.entry_point_out == ctx2.entry_point_out,
        ctx1.is_wallet_creation == ctx2.is_wallet_creation,
    ensures
        rule_violations(ctx1, entry_point_address, settings) == rule_violations(
            ctx2,
            entry_point_address,
            settings,
        ),
        entities_needing_stake(ctx1, entry_point_address) == entities_needing_stake(
            ctx2,
            entry_point_address,
        ),
        accessed_set(ctx1) == accessed_set(ctx2),
{
    assert(*ctx1 == *ctx2);
}

} // verus!
