use bundler_simulation::codec::{account_revert_text, code_hash, ContractRevertError};
use bundler_simulation::context::{
    create_context, AggregatorInfo, EntityInfo, EntityInfos, UserOperation, ValidationContext,
    ValidationOutput, ValidationReturnInfo, ValidationRevert,
};
use bundler_simulation::rules::check_rules;
use bundler_simulation::simulation::{
    finish_validation, gas_simulation_outcome, AggregatorOut, EntryPointRevert,
    ExpectedStorageSlot, GasSimulationSuccess,
};
use bundler_simulation::storage::{
    get_storage_restriction, GetStorageRestrictionArgs, StorageRestriction,
};
use bundler_simulation::tracer::{
    AssociatedSlots, AssociatedSlotsByAddress, ExpectedSlot, ExpectedStorage, Phase,
    StorageAccess, TracerOutput,
};
use bundler_simulation::types::{is_staked, Address, Entity, Settings, StakeInfo, Word};
use bundler_simulation::violation::{
    GasSimulationError, SimulationError, Violation, ViolationOpCode,
};

const SELFBALANCE: u8 = 0x47;

fn addr(n: u128) -> Address {
    Address::new(0, n)
}

fn word(n: u128) -> Word {
    Word { high: 0, low: n }
}

fn ep() -> Address {
    addr(0xe0)
}
fn sender() -> Address {
    addr(0x5e)
}
fn factory() -> Address {
    addr(0xfa)
}
fn paymaster() -> Address {
    addr(0x9a)
}

fn unstaked() -> StakeInfo {
    StakeInfo { stake: word(0), unstake_delay_sec: word(0) }
}

fn staked() -> StakeInfo {
    StakeInfo { stake: word(1_000_000_000_000_000_000), unstake_delay_sec: word(84600) }
}

fn empty_phase() -> Phase {
    Phase {
        forbidden_opcodes_used: vec![],
        used_invalid_gas_opcode: false,
        storage_accesses: vec![],
        called_with_value: false,
        ran_out_of_gas: false,
        undeployed_contract_accesses: vec![],
        called_handle_ops: false,
        gas_used: 0,
        account_revert_data: None,
    }
}

fn access(address: Address, slots: Vec<u128>) -> StorageAccess {
    StorageAccess { address, slots: slots.into_iter().map(word).collect() }
}

fn tracer(phases: Vec<Phase>) -> TracerOutput {
    TracerOutput {
        phases,
        revert_data: Some(vec![1, 2, 3]),
        accessed_contract_addresses: vec![],
        associated_slots_by_address: AssociatedSlotsByAddress {
            entries: vec![AssociatedSlots { address: sender(), slots: vec![word(1000)] }],
        },
        expected_storage: vec![],
        factory_called_create2_twice: false,
    }
}

fn output(paymaster_context: Vec<u8>, paymaster_info: StakeInfo) -> ValidationOutput {
    ValidationOutput {
        return_info: ValidationReturnInfo {
            pre_op_gas: word(50_000),
            sig_failed: false,
            valid_after: 10,
            valid_until: 20,
            paymaster_context,
        },
        sender_info: unstaked(),
        factory_info: unstaked(),
        paymaster_info,
        aggregator_info: None,
    }
}

fn op(with_factory: bool, with_paymaster: bool) -> UserOperation {
    UserOperation {
        sender: sender(),
        init_code: if with_factory { vec![0xfa; 24] } else { vec![] },
        factory: if with_factory { Some(factory()) } else { None },
        paymaster: if with_paymaster { Some(paymaster()) } else { None },
    }
}

fn context(
    op: &UserOperation,
    phases: Vec<Phase>,
    out: ValidationOutput,
) -> ValidationContext {
    match create_context(op, tracer(phases), ValidationRevert::ValidationOutput(out), Settings::default()) {
        Ok(ctx) => ctx,
        Err(e) => panic!("context refused: {:?}", e),
    }
}

fn violations_of<T: std::fmt::Debug>(r: Result<T, SimulationError>) -> Vec<Violation> {
    match r {
        Err(SimulationError::Violations(v)) => v,
        other => panic!("expected violations, got {:?}", other),
    }
}

fn three_phases() -> Vec<Phase> {
    vec![empty_phase(), empty_phase(), empty_phase()]
}

#[test]
fn default_settings_thresholds() {
    let s = Settings::default();
    assert_eq!(s.min_stake_value, 1_000_000_000_000_000_000);
    assert_eq!(s.min_unstake_delay, 84600);
    let n = Settings::new(5, 7);
    assert_eq!(n.min_unstake_delay, 5);
    assert_eq!(n.min_stake_value, 7);
}

#[test]
fn stake_predicate_boundaries() {
    let s = Settings::default();
    assert!(is_staked(staked(), s));
    let low_stake = StakeInfo { stake: word(999_999_999_999_999_999), unstake_delay_sec: word(84600) };
    assert!(!is_staked(low_stake, s));
    let low_delay = StakeInfo { stake: word(1_000_000_000_000_000_000), unstake_delay_sec: word(84599) };
    assert!(!is_staked(low_delay, s));
    let huge = StakeInfo { stake: Word { high: 1, low: 0 }, unstake_delay_sec: Word { high: 3, low: 0 } };
    assert!(is_staked(huge, s));
}

#[test]
fn stake_predicate_monotonic_example() {
    let s = Settings::default();
    let base = staked();
    let more = StakeInfo { stake: word(2_000_000_000_000_000_000), unstake_delay_sec: word(100_000) };
    assert!(is_staked(base, s));
    assert!(is_staked(more, s));
}

#[test]
fn phase_to_entity() {
    assert_eq!(Entity::from_simulation_phase(0), Some(Entity::Factory));
    assert_eq!(Entity::from_simulation_phase(1), Some(Entity::Account));
    assert_eq!(Entity::from_simulation_phase(2), Some(Entity::Paymaster));
    assert_eq!(Entity::from_simulation_phase(3), None);
}

#[test]
fn entity_infos_lookup() {
    let out = output(vec![], staked());
    let infos = EntityInfos::new(None, sender(), Some(paymaster()), &out, Settings::default());
    assert_eq!(infos.get(Entity::Factory), None);
    assert_eq!(infos.get(Entity::Account), Some(EntityInfo { address: sender(), is_staked: false }));
    assert_eq!(infos.get(Entity::Paymaster), Some(EntityInfo { address: paymaster(), is_staked: true }));
    assert_eq!(infos.get(Entity::Aggregator), None);
    assert_eq!(infos.sender_address(), sender());
}

#[test]
fn associated_slot_ranges() {
    let rel = AssociatedSlotsByAddress {
        entries: vec![
            AssociatedSlots { address: sender(), slots: vec![word(1000)] },
            AssociatedSlots { address: paymaster(), slots: vec![Word { high: 0, low: u128::MAX - 10 }] },
        ],
    };
    assert!(rel.is_associated_slot(sender(), word(1000)));
    assert!(rel.is_associated_slot(sender(), word(1127)));
    assert!(!rel.is_associated_slot(sender(), word(1128)));
    assert!(!rel.is_associated_slot(sender(), word(999)));
    assert!(!rel.is_associated_slot(factory(), word(1000)));
    assert!(rel.is_associated_slot(paymaster(), Word { high: 1, low: 116 }));
    assert!(!rel.is_associated_slot(paymaster(), Word { high: 1, low: 117 }));
}

fn restriction(
    rel: &AssociatedSlotsByAddress,
    wallet_creation: bool,
    entity: Address,
    accessed: Address,
    slot: u128,
) -> StorageRestriction {
    get_storage_restriction(GetStorageRestrictionArgs {
        slots_by_address: rel,
        is_wallet_creation: wallet_creation,
        entry_point_address: ep(),
        entity_address: entity,
        sender_address: sender(),
        accessed_address: accessed,
        slot: word(slot),
    })
}

#[test]
fn classifier_decision_table() {
    let rel = AssociatedSlotsByAddress {
        entries: vec![
            AssociatedSlots { address: sender(), slots: vec![word(1000)] },
            AssociatedSlots { address: paymaster(), slots: vec![word(5000)] },
        ],
    };
    // The sender's own storage, whatever the slot.
    assert_eq!(restriction(&rel, true, paymaster(), sender(), 7), StorageRestriction::Allowed);
    // A sender-associated slot elsewhere.
    assert_eq!(restriction(&rel, false, paymaster(), addr(0x77), 1001), StorageRestriction::Allowed);
    assert_eq!(restriction(&rel, true, paymaster(), addr(0x77), 1001), StorageRestriction::NeedsStake);
    // The entity's own storage, and a slot associated with it.
    assert_eq!(restriction(&rel, false, paymaster(), paymaster(), 3), StorageRestriction::NeedsStake);
    assert_eq!(restriction(&rel, false, paymaster(), addr(0x77), 5005), StorageRestriction::NeedsStake);
    // Anything else.
    assert_eq!(restriction(&rel, false, paymaster(), addr(0x77), 3), StorageRestriction::Banned);
}

#[test]
fn wallet_creation_entry_point_exception() {
    let rel = AssociatedSlotsByAddress {
        entries: vec![AssociatedSlots { address: sender(), slots: vec![word(1000)] }],
    };
    assert_eq!(restriction(&rel, true, sender(), ep(), 1000), StorageRestriction::Allowed);
    assert_eq!(restriction(&rel, true, sender(), addr(0x77), 1000), StorageRestriction::NeedsStake);
}

#[test]
fn context_too_many_phases() {
    let t = tracer(vec![empty_phase(), empty_phase(), empty_phase(), empty_phase()]);
    let r = create_context(&op(false, false), t, ValidationRevert::Unrecognized, Settings::default());
    assert_eq!(violations_of(r), vec![Violation::WrongNumberOfPhases(4)]);
}

#[test]
fn context_did_not_revert() {
    let mut t = tracer(three_phases());
    t.revert_data = None;
    let r = create_context(&op(false, false), t, ValidationRevert::Unrecognized, Settings::default());
    assert_eq!(violations_of(r), vec![Violation::DidNotRevert]);
}

#[test]
fn context_failed_op_blames_last_entity() {
    let t = tracer(vec![empty_phase(), empty_phase()]);
    let r = create_context(
        &op(true, false),
        t,
        ValidationRevert::FailedOp { reason: "AA23 reverted".to_string() },
        Settings::default(),
    );
    assert_eq!(
        violations_of(r),
        vec![Violation::UnintendedRevertWithMessage(Entity::Account, "AA23 reverted".to_string(), Some(sender()))]
    );
    let t = tracer(vec![empty_phase()]);
    let r = create_context(
        &op(true, false),
        t,
        ValidationRevert::FailedOp { reason: "AA13".to_string() },
        Settings::default(),
    );
    assert_eq!(
        violations_of(r),
        vec![Violation::UnintendedRevertWithMessage(Entity::Factory, "AA13".to_string(), Some(factory()))]
    );
}

#[test]
fn context_unrecognized_revert() {
    let t = tracer(three_phases());
    let r = create_context(&op(false, true), t, ValidationRevert::Unrecognized, Settings::default());
    assert_eq!(violations_of(r), vec![Violation::UnintendedRevert(Entity::Paymaster)]);
}

#[test]
fn context_too_few_phases_after_decoding() {
    let t = tracer(vec![empty_phase(), empty_phase()]);
    let r = create_context(
        &op(false, false),
        t,
        ValidationRevert::ValidationOutput(output(vec![], unstaked())),
        Settings::default(),
    );
    assert_eq!(violations_of(r), vec![Violation::WrongNumberOfPhases(2)]);
}

#[test]
fn clean_validation_no_paymaster() {
    let mut phases = three_phases();
    phases[1].storage_accesses = vec![access(sender(), vec![1, 2])];
    let o = op(false, false);
    let ctx = context(&o, phases, output(vec![], unstaked()));
    assert!(!ctx.is_wallet_creation);
    let passed = match check_rules(&ctx, ep(), Settings::default()) {
        Ok(p) => p,
        Err(e) => panic!("{:?}", e),
    };
    assert!(passed.entities_needing_stake.is_empty());
    assert_eq!(passed.accessed_addresses, vec![sender()]);
    let r = finish_validation(ctx, passed, vec![0xbb; 32], vec![0xcc; 32], None, AggregatorOut::NotNeeded, Settings::default());
    let s = r.unwrap();
    assert_eq!(s.block_hash, vec![0xbb; 32]);
    assert_eq!(s.code_hash, vec![0xcc; 32]);
    assert_eq!(s.pre_op_gas, word(50_000));
    assert_eq!(s.valid_time_range.valid_after, 10);
    assert_eq!(s.valid_time_range.valid_until, 20);
    assert!(!s.account_is_staked);
    assert_eq!(s.aggregator_address, None);
    assert_eq!(s.aggregator_signature, None);
}

#[test]
fn forbidden_opcode_in_factory() {
    let mut phases = three_phases();
    phases[0].forbidden_opcodes_used = vec![SELFBALANCE];
    let ctx = context(&op(true, false), phases, output(vec![], unstaked()));
    let r = check_rules(&ctx, ep(), Settings::default());
    assert_eq!(
        violations_of(r),
        vec![Violation::UsedForbiddenOpcode(Entity::Factory, ViolationOpCode(SELFBALANCE))]
    );
}

#[test]
fn banned_storage_read() {
    let x = addr(0x1234);
    let mut phases = three_phases();
    phases[2].storage_accesses = vec![access(x, vec![3, 4]), access(x, vec![5])];
    let ctx = context(&op(false, true), phases, output(vec![], staked()));
    let r = check_rules(&ctx, ep(), Settings::default());
    assert_eq!(violations_of(r), vec![Violation::InvalidStorageAccess(Entity::Paymaster, x)]);
}

#[test]
fn paymaster_with_context_not_staked() {
    let ctx = context(&op(false, true), three_phases(), output(vec![1], unstaked()));
    let r = check_rules(&ctx, ep(), Settings::default());
    assert_eq!(
        violations_of(r),
        vec![Violation::NotStaked(
            Entity::Paymaster,
            paymaster(),
            word(1_000_000_000_000_000_000),
            word(84600)
        )]
    );
}

#[test]
fn paymaster_with_context_staked_needs_stake() {
    let ctx = context(&op(false, true), three_phases(), output(vec![1], staked()));
    let passed = check_rules(&ctx, ep(), Settings::default()).unwrap();
    assert_eq!(passed.entities_needing_stake, vec![Entity::Paymaster]);
}

#[test]
fn aggregator_needs_stake() {
    let mut out = output(vec![], unstaked());
    out.aggregator_info = Some(AggregatorInfo { address: addr(0xa9), stake_info: staked() });
    let ctx = context(&op(false, false), three_phases(), out);
    let passed = check_rules(&ctx, ep(), Settings::default()).unwrap();
    assert_eq!(passed.entities_needing_stake, vec![Entity::Aggregator]);
    let mut out = output(vec![], unstaked());
    out.aggregator_info = Some(AggregatorInfo { address: addr(0xa9), stake_info: unstaked() });
    let ctx = context(&op(false, false), three_phases(), out);
    assert_eq!(
        violations_of(check_rules(&ctx, ep(), Settings::default())),
        vec![Violation::NotStaked(Entity::Aggregator, addr(0xa9), word(1_000_000_000_000_000_000), word(84600))]
    );
}

#[test]
fn violations_come_in_severity_order() {
    let mut phases = three_phases();
    phases[0].called_with_value = true;
    phases[0].storage_accesses = vec![access(addr(0x66), vec![1])];
    phases[1].forbidden_opcodes_used = vec![SELFBALANCE, 0x31];
    phases[1].ran_out_of_gas = true;
    phases[1].used_invalid_gas_opcode = true;
    phases[1].undeployed_contract_accesses = vec![addr(0x70), addr(0x71)];
    phases[1].storage_accesses = vec![access(addr(0x67), vec![2]), access(addr(0x66), vec![3])];
    phases[2].called_handle_ops = true;
    let mut t = tracer(phases);
    t.factory_called_create2_twice = true;
    let o = op(true, false);
    let ctx = match create_context(
        &o,
        t,
        ValidationRevert::ValidationOutput(output(vec![], unstaked())),
        Settings::default(),
    ) {
        Ok(c) => c,
        Err(e) => panic!("{:?}", e),
    };
    let v = violations_of(check_rules(&ctx, ep(), Settings::default()));
    assert_eq!(
        v,
        vec![
            Violation::UsedForbiddenOpcode(Entity::Account, ViolationOpCode(SELFBALANCE)),
            Violation::UsedForbiddenOpcode(Entity::Account, ViolationOpCode(0x31)),
            Violation::InvalidGasOpcode(Entity::Account),
            Violation::FactoryCalledCreate2Twice,
            Violation::InvalidStorageAccess(Entity::Factory, addr(0x66)),
            Violation::InvalidStorageAccess(Entity::Account, addr(0x67)),
            Violation::InvalidStorageAccess(Entity::Account, addr(0x66)),
            Violation::CallHadValue(Entity::Factory),
            Violation::OutOfGas(Entity::Account),
            Violation::AccessedUndeployedContract(Entity::Account, addr(0x70)),
            Violation::AccessedUndeployedContract(Entity::Account, addr(0x71)),
        ]
    );
    let ranks: Vec<u8> = v.iter().map(|x| x.severity()).collect();
    let mut sorted = ranks.clone();
    sorted.sort();
    assert_eq!(ranks, sorted);
}

#[test]
fn phases_without_entity_are_skipped() {
    let mut phases = three_phases();
    phases[2].called_handle_ops = true;
    phases[0].forbidden_opcodes_used = vec![SELFBALANCE];
    let ctx = context(&op(false, false), phases, output(vec![], unstaked()));
    assert!(check_rules(&ctx, ep(), Settings::default()).is_ok());
}

#[test]
fn accessed_addresses_are_unique() {
    let mut phases = three_phases();
    phases[1].storage_accesses = vec![access(sender(), vec![1]), access(sender(), vec![2])];
    phases[2].storage_accesses = vec![access(paymaster(), vec![1]), access(sender(), vec![9])];
    let ctx = context(&op(false, true), phases, output(vec![], staked()));
    let passed = check_rules(&ctx, ep(), Settings::default()).unwrap();
    assert_eq!(passed.accessed_addresses, vec![sender(), paymaster()]);
    assert_eq!(passed.entities_needing_stake, vec![Entity::Paymaster]);
}

#[test]
fn code_hash_mismatch() {
    let ctx = context(&op(false, false), three_phases(), output(vec![], unstaked()));
    let passed = check_rules(&ctx, ep(), Settings::default()).unwrap();
    let r = finish_validation(
        ctx,
        passed,
        vec![0; 32],
        vec![1; 32],
        Some(vec![2; 32]),
        AggregatorOut::NotNeeded,
        Settings::default(),
    );
    assert_eq!(violations_of(r), vec![Violation::CodeHashChanged]);
}

#[test]
fn aggregator_failure_after_code_hash_change() {
    let mut out = output(vec![], unstaked());
    out.aggregator_info = Some(AggregatorInfo { address: addr(0xa9), stake_info: staked() });
    let ctx = context(&op(false, false), three_phases(), out);
    let passed = check_rules(&ctx, ep(), Settings::default()).unwrap();
    let r = finish_validation(
        ctx,
        passed,
        vec![0; 32],
        vec![1; 32],
        Some(vec![2; 32]),
        AggregatorOut::ValidationFailed,
        Settings::default(),
    );
    assert_eq!(violations_of(r), vec![Violation::CodeHashChanged, Violation::AggregatorValidationFailed]);
}

#[test]
fn aggregator_signature_and_expected_storage_kept() {
    let mut out = output(vec![], staked());
    out.sender_info = staked();
    out.aggregator_info = Some(AggregatorInfo { address: addr(0xa9), stake_info: staked() });
    let o = op(false, false);
    let mut t = tracer(three_phases());
    t.expected_storage = vec![
        ExpectedStorage {
            address: addr(1),
            slots: vec![ExpectedSlot { slot: word(1), value: word(10) }, ExpectedSlot { slot: word(2), value: word(20) }],
        },
        ExpectedStorage { address: addr(2), slots: vec![ExpectedSlot { slot: word(3), value: word(30) }] },
    ];
    let ctx = create_context(&o, t, ValidationRevert::ValidationOutput(out), Settings::default()).unwrap();
    let passed = check_rules(&ctx, ep(), Settings::default()).unwrap();
    let s = finish_validation(
        ctx,
        passed,
        vec![0; 32],
        vec![1; 32],
        Some(vec![1; 32]),
        AggregatorOut::SuccessWithSignature(vec![0xde, 0xad]),
        Settings::default(),
    )
    .unwrap();
    assert!(s.account_is_staked);
    assert_eq!(s.aggregator_address, Some(addr(0xa9)));
    assert_eq!(s.aggregator_signature, Some(vec![0xde, 0xad]));
    assert_eq!(s.entities_needing_stake, vec![Entity::Aggregator]);
    assert_eq!(
        s.expected_storage_slots,
        vec![
            ExpectedStorageSlot { address: addr(1), slot: word(1), value: word(10) },
            ExpectedStorageSlot { address: addr(1), slot: word(2), value: word(20) },
            ExpectedStorageSlot { address: addr(2), slot: word(3), value: word(30) },
        ]
    );
}

#[test]
fn code_hash_of_no_code_is_empty_digest() {
    let h = code_hash(&vec![]);
    let expected: Vec<u8> = vec![
        0xc5, 0xd2, 0x46, 0x01, 0x86, 0xf7, 0x23, 0x3c, 0x92, 0x7e, 0x7d, 0xb2, 0xdc, 0xc7, 0x03, 0xc0,
        0xe5, 0x00, 0xb6, 0x53, 0xca, 0x82, 0x27, 0x3b, 0x7b, 0xfa, 0xd8, 0x04, 0x5d, 0x85, 0xa4, 0x70,
    ];
    assert_eq!(h, expected);
}

#[test]
fn code_hash_joins_codes_in_order() {
    let a = code_hash(&vec![vec![1, 2], vec![3]]);
    let b = code_hash(&vec![vec![1], vec![2, 3]]);
    let c = code_hash(&vec![vec![3], vec![1, 2]]);
    assert_eq!(a, b);
    assert_ne!(a, c);
    assert_eq!(a.len(), 32);
    assert_ne!(a, vec![1, 2, 3]);
}

fn error_string_payload(reason: &str) -> Vec<u8> {
    let mut data = vec![0x08, 0xc3, 0x79, 0xa0];
    let mut offset = vec![0u8; 32];
    offset[31] = 0x20;
    data.extend(offset);
    let mut len = vec![0u8; 32];
    len[31] = reason.len() as u8;
    data.extend(len);
    let mut body = reason.as_bytes().to_vec();
    body.resize(32, 0);
    data.extend(body);
    data
}

#[test]
fn revert_reason_decodes() {
    let data = error_string_payload("boom");
    assert_eq!(ContractRevertError::decode(&data), Some(ContractRevertError { reason: "boom".to_string() }));
    assert_eq!(account_revert_text(&data), "boom");
    assert_eq!(ContractRevertError::decode(&vec![0x08, 0xc3, 0x79]), None);
    let mut wrong = data.clone();
    wrong[0] = 0x09;
    assert_eq!(ContractRevertError::decode(&wrong), None);
}

#[test]
fn unknown_revert_rendered_in_hex() {
    assert_eq!(account_revert_text(&vec![0xde, 0xad, 0x0f]), "0xdead0f");
    assert_eq!(account_revert_text(&vec![]), "0x");
}

fn gas_phases() -> Vec<Phase> {
    let mut phases = three_phases();
    phases[0].gas_used = 30_000;
    phases[1].gas_used = 70_000;
    phases[2].gas_used = 5_000;
    phases
}

#[test]
fn handle_ops_happy_path() {
    let t = tracer(gas_phases());
    let r = gas_simulation_outcome(&t, Ok(EntryPointRevert::ExecutionResult));
    assert_eq!(r, Ok(GasSimulationSuccess { call_gas: word(70_000), verification_gas: word(30_000) }));
}

#[test]
fn handle_ops_errors() {
    let mut t = tracer(gas_phases());
    t.revert_data = None;
    assert_eq!(gas_simulation_outcome(&t, Ok(EntryPointRevert::ExecutionResult)), Err(GasSimulationError::DidNotRevert));
    let t = tracer(gas_phases());
    assert_eq!(
        gas_simulation_outcome(&t, Err("bad payload".to_string())),
        Err(GasSimulationError::Other("bad payload".to_string()))
    );
    assert_eq!(
        gas_simulation_outcome(&t, Ok(EntryPointRevert::Other("FailedOp".to_string()))),
        Err(GasSimulationError::DidNotRevertWithExecutionResult("FailedOp".to_string()))
    );
    let t = tracer(vec![empty_phase(), empty_phase()]);
    assert_eq!(
        gas_simulation_outcome(&t, Ok(EntryPointRevert::ExecutionResult)),
        Err(GasSimulationError::IncorrectPhaseCount(2))
    );
    let mut phases = gas_phases();
    phases[1].account_revert_data = Some(error_string_payload("no funds"));
    let t = tracer(phases);
    assert_eq!(
        gas_simulation_outcome(&t, Ok(EntryPointRevert::ExecutionResult)),
        Err(GasSimulationError::AccountExecutionReverted("no funds".to_string()))
    );
    let mut phases = gas_phases();
    phases[1].account_revert_data = Some(vec![0xab]);
    let t = tracer(phases);
    assert_eq!(
        gas_simulation_outcome(&t, Ok(EntryPointRevert::ExecutionResult)),
        Err(GasSimulationError::AccountExecutionReverted("0xab".to_string()))
    );
}

#[test]
fn same_trace_same_report() {
    let build = || {
        let mut phases = three_phases();
        phases[1].forbidden_opcodes_used = vec![SELFBALANCE];
        phases[2].storage_accesses = vec![access(addr(0x55), vec![8])];
        context(&op(false, true), phases, output(vec![1], unstaked()))
    };
    let a = violations_of(check_rules(&build(), ep(), Settings::default()));
    let b = violations_of(check_rules(&build(), ep(), Settings::default()));
    assert_eq!(a, b);
    assert_eq!(
        a,
        vec![
            Violation::UsedForbiddenOpcode(Entity::Account, ViolationOpCode(SELFBALANCE)),
            Violation::InvalidStorageAccess(Entity::Paymaster, addr(0x55)),
            Violation::NotStaked(Entity::Paymaster, paymaster(), word(1_000_000_000_000_000_000), word(84600)),
        ]
    );
}
