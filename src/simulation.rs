use vstd::prelude::*;
use crate::codec::{account_revert_text, revert_text};
use crate::context::ValidationContext;
use crate::rules::RulesPassed;
use crate::tracer::{ExpectedStorage, TracerOutput};
use crate::types::{is_staked, spec_is_staked, Address, Entity, Settings, Word};
use crate::violation::{reports, GasSimulationError, SimulationError, Violation};

verus! {

/// The window of time in which the operation is valid.
#[derive(Clone, Copy, Debug, PartialEq, Eq, Structural)]
pub struct ValidTimeRange {
    pub valid_after: u64,
    pub valid_until: u64,
}

/// One storage slot, with the value validation saw in it.
#[derive(Clone, Copy, Debug, PartialEq, Eq, Structural)]
pub struct ExpectedStorageSlot {
    pub address: Address,
    pub slot: Word,
    pub value: Word,
}

/// The result of a validation that broke no rule.
#[derive(Debug, PartialEq, Eq)]
pub struct SimulationSuccess {
    pub block_hash: Vec<u8>,
    pub pre_op_gas: Word,
    pub signature_failed: bool,
    pub valid_time_range: ValidTimeRange,
    pub aggregator_address: Option<Address>,
    pub aggregator_signature: Option<Vec<u8>>,
    pub code_hash: Vec<u8>,
    pub entities_needing_stake: Vec<Entity>,
    pub account_is_staked: bool,
    /// Each address once.
    pub accessed_addresses: Vec<Address>,
    pub expected_storage_slots: Vec<ExpectedStorageSlot>,
}

/// What came of asking the aggregator to check the operation's signature.
#[derive(Clone, Debug, PartialEq, Eq)]
pub enum AggregatorOut {
    /// The operation names no aggregator.
    NotNeeded,
    SuccessWithSignature(Vec<u8>),
    /// The call was refused with a client error of the node.
    ValidationFailed,
}

/// The address of the aggregator whose signature check is to be called.
pub fn aggregator_address(ctx: &ValidationContext) -> (r: Option<Address>)
    ensures
        r == match ctx.entry_point_out.aggregator_info {
            Some(agg) => Some(agg.address),
            None => None,
        },
{
    match &ctx.entry_point_out.aggregator_info {
        Some(agg) => Some(agg.address),
        None => None,
    }
}

/// The violations found after the rules passed: a changed code hash, then a
/// failed aggregator check.
pub open spec fn post_violations(
    code_hash: Seq<u8>,
    expected_code_hash: Option<Vec<u8>>,
    aggregator_out: AggregatorOut,
) -> Seq<Violation> {
    (if expected_code_hash matches Some(h) && h@ != code_hash {
        seq![Violation::CodeHashChanged]
    } else {
        seq![]
    }) + (if aggregator_out is ValidationFailed {
        seq![Violation::AggregatorValidationFailed]
    } else {
        seq![]
    })
}

/// The `(address, slot, value)` triples of the expected storage, flattened in order.
pub open spec fn flat_slots(storage: Seq<ExpectedStorage>) -> Seq<ExpectedStorageSlot>
    decreases storage.len(),
{
    if storage.len() == 0 {
        seq![]
    } else {
        flat_slots(storage.drop_last()) + storage.last().slots@.map_values(
            |s: crate::tracer::ExpectedSlot|
                ExpectedStorageSlot { address: storage.last().address, slot: s.slot, value: s.value },
        )
    }
}

fn flatten_expected_storage(storage: &Vec<ExpectedStorage>) -> (r: Vec<ExpectedStorageSlot>)
    ensures
        r@ == flat_slots(storage@),
{
    let mut out: Vec<ExpectedStorageSlot> = Vec::new();
    let mut i: usize = 0;
    while i < storage.len()
        invariant
            i <= storage@.len(),
            out@ == flat_slots(storage@.take(i as int)),
        decreases storage@.len() - i,
    {
        let entry = &storage[i];
        let ghost before = out@;
        let mut j: usize = 0;
        while j < entry.slots.len()
            invariant
                j <= entry.slots@.len(),
                out@ =~= before + entry.slots@.take(j as int).map_values(
                    |s: crate::tracer::ExpectedSlot|
                        ExpectedStorageSlot { address: entry.address, slot: s.slot, value: s.value },
                ),
            decreases entry.slots@.len() - j,
        {
            let s = entry.slots[j];
            out.push(ExpectedStorageSlot { address: entry.address, slot: s.slot, value: s.value });
            j += 1;
            proof {
                assert(out@ =~= before + entry.slots@.take(j as int).map_values(
                    |s: crate::tracer::ExpectedSlot|
                        ExpectedStorageSlot { address: entry.address, slot: s.slot, value: s.value },
                ));
            }
        }
        proof {
            assert(entry.slots@.take(j as int) =~= entry.slots@);
            assert(storage@.take(i + 1).drop_last() =~= storage@.take(i as int));
            assert(out@ =~= flat_slots(storage@.take(i + 1)));
        }
        i += 1;
    }
    proof {
        assert(storage@.take(i as int) =~= storage@);
    }
    out
}

/// Whether two byte strings are equal.
pub fn bytes_equal(a: &Vec<u8>, b: &Vec<u8>) -> (r: bool)
    ensures
        r == (a@ == b@),
{
    if a.len() != b.len() {
        return false;
    }
    let mut i: usize = 0;
    while i < a.len()
        invariant
            a@.len() == b@.len(),
            i <= a@.len(),
            forall|j: int| 0 <= j < i ==> a@[j] == b@[j],
        decreases a@.len() - i,
    {
        if a[i] != b[i] {
            return false;
        }
        i += 1;
    }
    proof {
        assert(a@ =~= b@);
    }
    true
}

/// The last step of validation, once the rules passed and the code hash and
/// the aggregator's answer are in: reports a changed code hash or a failed
/// aggregator check, and otherwise assembles the result.
pub fn finish_validation(
    ctx: ValidationContext,
    passed: RulesPassed,
    block_hash: Vec<u8>,
    code_hash: Vec<u8>,
    expected_code_hash: Option<Vec<u8>>,
    aggregator_out: AggregatorOut,
    sim_settings: Settings,
) -> (r: Result<SimulationSuccess, SimulationError>)
    ensures
        post_violations(code_hash@, expected_code_hash, aggregator_out).len() > 0 ==> reports(
            r,
            post_violations(code_hash@, expected_code_hash, aggregator_out),
        ),
        post_violations(code_hash@, expected_code_hash, aggregator_out).len() == 0 ==> (r matches Ok(
            s,
        ) && s.block_hash == block_hash && s.code_hash == code_hash
            && s.pre_op_gas == ctx.entry_point_out.return_info.pre_op_gas
            && s.signature_failed == ctx.entry_point_out.return_info.sig_failed
            && s.valid_time_range == (ValidTimeRange {
            valid_after: ctx.entry_point_out.return_info.valid_after,
            valid_until: ctx.entry_point_out.return_info.valid_until,
        }) && s.aggregator_address == match ctx.entry_point_out.aggregator_info {
            Some(agg) => Some(agg.address),
            None => None,
        } && s.aggregator_signature == match aggregator_out {
            AggregatorOut::SuccessWithSignature(sig) => Some(sig),
            _ => None,
        } && s.entities_needing_stake == passed.entities_needing_stake && s.accessed_addresses
            == passed.accessed_addresses && s.account_is_staked == spec_is_staked(
            ctx.entry_point_out.sender_info,
            sim_settings,
        ) && s.expected_storage_slots@ == flat_slots(ctx.tracer_out.expected_storage@)),
{
    let mut violations: Vec<Violation> = Vec::new();
    if let Some(expected) = &expected_code_hash {
        if !bytes_equal(expected, &code_hash) {
            violations.push(Violation::CodeHashChanged);
        }
    }
    let aggregator_signature = match aggregator_out {
        AggregatorOut::NotNeeded => None,
        AggregatorOut::SuccessWithSignature(sig) => Some(sig),
        AggregatorOut::ValidationFailed => {
            violations.push(Violation::AggregatorValidationFailed);
            None
        },
    };
    proof {
        assert(violations@ =~= post_violations(code_hash@, expected_code_hash, aggregator_out));
    }
    if violations.len() > 0 {
        return Err(SimulationError::Violations(violations));
    }
    let expected_storage_slots = flatten_expected_storage(&ctx.tracer_out.expected_storage);
    let aggregator_address = aggregator_address(&ctx);
    let account_is_staked = is_staked(ctx.entry_point_out.sender_info, sim_settings);
    let info = &ctx.entry_point_out.return_info;
    Ok(SimulationSuccess {
        block_hash,
        pre_op_gas: info.pre_op_gas,
        signature_failed: info.sig_failed,
        valid_time_range: ValidTimeRange {
            valid_after: info.valid_after,
            valid_until: info.valid_until,
        },
        aggregator_address,
        aggregator_signature,
        code_hash,
        entities_needing_stake: passed.entities_needing_stake,
        account_is_staked,
        accessed_addresses: passed.accessed_addresses,
        expected_storage_slots,
    })
}


/// The gas that a full execution of the operation used.
#[derive(Clone, Copy, Debug, PartialEq, Eq, Structural)]
pub struct GasSimulationSuccess {
    /// Gas the entry point spent executing the operation's call.
    pub call_gas: Word,
    /// Gas spent validating the operation, without the pre-verification gas.
    pub verification_gas: Word,
}

/// What the revert payload of a traced `handleOps` call decoded to.
#[derive(Clone, Debug, PartialEq, Eq)]
pub enum EntryPointRevert {
    /// `ExecutionResult`: execution ran to the end.
    ExecutionResult,
    /// Another of the entry point's errors, by name.
    Other(String),
}

/// Interprets a traced `handleOps` call. `revert` is what its revert payload
/// decoded to, or why it did not decode. The gas comes from the trace, since
/// the entry point's own figure counts the pre-verification gas as well.
pub fn gas_simulation_outcome(tracer_out: &TracerOutput, revert: Result<EntryPointRevert, String>) -> (r:
    Result<GasSimulationSuccess, GasSimulationError>)
    ensures
        tracer_out.revert_data is None ==> r == Err::<GasSimulationSuccess, _>(
            GasSimulationError::DidNotRevert,
        ),
        tracer_out.revert_data is Some ==> match revert {
            Err(msg) => r == Err::<GasSimulationSuccess, _>(GasSimulationError::Other(msg)),
            Ok(EntryPointRevert::Other(name)) => r == Err::<GasSimulationSuccess, _>(
                GasSimulationError::DidNotRevertWithExecutionResult(name),
            ),
            Ok(EntryPointRevert::ExecutionResult) => if tracer_out.phases@.len() != 3 {
                r == Err::<GasSimulationSuccess, _>(
                    GasSimulationError::IncorrectPhaseCount(tracer_out.phases@.len() as usize),
                )
            } else {
                match tracer_out.phases@[1].account_revert_data {
                    Some(data) => r matches Err(GasSimulationError::AccountExecutionReverted(text))
                        && text@ == revert_text(data@),
                    None => r == Ok::<_, GasSimulationError>(
                        GasSimulationSuccess {
                            call_gas: Word { high: 0, low: tracer_out.phases@[1].gas_used as u128 },
                            verification_gas: Word {
                                high: 0,
                                low: tracer_out.phases@[0].gas_used as u128,
                            },
                        },
                    ),
                }
            },
        },
{
    if tracer_out.revert_data.is_none() {
        return Err(GasSimulationError::DidNotRevert);
    }
    match revert {
        Err(msg) => {
            return Err(GasSimulationError::Other(msg));
        },
        Ok(EntryPointRevert::Other(name)) => {
            return Err(GasSimulationError::DidNotRevertWithExecutionResult(name));
        },
        Ok(EntryPointRevert::ExecutionResult) => {},
    }
    if tracer_out.phases.len() != 3 {
        return Err(GasSimulationError::IncorrectPhaseCount(tracer_out.phases.len()));
    }
    if let Some(inner_revert) = &tracer_out.phases[1].account_revert_data {
        return Err(GasSimulationError::AccountExecutionReverted(account_revert_text(inner_revert)));
    }
    Ok(GasSimulationSuccess {
        call_gas: Word { high: 0, low: tracer_out.phases[1].gas_used as u128 },
        verification_gas: Word { high: 0, low: tracer_out.phases[0].gas_used as u128 },
    })
}

} // verus!
