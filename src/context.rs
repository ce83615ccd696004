use vstd::prelude::*;
use crate::tracer::TracerOutput;
use crate::types::{
    is_staked, phase_entity, spec_is_staked, Address, Entity, Settings, StakeInfo, Word,
};
use crate::violation::{reports, SimulationError, Violation};

verus! {

/// The parts of a user operation that validation rules depend on.
#[derive(Clone, Debug, PartialEq, Eq)]
pub struct UserOperation {
    pub sender: Address,
    pub init_code: Vec<u8>,
    /// The factory named at the start of `init_code`, if any.
    pub factory: Option<Address>,
    /// The paymaster named at the start of the paymaster data, if any.
    pub paymaster: Option<Address>,
}

impl UserOperation {
    pub open spec fn spec_is_wallet_creation(&self) -> bool {
        self.init_code@.len() > 0
    }

    pub fn is_wallet_creation(&self) -> (r: bool)
        ensures
            r == self.spec_is_wallet_creation(),
    {
        self.init_code.len() > 0
    }
}

/// The entry point's summary of a successful validation.
#[derive(Clone, Debug, PartialEq, Eq)]
pub struct ValidationReturnInfo {
    pub pre_op_gas: Word,
    pub sig_failed: bool,
    pub valid_after: u64,
    pub valid_until: u64,
    pub paymaster_context: Vec<u8>,
}

#[derive(Clone, Copy, Debug, PartialEq, Eq, Structural)]
pub struct AggregatorInfo {
    pub address: Address,
    pub stake_info: StakeInfo,
}

/// The decoded payload with which `simulateValidation` reverts on success.
#[derive(Clone, Debug, PartialEq, Eq)]
pub struct ValidationOutput {
    pub return_info: ValidationReturnInfo,
    pub sender_info: StakeInfo,
    pub factory_info: StakeInfo,
    pub paymaster_info: StakeInfo,
    pub aggregator_info: Option<AggregatorInfo>,
}

/// What the revert payload of `simulateValidation` decoded to.
#[derive(Clone, Debug, PartialEq, Eq)]
pub enum ValidationRevert {
    /// `FailedOp(opIndex, reason)`.
    FailedOp { reason: String },
    ValidationOutput(ValidationOutput),
    /// Neither of the two shapes.
    Unrecognized,
}

#[derive(Clone, Copy, Debug, PartialEq, Eq, Structural)]
pub struct EntityInfo {
    pub address: Address,
    pub is_staked: bool,
}

/// The address and stake status of each entity of one operation.
#[derive(Clone, Copy, Debug, PartialEq, Eq, Structural)]
pub struct EntityInfos {
    pub factory: Option<EntityInfo>,
    pub sender: EntityInfo,
    pub paymaster: Option<EntityInfo>,
}

pub open spec fn info_of(address: Option<Address>, stake: StakeInfo, settings: Settings) -> Option<
    EntityInfo,
> {
    match address {
        Some(a) => Some(EntityInfo { address: a, is_staked: spec_is_staked(stake, settings) }),
        None => None,
    }
}

impl EntityInfos {
    pub fn new(
        factory_address: Option<Address>,
        sender_address: Address,
        paymaster_address: Option<Address>,
        entry_point_out: &ValidationOutput,
        sim_settings: Settings,
    ) -> (r: EntityInfos)
        ensures
            r.factory == info_of(factory_address, entry_point_out.factory_info, sim_settings),
            r.sender == (EntityInfo {
                address: sender_address,
                is_staked: spec_is_staked(entry_point_out.sender_info, sim_settings),
            }),
            r.paymaster == info_of(paymaster_address, entry_point_out.paymaster_info, sim_settings),
    {
        let factory = match factory_address {
            Some(address) => Some(
                EntityInfo {
                    address,
                    is_staked: is_staked(entry_point_out.factory_info, sim_settings),
                },
            ),
            None => None,
        };
        let sender = EntityInfo {
            address: sender_address,
            is_staked: is_staked(entry_point_out.sender_info, sim_settings),
        };
        let paymaster = match paymaster_address {
            Some(address) => Some(
                EntityInfo {
                    address,
                    is_staked: is_staked(entry_point_out.paymaster_info, sim_settings),
                },
            ),
            None => None,
        };
        EntityInfos { factory, sender, paymaster }
    }

    pub open spec fn spec_get(self, entity: Entity) -> Option<EntityInfo> {
        match entity {
            Entity::Factory => self.factory,
            Entity::Account => Some(self.sender),
            Entity::Paymaster => self.paymaster,
            Entity::Aggregator => None,
        }
    }

    pub fn get(self, entity: Entity) -> (r: Option<EntityInfo>)
        ensures
            r == self.spec_get(entity),
    {
        match entity {
            Entity::Factory => self.factory,
            Entity::Account => Some(self.sender),
            Entity::Paymaster => self.paymaster,
            Entity::Aggregator => None,
        }
    }

    pub fn sender_address(self) -> (r: Address)
        ensures
            r == self.sender.address,
    {
        self.sender.address
    }
}

/// Everything the rule engine needs about one traced validation.
#[derive(Debug)]
pub struct ValidationContext {
    pub entity_infos: EntityInfos,
    pub tracer_out: TracerOutput,
    pub entry_point_out: ValidationOutput,
    pub is_wallet_creation: bool,
}

/// The address of the entity that ran last, as far as the operation names it.
pub open spec fn entity_address_of(op: UserOperation, entity: Entity) -> Option<Address> {
    match entity {
        Entity::Factory => op.factory,
        Entity::Account => Some(op.sender),
        Entity::Paymaster => op.paymaster,
        Entity::Aggregator => None,
    }
}

/// Checks the shape of a traced `simulateValidation` call and builds the
/// context for the rule engine. Too many phases are reported first, then a
/// missing or failing revert (blamed on the entity of the last phase), and
/// too few phases last, so that an early legitimate failure keeps its reason.
pub fn create_context(
    op: &UserOperation,
    tracer_out: TracerOutput,
    revert: ValidationRevert,
    sim_settings: Settings,
) -> (r: Result<ValidationContext, SimulationError>)
    requires
        tracer_out.phases@.len() <= u32::MAX,
        tracer_out.revert_data is Some ==> tracer_out.phases@.len() > 0,
    ensures
        ({
            let n = tracer_out.phases@.len();
            let last = phase_entity(n - 1)->Some_0;
            &&& n > 3 ==> reports(r, seq![Violation::WrongNumberOfPhases(n as u32)])
            &&& n <= 3 && tracer_out.revert_data is None ==> reports(r, seq![Violation::DidNotRevert])
            &&& n <= 3 && tracer_out.revert_data is Some ==> match revert {
                ValidationRevert::FailedOp { reason } => reports(
                    r,
                    seq![
                        Violation::UnintendedRevertWithMessage(
                            last,
                            reason,
                            entity_address_of(*op, last),
                        ),
                    ],
                ),
                ValidationRevert::Unrecognized => reports(
                    r,
                    seq![Violation::UnintendedRevert(last)],
                ),
                ValidationRevert::ValidationOutput(out) => if n < 3 {
                    reports(r, seq![Violation::WrongNumberOfPhases(n as u32)])
                } else {
                    r matches Ok(ctx) && ctx.tracer_out == tracer_out && ctx.entry_point_out == out
                        && ctx.is_wallet_creation == op.spec_is_wallet_creation()
                        && ctx.entity_infos == (EntityInfos {
                        factory: info_of(op.factory, out.factory_info, sim_settings),
                        sender: EntityInfo {
                            address: op.sender,
                            is_staked: spec_is_staked(out.sender_info, sim_settings),
                        },
                        paymaster: info_of(op.paymaster, out.paymaster_info, sim_settings),
                    })
                },
            }
        }),
{
    let num_phases = tracer_out.phases.len() as u32;
    if num_phases > 3 {
        return Err(SimulationError::single(Violation::WrongNumberOfPhases(num_phases)));
    }
    if tracer_out.revert_data.is_none() {
        return Err(SimulationError::single(Violation::DidNotRevert));
    }
    let last_entity = match Entity::from_simulation_phase(tracer_out.phases.len() - 1) {
        Some(e) => e,
        None => Entity::Factory,
    };
    let entry_point_out = match revert {
        ValidationRevert::FailedOp { reason } => {
            let entity_addr = match last_entity {
                Entity::Factory => op.factory,
                Entity::Paymaster => op.paymaster,
                Entity::Account => Some(op.sender),
                Entity::Aggregator => None,
            };
            return Err(
                SimulationError::single(Violation::UnintendedRevertWithMessage(last_entity, reason, entity_addr)),
            );
        },
        ValidationRevert::Unrecognized => {
            return Err(SimulationError::single(Violation::UnintendedRevert(last_entity)));
        },
        ValidationRevert::ValidationOutput(out) => out,
    };
    let entity_infos = EntityInfos::new(
        op.factory,
        op.sender,
        op.paymaster,
        &entry_point_out,
        sim_settings,
    );
    if num_phases < 3 {
        return Err(SimulationError::single(Violation::WrongNumberOfPhases(num_phases)));
    }
    let is_wallet_creation = op.is_wallet_creation();
    Ok(ValidationContext { entity_infos, tracer_out, entry_point_out, is_wallet_creation })
}

} // verus!
