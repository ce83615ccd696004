use vstd::prelude::*;
use crate::types::{Address, Entity, Word};

verus! {

/// The byte of an EVM opcode that validation must not use.
#[derive(Clone, Copy, Debug, PartialEq, Eq, Structural, PartialOrd, Ord, Hash)]
pub struct ViolationOpCode(pub u8);

/// A rule that a user operation's validation broke. The variants are
/// declared from the most severe to the least.
#[derive(Clone, Debug, PartialEq, Eq, PartialOrd, Ord)]
pub enum Violation {
    UnintendedRevertWithMessage(Entity, String, Option<Address>),
    UsedForbiddenOpcode(Entity, ViolationOpCode),
    InvalidGasOpcode(Entity),
    FactoryCalledCreate2Twice,
    InvalidStorageAccess(Entity, Address),
    NotStaked(Entity, Address, Word, Word),
    UnintendedRevert(Entity),
    DidNotRevert,
    WrongNumberOfPhases(u32),
    CallHadValue(Entity),
    OutOfGas(Entity),
    AccessedUndeployedContract(Entity, Address),
    CalledHandleOps(Entity),
    CodeHashChanged,
    AggregatorValidationFailed,
}

/// The position of a violation's variant in the severity order.
pub open spec fn severity(v: Violation) -> int {
    match v {
        Violation::UnintendedRevertWithMessage(..) => 0,
        Violation::UsedForbiddenOpcode(..) => 1,
        Violation::InvalidGasOpcode(..) => 2,
        Violation::FactoryCalledCreate2Twice => 3,
        Violation::InvalidStorageAccess(..) => 4,
        Violation::NotStaked(..) => 5,
        Violation::UnintendedRevert(..) => 6,
        Violation::DidNotRevert => 7,
        Violation::WrongNumberOfPhases(..) => 8,
        Violation::CallHadValue(..) => 9,
        Violation::OutOfGas(..) => 10,
        Violation::AccessedUndeployedContract(..) => 11,
        Violation::CalledHandleOps(..) => 12,
        Violation::CodeHashChanged => 13,
        Violation::AggregatorValidationFailed => 14,
    }
}

impl Violation {
    pub fn severity(&self) -> (r: u8)
        ensures
            r as int == severity(*self),
    {
        match self {
            Violation::UnintendedRevertWithMessage(..) => 0,
            Violation::UsedForbiddenOpcode(..) => 1,
            Violation::InvalidGasOpcode(..) => 2,
            Violation::FactoryCalledCreate2Twice => 3,
            Violation::InvalidStorageAccess(..) => 4,
            Violation::NotStaked(..) => 5,
            Violation::UnintendedRevert(..) => 6,
            Violation::DidNotRevert => 7,
            Violation::WrongNumberOfPhases(..) => 8,
            Violation::CallHadValue(..) => 9,
            Violation::OutOfGas(..) => 10,
            Violation::AccessedUndeployedContract(..) => 11,
            Violation::CalledHandleOps(..) => 12,
            Violation::CodeHashChanged => 13,
            Violation::AggregatorValidationFailed => 14,
        }
    }
}

/// Why validation simulation did not succeed.
#[derive(Debug, PartialEq, Eq)]
pub enum SimulationError {
    /// The rules that the operation broke, most severe first.
    Violations(Vec<Violation>),
    /// A fault of the node or of the data it returned.
    Other(String),
}

/// Whether `r` is the error that reports exactly the violations `vs`.
pub open spec fn reports<T>(r: Result<T, SimulationError>, vs: Seq<Violation>) -> bool {
    r matches Err(SimulationError::Violations(v)) && v@ == vs
}

impl SimulationError {
    /// The error that reports one violation.
    pub fn single(v: Violation) -> (r: SimulationError)
        ensures
            r matches SimulationError::Violations(vs) && vs@ == seq![v],
    {
        let mut vs: Vec<Violation> = Vec::new();
        vs.push(v);
        proof {
            assert(vs@ =~= seq![v]);
        }
        SimulationError::Violations(vs)
    }
}

/// Why simulating the full execution of an operation did not succeed.
#[derive(Debug, PartialEq, Eq)]
pub enum GasSimulationError {
    DidNotRevert,
    /// The entry point reverted with another of its errors, given by name.
    DidNotRevertWithExecutionResult(String),
    /// The account's call reverted: the decoded reason, or the raw data in hex.
    AccountExecutionReverted(String),
    IncorrectPhaseCount(usize),
    Other(String),
}

} // verus!
