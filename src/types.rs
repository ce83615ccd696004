use vstd::prelude::*;

verus! {

/// 2^128, the weight of the upper half of a two-limb integer.
pub open spec fn limb_base() -> nat {
    u128::MAX as nat + 1
}

/// A 20-byte account address, held as its upper 32 bits and lower 128 bits.
#[derive(Clone, Copy, Debug, PartialEq, Eq, Structural, PartialOrd, Ord, Hash)]
pub struct Address {
    pub high: u32,
    pub low: u128,
}

impl Address {
    pub open spec fn value(self) -> nat {
        self.high as nat * limb_base() + self.low as nat
    }

    pub fn new(high: u32, low: u128) -> (r: Address)
        ensures
            r.high == high,
            r.low == low,
    {
        Address { high, low }
    }
}

/// A 256-bit unsigned integer (storage slot, stake amount, hash), held as two
/// 128-bit halves.
#[derive(Clone, Copy, Debug, PartialEq, Eq, Structural, PartialOrd, Ord, Hash)]
pub struct Word {
    pub high: u128,
    pub low: u128,
}

impl Word {
    pub open spec fn value(self) -> nat {
        self.high as nat * limb_base() + self.low as nat
    }

    pub fn from_u128(v: u128) -> (r: Word)
        ensures
            r == (Word { high: 0, low: v }),
            r.value() == v as nat,
    {
        Word { high: 0, low: v }
    }

    /// Whether `self <= other` as integers.
    pub fn le(&self, other: &Word) -> (r: bool)
        ensures
            r == (self.value() <= other.value()),
    {
        proof {
            lemma_limbs_order(self.high as nat, self.low as nat, other.high as nat, other.low as nat);
        }
        self.high < other.high || (self.high == other.high && self.low <= other.low)
    }

    /// Whether `other` lies in `[self, self + 128)`.
    pub fn covers(&self, other: &Word) -> (r: bool)
        ensures
            r == (self.value() <= other.value() && other.value() < self.value() + 128),
    {
        proof {
            lemma_limbs_order(self.high as nat, self.low as nat, other.high as nat, other.low as nat);
            lemma_limbs_far(self.high as nat, self.low as nat, other.high as nat, other.low as nat);
        }
        if other.high == self.high {
            other.low >= self.low && other.low - self.low < 128
        } else if self.high < u128::MAX && other.high == self.high + 1 {
            assert(other.value() == self.high as nat * limb_base() + limb_base() + other.low as nat)
                by (nonlinear_arith)
                requires
                    other.high as nat == self.high as nat + 1,
                    other.value() == other.high as nat * limb_base() + other.low as nat,
            ;
            other.low < 128 && self.low > other.low + (u128::MAX - 127)
        } else {
            false
        }
    }
}

/// Two-limb integers order as their upper halves do, when those differ.
proof fn lemma_limbs_order(h1: nat, l1: nat, h2: nat, l2: nat)
    requires
        l1 < limb_base(),
        l2 < limb_base(),
    ensures
        h1 < h2 ==> h1 * limb_base() + l1 < h2 * limb_base() + l2,
        h2 < h1 ==> h2 * limb_base() + l2 < h1 * limb_base() + l1,
{
    assert(h1 < h2 ==> h1 * limb_base() + limb_base() <= h2 * limb_base()) by (nonlinear_arith);
    assert(h2 < h1 ==> h2 * limb_base() + limb_base() <= h1 * limb_base()) by (nonlinear_arith);
}

/// When the upper halves differ by two or more, the values are a full limb apart.
proof fn lemma_limbs_far(h1: nat, l1: nat, h2: nat, l2: nat)
    requires
        l1 < limb_base(),
        l2 < limb_base(),
    ensures
        h1 + 2 <= h2 ==> h1 * limb_base() + l1 + limb_base() <= h2 * limb_base() + l2,
{
    assert(h1 + 2 <= h2 ==> h1 * limb_base() + 2 * limb_base() <= h2 * limb_base()) by (nonlinear_arith);
}

/// The roles that take part in validating a user operation.
#[derive(Clone, Copy, Debug, PartialEq, Eq, Structural, PartialOrd, Ord, Hash)]
pub enum Entity {
    Factory,
    Account,
    Paymaster,
    Aggregator,
}

/// The entity whose code runs in the given phase of the validation trace.
pub open spec fn phase_entity(i: int) -> Option<Entity> {
    if i == 0 {
        Some(Entity::Factory)
    } else if i == 1 {
        Some(Entity::Account)
    } else if i == 2 {
        Some(Entity::Paymaster)
    } else {
        None
    }
}

impl Entity {
    pub fn from_simulation_phase(i: usize) -> (r: Option<Entity>)
        ensures
            r == phase_entity(i as int),
    {
        match i {
            0 => Some(Entity::Factory),
            1 => Some(Entity::Account),
            2 => Some(Entity::Paymaster),
            _ => None,
        }
    }
}

/// An entity's deposit record at the entry point.
#[derive(Clone, Copy, Debug, PartialEq, Eq, Structural)]
pub struct StakeInfo {
    pub stake: Word,
    pub unstake_delay_sec: Word,
}

/// The stake thresholds an entity must meet to count as staked.
#[derive(Clone, Copy, Debug, PartialEq, Eq, Structural)]
pub struct Settings {
    pub min_unstake_delay: u32,
    pub min_stake_value: u64,
}

/// One day in seconds, as the account-abstraction standard defines it.
pub const DEFAULT_MIN_UNSTAKE_DELAY: u32 = 84600;

/// 10^18 wei, that is one ether.
pub const DEFAULT_MIN_STAKE_VALUE: u64 = 1_000_000_000_000_000_000;

impl Settings {
    pub fn new(min_unstake_delay: u32, min_stake_value: u64) -> (r: Settings)
        ensures
            r.min_unstake_delay == min_unstake_delay,
            r.min_stake_value == min_stake_value,
    {
        Settings { min_unstake_delay, min_stake_value }
    }
}

impl Default for Settings {
    fn default() -> (r: Settings)
        ensures
            r.min_unstake_delay == DEFAULT_MIN_UNSTAKE_DELAY,
            r.min_stake_value == DEFAULT_MIN_STAKE_VALUE,
    {
        Settings {
            min_unstake_delay: DEFAULT_MIN_UNSTAKE_DELAY,
            min_stake_value: DEFAULT_MIN_STAKE_VALUE,
        }
    }
}

pub open spec fn spec_is_staked(info: StakeInfo, settings: Settings) -> bool {
    info.stake.value() >= settings.min_stake_value as nat
        && info.unstake_delay_sec.value() >= settings.min_unstake_delay as nat
}

/// Whether both the stake and the unstake delay meet the configured minima.
pub fn is_staked(info: StakeInfo, settings: Settings) -> (r: bool)
    ensures
        r == spec_is_staked(info, settings),
{
    let min_stake = Word::from_u128(settings.min_stake_value as u128);
    let min_delay = Word::from_u128(settings.min_unstake_delay as u128);
    min_stake.le(&info.stake) && min_delay.le(&info.unstake_delay_sec)
}

/// Raising the stake or the unstake delay never makes a staked entity unstaked.
pub proof fn lemma_stake_monotonic(a: StakeInfo, b: StakeInfo, settings: Settings)
    requires
        spec_is_staked(a, settings),
        a.stake.value() <= b.stake.value(),
        a.unstake_delay_sec.value() <= b.unstake_delay_sec.value(),
    ensures
        spec_is_staked(b, settings),
{
}

} // verus!
