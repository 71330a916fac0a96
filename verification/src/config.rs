use vstd::prelude::*;
use vstd::arithmetic::div_mod::{lemma_div_is_ordered, lemma_div_multiples_vanish};
use vstd::arithmetic::mul::{lemma_mul_inequality, lemma_mul_is_commutative};

verus! {

/// An immutable description of one guest-program execution: the wire version
/// the program was built for, the greatest call-stack depth the engine will
/// allow, the linear price of one unit of gas in ink, and the flat ink cost
/// of one host-intrinsic call.
#[derive(Clone, Copy, PartialEq, Eq, Structural, Debug)]
pub struct Config {
    pub version: u32,
    pub max_depth: u32,
    pub ink_price: u64,
    pub hostio_ink: u64,
}

/// Ink bought with `gas` at `price` ink per unit of gas, saturating at the
/// widest representable ink amount.
pub open spec fn spec_gas_to_ink(price: u64, gas: u64) -> u64 {
    if gas * price <= u64::MAX {
        (gas * price) as u64
    } else {
        u64::MAX
    }
}

/// Gas refunded for `ink` at `price` ink per unit of gas, rounding down.
pub open spec fn spec_ink_to_gas(price: u64, ink: u64) -> u64
    recommends
        price > 0,
{
    (ink as int / price as int) as u64
}

impl Config {
    /// A configuration for `version` alone: no depth bound has been chosen
    /// yet, pricing is neutral (one ink per unit of gas, free host
    /// intrinsics). The compilation entry point needs nothing more.
    pub fn version(version: u32) -> (c: Config)
        ensures
            c == (Config { version, max_depth: 0u32, ink_price: 1u64, hostio_ink: 0u64 }),
    {
        Config { version, max_depth: 0, ink_price: 1, hostio_ink: 0 }
    }

    /// A configuration from all four component parts. No validation happens
    /// here; consumers reject versions they do not support.
    pub fn new(version: u32, max_depth: u32, ink_price: u64, hostio_ink: u64) -> (c: Config)
        ensures
            c == (Config { version, max_depth, ink_price, hostio_ink }),
    {
        Config { version, max_depth, ink_price, hostio_ink }
    }

    /// Converts an external gas budget into the ink that funds the engine.
    pub fn gas_to_ink(&self, gas: u64) -> (ink: u64)
        ensures
            ink == spec_gas_to_ink(self.ink_price, gas),
    {
        match gas.checked_mul(self.ink_price) {
            Some(ink) => ink,
            None => u64::MAX,
        }
    }

    /// Converts leftover ink back into the gas handed back to the host.
    pub fn ink_to_gas(&self, ink: u64) -> (gas: u64)
        requires
            self.ink_price > 0,
        ensures
            gas == spec_ink_to_gas(self.ink_price, ink),
    {
        ink / self.ink_price
    }
}

/// No leftover ink refunds no gas.
pub proof fn lemma_ink_to_gas_zero(price: u64)
    requires
        price > 0,
    ensures
        spec_ink_to_gas(price, 0) == 0,
{
    lemma_div_multiples_vanish(0, price as int);
}

/// More gas never buys less ink.
pub proof fn lemma_gas_to_ink_monotonic(price: u64, g1: u64, g2: u64)
    requires
        g1 <= g2,
    ensures
        spec_gas_to_ink(price, g1) <= spec_gas_to_ink(price, g2),
{
    lemma_mul_inequality(g1 as int, g2 as int, price as int);
}

/// A refund computed from any ink amount the funded budget bounds never
/// exceeds the gas that funded the budget.
pub proof fn lemma_refund_bounded(price: u64, gas: u64, ink_left: u64)
    requires
        price > 0,
        ink_left <= spec_gas_to_ink(price, gas),
    ensures
        spec_ink_to_gas(price, ink_left) <= gas,
{
    lemma_div_is_ordered(ink_left as int, spec_gas_to_ink(price, gas) as int, price as int);
    lemma_ink_gas_roundtrip(price, gas);
}

/// A gas-to-ink-to-gas round trip never creates value: converting a budget to
/// ink and the whole of it back refunds at most the original budget, and
/// refunds it exactly whenever the purchase did not saturate.
pub proof fn lemma_ink_gas_roundtrip(price: u64, gas: u64)
    requires
        price > 0,
    ensures
        spec_ink_to_gas(price, spec_gas_to_ink(price, gas)) <= gas,
        gas * price <= u64::MAX ==> spec_ink_to_gas(price, spec_gas_to_ink(price, gas)) == gas,
{
    lemma_div_multiples_vanish(gas as int, price as int);
    lemma_mul_is_commutative(price as int, gas as int);
    if gas * price > u64::MAX {
        lemma_div_is_ordered(u64::MAX as int, (gas * price) as int, price as int);
    }
}

} // verus!
