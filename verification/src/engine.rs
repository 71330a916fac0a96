use vstd::prelude::*;
use crate::config::Config;
use crate::outcome::Outcome;

verus! {

/// The opaque compile-and-run capability of the metered engine, exactly as
/// the bridge consumes it. Nothing is promised about what an implementation
/// returns: every contract downstream of these calls holds for every value
/// an engine can hand back.
pub trait Engine: Sized {
    /// Compiles and instruments raw bytecode for `config.version`. On
    /// failure the bytes describe the cause.
    fn compile(wasm: &Vec<u8>, config: &Config) -> Result<Vec<u8>, Vec<u8>>;

    /// Rebuilds a runnable instance from a serialized module, which must
    /// come back byte-for-byte from `compile`. Failure marks a corrupted or
    /// mismatched module — a broken protocol, not program behaviour.
    fn deserialize(module: &Vec<u8>, config: &Config) -> Result<Self, Vec<u8>>;

    /// Funds the instance with `ink`.
    fn set_ink(&mut self, ink: u64);

    /// Bounds the instance's call-stack depth.
    fn set_stack(&mut self, depth: u32);

    /// Runs the instance against `calldata`. `Err` is an engine-level
    /// error, distinct from the program's own failure outcome.
    fn run_main(&mut self, calldata: &Vec<u8>, config: &Config) -> Result<Outcome, Vec<u8>>;

    /// The ink still unspent after a run.
    fn ink_left(&self) -> u64;
}

} // verus!
