//! A verified calling-convention bridge between a host runtime and a
//! metered WebAssembly engine.
//!
//! The host passes arguments and results through a shared byte region, read
//! and written in a fixed per-call order by a sequential cursor
//! ([`stack::CallStack`]). Owned native values cross the boundary as opaque
//! integer handles ([`handles::HandleRegistry`]), each valid for exactly one
//! reclaim. Every execution is funded with a gas budget converted to the
//! engine's internal metering unit, ink, at a linear price
//! ([`config::Config`]), and the leftover is converted back — never
//! refunding more than was funded. The entry points in [`bridge`] tie these
//! together: they decode each call's arguments, drive the engine through
//! the [`engine::Engine`] interface, and encode the outcome's status tag
//! ([`outcome`]), a handle to its bytes, and the settled gas counter back
//! onto the region.

pub mod bridge;
pub mod config;
pub mod engine;
pub mod handles;
pub mod outcome;
pub mod stack;
