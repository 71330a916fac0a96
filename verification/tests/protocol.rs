use wasm_bridge::bridge::{
    buffer_roundtrip, compile_user_wasm, config_roundtrip, read_rust_vec_len, rust_config_impl,
    rust_vec_into_slice,
};
use wasm_bridge::config::Config;
use wasm_bridge::engine::Engine;
use wasm_bridge::handles::{Boxed, HandleRegistry};
use wasm_bridge::outcome::Outcome;
use wasm_bridge::stack::CallStack;

/// Accepts bytecode that begins with the WASM magic and hands back a
/// serialized module; rejects anything else with a short cause.
struct MagicCompiler;

impl Engine for MagicCompiler {
    fn compile(wasm: &Vec<u8>, config: &Config) -> Result<Vec<u8>, Vec<u8>> {
        if config.version != 1 {
            return Err(b"unsupported version".to_vec());
        }
        if wasm.starts_with(b"\0asm") {
            let mut module = b"MODULE:".to_vec();
            module.extend_from_slice(wasm);
            Ok(module)
        } else {
            Err(b"bad magic".to_vec())
        }
    }

    fn deserialize(_module: &Vec<u8>, _config: &Config) -> Result<Self, Vec<u8>> {
        Ok(MagicCompiler)
    }

    fn set_ink(&mut self, _ink: u64) {}

    fn set_stack(&mut self, _depth: u32) {}

    fn run_main(&mut self, _calldata: &Vec<u8>, _config: &Config) -> Result<Outcome, Vec<u8>> {
        Ok(Outcome::Success(Vec::new()))
    }

    fn ink_left(&self) -> u64 {
        0
    }
}

/// Lays out a compile frame: bytecode address/length pair, version, padding,
/// and two result slots, with the bytecode itself behind the frame.
fn compile_frame(wasm: &[u8], version: u32) -> CallStack {
    let mut sp = CallStack::new(vec![0u8; 48 + wasm.len()], 0);
    sp.write_u64(48);
    sp.write_u64(wasm.len() as u64);
    sp.write_u32(version);
    sp.write_slice(48, &wasm.to_vec());
    let mem = sp.into_mem();
    CallStack::new(mem, 0)
}

#[test]
fn config_fields_survive_the_roundtrip() {
    let c = config_roundtrip(7, 1024, 10_000, 200);
    assert_eq!(c.version, 7);
    assert_eq!(c.max_depth, 1024);
    assert_eq!(c.ink_price, 10_000);
    assert_eq!(c.hostio_ink, 200);
}

#[test]
fn config_impl_reads_fields_in_declared_order() {
    let mut sp = CallStack::new(vec![0u8; 32], 0);
    sp.write_u32(3);
    sp.write_u32(64);
    sp.write_u64(5);
    sp.write_u64(11);
    let mem = sp.into_mem();
    let mut sp = CallStack::new(mem, 0);
    let mut reg = HandleRegistry::new();
    let h = rust_config_impl(&mut sp, &mut reg);
    assert_ne!(h, 0);
    assert_eq!(sp.read_u64_raw(24), h);
    match reg.reclaim(h) {
        Boxed::Config(c) => {
            assert_eq!(c, Config { version: 3, max_depth: 64, ink_price: 5, hostio_ink: 11 });
        }
        Boxed::Bytes(_) => panic!("config handle held bytes"),
    }
}

#[test]
fn gas_ink_conversion_is_exact_without_saturation() {
    let c = Config::new(1, 0, 2, 0);
    let ink = c.gas_to_ink(10);
    assert_eq!(ink, 20);
    assert_eq!(c.ink_to_gas(ink), 10);
}

#[test]
fn gas_ink_conversion_never_creates_value_on_saturation() {
    let c = Config::new(1, 0, 3, 0);
    let ink = c.gas_to_ink(u64::MAX);
    assert_eq!(ink, u64::MAX);
    assert!(c.ink_to_gas(ink) <= u64::MAX);
    assert_eq!(c.ink_to_gas(ink), u64::MAX / 3);
}

#[test]
fn version_constructor_uses_neutral_pricing() {
    let c = Config::version(9);
    assert_eq!(c.version, 9);
    assert_eq!(c.max_depth, 0);
    assert_eq!(c.ink_price, 1);
    assert_eq!(c.hostio_ink, 0);
}

#[test]
fn handles_are_nonnull_distinct_and_reclaim_once() {
    let mut reg = HandleRegistry::new();
    let h1 = reg.heapify(Boxed::Bytes(vec![1]));
    let h2 = reg.heapify(Boxed::Bytes(vec![2]));
    assert_ne!(h1, 0);
    assert_ne!(h2, 0);
    assert_ne!(h1, h2);
    assert!(reg.is_live(h1));
    match reg.reclaim(h1) {
        Boxed::Bytes(b) => assert_eq!(b, vec![1]),
        Boxed::Config(_) => panic!("bytes handle held a config"),
    }
    assert!(!reg.is_live(h1));
    assert!(reg.is_live(h2));
    // a handle number is never reissued, even after a reclaim
    let h3 = reg.heapify(Boxed::Bytes(vec![3]));
    assert_ne!(h3, h1);
    assert_ne!(h3, h2);
}

#[test]
fn buffer_len_then_drain_copies_exactly_and_kills_the_handle() {
    let mut reg = HandleRegistry::new();
    let h = reg.heapify(Boxed::Bytes(vec![5u8, 6, 7]));

    let mut sp = CallStack::new(vec![0u8; 16], 0);
    sp.write_ptr(h);
    let mem = sp.into_mem();
    let mut sp = CallStack::new(mem, 0);
    let n = read_rust_vec_len(&mut sp, &reg);
    assert_eq!(n, 3);
    assert_eq!(sp.read_u64_raw(0), h);
    assert!(reg.is_live(h));

    let mut sp = CallStack::new(vec![0u8; 16 + n as usize], 0);
    sp.write_ptr(h);
    sp.write_ptr(16);
    let mem = sp.into_mem();
    let mut sp = CallStack::new(mem, 0);
    rust_vec_into_slice(&mut sp, &mut reg);
    assert!(!reg.is_live(h));
    assert_eq!(sp.read_u8_raw(16), 5);
    assert_eq!(sp.read_u8_raw(17), 6);
    assert_eq!(sp.read_u8_raw(18), 7);
}

#[test]
fn buffer_roundtrip_preserves_bytes() {
    let out = buffer_roundtrip(vec![1u8, 2, 3, 4, 5]);
    assert_eq!(out, vec![1u8, 2, 3, 4, 5]);
}

#[test]
fn buffer_roundtrip_of_empty_buffer() {
    let out = buffer_roundtrip(Vec::new());
    assert_eq!(out, Vec::<u8>::new());
}

#[test]
fn compile_success_fills_module_slot_only() {
    let wasm = b"\0asm\x01\0\0\0";
    let mut sp = compile_frame(wasm, 1);
    let mut reg = HandleRegistry::new();
    let r = compile_user_wasm::<MagicCompiler>(&mut sp, &mut reg);
    assert_ne!(r.module_handle, 0);
    assert_eq!(r.error_handle, 0);
    assert_eq!(sp.read_u64_raw(24), r.module_handle);
    assert_eq!(sp.read_u64_raw(32), 0);
    match reg.reclaim(r.module_handle) {
        Boxed::Bytes(module) => {
            let mut expected = b"MODULE:".to_vec();
            expected.extend_from_slice(wasm);
            assert_eq!(module, expected);
        }
        Boxed::Config(_) => panic!("module handle held a config"),
    }
}

#[test]
fn compile_failure_fills_error_slot_only() {
    let mut sp = compile_frame(b"not wasm", 1);
    let mut reg = HandleRegistry::new();
    let r = compile_user_wasm::<MagicCompiler>(&mut sp, &mut reg);
    assert_eq!(r.module_handle, 0);
    assert_ne!(r.error_handle, 0);
    assert_eq!(sp.read_u64_raw(24), 0);
    assert_eq!(sp.read_u64_raw(32), r.error_handle);
    match reg.reclaim(r.error_handle) {
        Boxed::Bytes(diag) => assert_eq!(diag, b"failed to compile: bad magic".to_vec()),
        Boxed::Config(_) => panic!("error handle held a config"),
    }
}

#[test]
fn compile_slots_are_mutually_exclusive_for_unsupported_version() {
    let mut sp = compile_frame(b"\0asm\x01\0\0\0", 2);
    let mut reg = HandleRegistry::new();
    let r = compile_user_wasm::<MagicCompiler>(&mut sp, &mut reg);
    assert!((r.module_handle == 0) != (r.error_handle == 0));
    assert_eq!(r.module_handle, 0);
    match reg.reclaim(r.error_handle) {
        Boxed::Bytes(diag) => {
            assert_eq!(diag, b"failed to compile: unsupported version".to_vec())
        }
        Boxed::Config(_) => panic!("error handle held a config"),
    }
}
