use wasm_bridge::stack::CallStack;
use wasm_bridge::bridge::wrap_diagnostic;

#[test]
fn u32_write_read_roundtrip() {
    let sp = CallStack::new(vec![0u8; 16], 0);
    let mut sp = sp;
    sp.write_u32(0xdead_beef);
    let mem = sp.into_mem();
    let mut sp = CallStack::new(mem, 0);
    assert_eq!(sp.read_u32(), 0xdead_beef);
}

#[test]
fn u64_write_read_roundtrip() {
    let mut sp = CallStack::new(vec![0u8; 16], 0);
    sp.write_u64(0x0102_0304_0506_0708);
    let mem = sp.into_mem();
    let mut sp = CallStack::new(mem, 0);
    assert_eq!(sp.read_u64(), 0x0102_0304_0506_0708);
}

#[test]
fn u64_encoding_is_little_endian() {
    let mut sp = CallStack::new(vec![0u8; 8], 0);
    sp.write_u64(0x0102_0304_0506_0708);
    assert_eq!(sp.read_u8_raw(0), 0x08);
    assert_eq!(sp.read_u8_raw(1), 0x07);
    assert_eq!(sp.read_u8_raw(6), 0x02);
    assert_eq!(sp.read_u8_raw(7), 0x01);
}

#[test]
fn narrow_then_wide_fields_pack_and_pad() {
    // a u8 then padding then a u64: the wide field begins on the next slot
    let mut sp = CallStack::new(vec![0u8; 16], 0);
    sp.write_u8(0xaa);
    sp.skip_space();
    sp.write_u64(7);
    let mem = sp.into_mem();
    let sp = CallStack::new(mem, 0);
    assert_eq!(sp.read_u8_raw(0), 0xaa);
    assert_eq!(sp.read_u64_raw(8), 7);
}

#[test]
fn skip_space_at_slot_boundary_stays_put() {
    let mut sp = CallStack::new(vec![0u8; 16], 0);
    sp.write_u64(1);
    sp.skip_space();
    sp.write_u64(2);
    let mem = sp.into_mem();
    let sp = CallStack::new(mem, 0);
    assert_eq!(sp.read_u64_raw(0), 1);
    assert_eq!(sp.read_u64_raw(8), 2);
}

#[test]
fn go_slice_owned_copies_referenced_bytes() {
    // header at 0: address 24, length 3; payload at 24
    let mut sp = CallStack::new(vec![0u8; 32], 0);
    sp.write_u64(24);
    sp.write_u64(3);
    sp.write_slice(24, &vec![9u8, 8, 7]);
    let mem = sp.into_mem();
    let mut sp = CallStack::new(mem, 0);
    let owned = sp.read_go_slice_owned();
    assert_eq!(owned, vec![9u8, 8, 7]);
}

#[test]
fn empty_go_slice_is_empty() {
    let mut sp = CallStack::new(vec![0u8; 16], 0);
    sp.write_u64(0);
    sp.write_u64(0);
    let mem = sp.into_mem();
    let mut sp = CallStack::new(mem, 0);
    assert_eq!(sp.read_go_slice_owned(), Vec::<u8>::new());
}

#[test]
fn write_slice_lands_at_address() {
    let mut sp = CallStack::new(vec![0u8; 12], 0);
    sp.write_slice(4, &vec![1u8, 2, 3]);
    assert_eq!(sp.read_u8_raw(3), 0);
    assert_eq!(sp.read_u8_raw(4), 1);
    assert_eq!(sp.read_u8_raw(6), 3);
    assert_eq!(sp.read_u8_raw(7), 0);
}

#[test]
fn wrap_diagnostic_prepends_context() {
    let wrapped = wrap_diagnostic("failed to execute program: ", b"boom".to_vec());
    assert_eq!(wrapped, b"failed to execute program: boom".to_vec());
}

#[test]
fn wrap_diagnostic_empty_cause_keeps_context() {
    let wrapped = wrap_diagnostic("failed to compile: ", Vec::new());
    assert_eq!(wrapped, b"failed to compile: ".to_vec());
}
