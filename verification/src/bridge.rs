use vstd::prelude::*;
use vstd::string::StringSliceAdditionalSpecFns;
use crate::config::{lemma_ink_to_gas_zero, spec_ink_to_gas, Config};
use crate::engine::Engine;
use crate::handles::{Boxed, HandleRegistry};
use crate::outcome::{spec_kind_code, Outcome, OutcomeKind};
use crate::stack::{
    lemma_u32_at_frame, lemma_u64_at_frame, slice_in_bounds, u32_at, u64_at, CallStack,
};

verus! {

/// The configuration whose four fields are laid out at `i`: version, depth,
/// then the two prices, exactly as the construction call reads them.
pub open spec fn spec_config_at(m: Seq<u8>, i: int) -> Config {
    Config {
        version: u32_at(m, i),
        max_depth: u32_at(m, i + 4),
        ink_price: u64_at(m, i + 8),
        hostio_ink: u64_at(m, i + 16),
    }
}

/// Prepends a short description of the failed operation to an error's own
/// bytes, keeping the causal chain for the host to surface.
pub fn wrap_diagnostic(note: &str, cause: Vec<u8>) -> (r: Vec<u8>)
    ensures
        r@ == note.spec_bytes() + cause@,
{
    let mut r = vstd::slice::slice_to_vec(note.as_bytes());
    let mut c = cause;
    r.append(&mut c);
    r
}

/// The context prepended to a compile diagnostic before it is handed back.
pub open spec fn compile_failure_note() -> Seq<u8> {
    "failed to compile: ".spec_bytes()
}

/// The context prepended to an execution diagnostic before it is handed
/// back.
pub open spec fn execute_failure_note() -> Seq<u8> {
    "failed to execute program: ".spec_bytes()
}

/// The two result slots of one compile call; exactly one is null.
pub struct CompileReport {
    /// The handle to the serialized module, or null on failure.
    pub module_handle: u64,
    /// The handle to the diagnostic bytes, or null on success.
    pub error_handle: u64,
}

/// What one execute call wrote back: the status tag, the handle to the
/// outcome's bytes, and the gas refunded to the host's counter.
pub struct ExecReport {
    /// The status tag, whose byte form went onto the region.
    pub status: OutcomeKind,
    /// The fresh handle to the outcome's bytes.
    pub output_handle: u64,
    /// The refunded gas, as overwritten at the host's gas counter.
    pub gas_left: u64,
}

/// Normalizes what the engine handed back into exactly one outcome: an
/// engine-level error and a program failure both collapse into `Failure`,
/// the cause wrapped with the operation that failed; anything else passes
/// through untouched.
pub fn classify_run(result: Result<Outcome, Vec<u8>>) -> (out: Outcome)
    ensures
        result matches Ok(o) ==> out.spec_kind() == o.spec_kind() && (!(o is Failure) ==> out
            == o) && (o matches Outcome::Failure(e) ==> out.spec_data() == execute_failure_note()
            + e@),
        result is Err ==> out.spec_kind() == OutcomeKind::Failure,
        result matches Err(e) ==> out.spec_data() == execute_failure_note() + e@,
{
    match result {
        Ok(Outcome::Failure(e)) => Outcome::Failure(
            wrap_diagnostic("failed to execute program: ", e),
        ),
        Err(e) => Outcome::Failure(wrap_diagnostic("failed to execute program: ", e)),
        Ok(o) => o,
    }
}

/// Writes a compile call's two result slots: the module's fresh handle then
/// a null on success, or a null then a fresh handle to a diagnostic that
/// wraps the engine's cause on failure. The host branches on which slot is
/// null; never both, never neither.
pub fn write_compile_result(
    sp: &mut CallStack,
    reg: &mut HandleRegistry,
    result: Result<Vec<u8>, Vec<u8>>,
) -> (r: CompileReport)
    requires
        0 <= old(sp).pos(),
        old(sp).pos() + 16 <= old(sp).mem().len(),
    ensures
        final(sp).pos() == old(sp).pos() + 16,
        final(sp).mem().len() == old(sp).mem().len(),
        u64_at(final(sp).mem(), old(sp).pos() as int) == r.module_handle,
        u64_at(final(sp).mem(), old(sp).pos() + 8) == r.error_handle,
        forall|j: int|
            0 <= j < old(sp).mem().len() && !(old(sp).pos() <= j < old(sp).pos() + 16)
                ==> final(sp).mem()[j] == old(sp).mem()[j],
        (r.module_handle == 0) != (r.error_handle == 0),
        result matches Ok(module) ==> r.error_handle == 0
            && !old(reg)@.dom().contains(r.module_handle)
            && final(reg)@ == old(reg)@.insert(r.module_handle, Boxed::Bytes(module)),
        result matches Err(cause) ==> r.module_handle == 0
            && !old(reg)@.dom().contains(r.error_handle)
            && (final(reg)@[r.error_handle] matches Boxed::Bytes(e)
            && e@ == compile_failure_note() + cause@
            && final(reg)@ == old(reg)@.insert(r.error_handle, Boxed::Bytes(e))),
{
    let ghost p0 = old(sp).pos();
    match result {
        Ok(module) => {
            let h = reg.heapify(Boxed::Bytes(module));
            sp.write_ptr(h);
            let ghost m1 = sp.mem();
            sp.write_nullptr();
            proof {
                assert forall|j: int| p0 <= j < p0 + 8 implies m1[j] == sp.mem()[j] by {}
                lemma_u64_at_frame(m1, sp.mem(), p0 as int);
            }
            CompileReport { module_handle: h, error_handle: 0 }
        },
        Err(cause) => {
            let wrapped = wrap_diagnostic("failed to compile: ", cause);
            let h = reg.heapify(Boxed::Bytes(wrapped));
            sp.write_nullptr();
            let ghost m1 = sp.mem();
            sp.write_ptr(h);
            proof {
                assert forall|j: int| p0 <= j < p0 + 8 implies m1[j] == sp.mem()[j] by {}
                lemma_u64_at_frame(m1, sp.mem(), p0 as int);
            }
            CompileReport { module_handle: 0, error_handle: h }
        },
    }
}

/// Compiles and instruments a user program.
///
/// Argument order on the region: the bytecode as an address/length pair, the
/// wire version, padding to the next slot; then the results: a module handle
/// and an error handle, of which exactly one is null.
pub fn compile_user_wasm<E: Engine>(sp: &mut CallStack, reg: &mut HandleRegistry) -> (r:
    CompileReport)
    requires
        0 <= old(sp).pos(),
        old(sp).pos() % 8 == 0,
        old(sp).pos() + 40 <= old(sp).mem().len(),
        slice_in_bounds(old(sp).mem(), old(sp).pos() as int),
    ensures
        final(sp).pos() == old(sp).pos() + 40,
        final(sp).mem().len() == old(sp).mem().len(),
        u64_at(final(sp).mem(), old(sp).pos() + 24) == r.module_handle,
        u64_at(final(sp).mem(), old(sp).pos() + 32) == r.error_handle,
        forall|j: int|
            0 <= j < old(sp).mem().len() && !(old(sp).pos() + 24 <= j < old(sp).pos() + 40)
                ==> final(sp).mem()[j] == old(sp).mem()[j],
        (r.module_handle == 0) != (r.error_handle == 0),
        r.module_handle != 0 ==> !old(reg)@.dom().contains(r.module_handle)
            && (final(reg)@[r.module_handle] matches Boxed::Bytes(module)
            && final(reg)@ == old(reg)@.insert(r.module_handle, Boxed::Bytes(module))),
        r.error_handle != 0 ==> !old(reg)@.dom().contains(r.error_handle)
            && (final(reg)@[r.error_handle] matches Boxed::Bytes(e)
            && compile_failure_note().is_prefix_of(e@)
            && final(reg)@ == old(reg)@.insert(r.error_handle, Boxed::Bytes(e))),
{
    let wasm = sp.read_go_slice_owned();
    let version = sp.read_u32();
    let config = Config::version(version);
    sp.skip_space();
    let result = E::compile(&wasm, &config);
    write_compile_result(sp, reg, result)
}

/// Creates a configuration from its component parts and hands it back as a
/// fresh handle.
///
/// Argument order on the region: version, depth (packed 32-bit fields), ink
/// price, host-intrinsic ink; then the result: the configuration's handle.
pub fn rust_config_impl(sp: &mut CallStack, reg: &mut HandleRegistry) -> (h: u64)
    requires
        0 <= old(sp).pos(),
        old(sp).pos() + 32 <= old(sp).mem().len(),
    ensures
        h != 0,
        !old(reg)@.dom().contains(h),
        final(reg)@ == old(reg)@.insert(
            h,
            Boxed::Config(spec_config_at(old(sp).mem(), old(sp).pos() as int)),
        ),
        final(sp).pos() == old(sp).pos() + 32,
        final(sp).mem().len() == old(sp).mem().len(),
        u64_at(final(sp).mem(), old(sp).pos() + 24) == h,
        forall|j: int|
            0 <= j < old(sp).mem().len() && !(old(sp).pos() + 24 <= j < old(sp).pos() + 32)
                ==> final(sp).mem()[j] == old(sp).mem()[j],
{
    let version = sp.read_u32();
    let max_depth = sp.read_u32();
    let ink_price = sp.read_u64();
    let hostio_ink = sp.read_u64();
    let config = Config::new(version, max_depth, ink_price, hostio_ink);
    let h = reg.heapify(Boxed::Config(config));
    sp.write_ptr(h);
    h
}

/// Reads the length of an owned byte buffer without consuming its handle.
///
/// Argument order on the region: the buffer's handle; then the result: its
/// byte count.
pub fn read_rust_vec_len(sp: &mut CallStack, reg: &HandleRegistry) -> (n: u32)
    requires
        0 <= old(sp).pos(),
        old(sp).pos() + 12 <= old(sp).mem().len(),
        reg@.dom().contains(u64_at(old(sp).mem(), old(sp).pos() as int)),
        reg@[u64_at(old(sp).mem(), old(sp).pos() as int)] is Bytes,
        reg@[u64_at(old(sp).mem(), old(sp).pos() as int)]->Bytes_0@.len() <= u32::MAX,
    ensures
        n == reg@[u64_at(old(sp).mem(), old(sp).pos() as int)]->Bytes_0@.len(),
        final(sp).pos() == old(sp).pos() + 12,
        final(sp).mem().len() == old(sp).mem().len(),
        u32_at(final(sp).mem(), old(sp).pos() + 8) == n,
        forall|j: int|
            0 <= j < old(sp).mem().len() && !(old(sp).pos() + 8 <= j < old(sp).pos() + 12)
                ==> final(sp).mem()[j] == old(sp).mem()[j],
{
    let h = sp.read_ptr();
    let buf = match reg.peek(h) {
        Boxed::Bytes(b) => b,
        Boxed::Config(_) => vstd::pervasive::unreached(),
    };
    let n = buf.len() as u32;
    sp.write_u32(n);
    n
}

/// Copies the contents of an owned byte buffer into the region at a
/// host-chosen destination, dropping the buffer: the handle is dead
/// afterwards. The host must have sized the destination beforehand.
///
/// Argument order on the region: the buffer's handle, then the destination
/// address.
pub fn rust_vec_into_slice(sp: &mut CallStack, reg: &mut HandleRegistry)
    requires
        0 <= old(sp).pos(),
        old(sp).pos() + 16 <= old(sp).mem().len(),
        old(reg)@.dom().contains(u64_at(old(sp).mem(), old(sp).pos() as int)),
        old(reg)@[u64_at(old(sp).mem(), old(sp).pos() as int)] is Bytes,
        u64_at(old(sp).mem(), old(sp).pos() + 8) + old(reg)@[u64_at(
            old(sp).mem(),
            old(sp).pos(),
        )]->Bytes_0@.len() <= old(sp).mem().len(),
    ensures
        final(reg)@ == old(reg)@.remove(u64_at(old(sp).mem(), old(sp).pos() as int)),
        final(sp).pos() == old(sp).pos() + 16,
        final(sp).mem().len() == old(sp).mem().len(),
        final(sp).mem().subrange(
            u64_at(old(sp).mem(), old(sp).pos() + 8) as int,
            u64_at(old(sp).mem(), old(sp).pos() + 8) + old(reg)@[u64_at(
                old(sp).mem(),
                old(sp).pos(),
            )]->Bytes_0@.len(),
        ) == old(reg)@[u64_at(old(sp).mem(), old(sp).pos() as int)]->Bytes_0@,
        forall|j: int|
            0 <= j < old(sp).mem().len() && !(u64_at(old(sp).mem(), old(sp).pos() + 8) <= j
                < u64_at(old(sp).mem(), old(sp).pos() + 8) + old(reg)@[u64_at(
                old(sp).mem(),
                old(sp).pos(),
            )]->Bytes_0@.len()) ==> final(sp).mem()[j] == old(sp).mem()[j],
{
    let h = sp.read_ptr();
    let dest = sp.read_ptr();
    let buf = match reg.reclaim(h) {
        Boxed::Bytes(b) => b,
        Boxed::Config(_) => vstd::pervasive::unreached(),
    };
    sp.write_slice(dest, &buf);
}

/// The module handle at the start of an execute frame beginning at `i`.
pub open spec fn exec_module_handle(m: Seq<u8>, i: int) -> u64 {
    u64_at(m, i)
}

/// The configuration handle of an execute frame beginning at `i`.
pub open spec fn exec_config_handle(m: Seq<u8>, i: int) -> u64 {
    u64_at(m, i + 24)
}

/// The address of the host's gas counter in an execute frame beginning at
/// `i`.
pub open spec fn exec_gas_ptr(m: Seq<u8>, i: int) -> u64 {
    u64_at(m, i + 32)
}

/// Writes one run's results: the status byte, padding to the next slot and
/// a fresh handle to the outcome's bytes; then settles the host's gas
/// counter from the leftover ink — forfeiting the whole budget when the
/// program ran out of stack, the price of unwinding a deep call stack.
pub fn write_outcome(
    sp: &mut CallStack,
    reg: &mut HandleRegistry,
    gas_ptr: u64,
    config: &Config,
    outcome: Outcome,
    ink_left: u64,
) -> (r: ExecReport)
    requires
        0 <= old(sp).pos(),
        old(sp).pos() % 8 == 0,
        old(sp).pos() + 16 <= old(sp).mem().len(),
        gas_ptr + 8 <= old(sp).mem().len(),
        gas_ptr + 8 <= old(sp).pos() || gas_ptr >= old(sp).pos() + 16,
        config.ink_price > 0,
    ensures
        r.status == outcome.spec_kind(),
        final(sp).pos() == old(sp).pos() + 16,
        final(sp).mem().len() == old(sp).mem().len(),
        final(sp).mem()[old(sp).pos() as int] == spec_kind_code(outcome.spec_kind()),
        u64_at(final(sp).mem(), old(sp).pos() + 8) == r.output_handle,
        u64_at(final(sp).mem(), gas_ptr as int) == r.gas_left,
        r.gas_left == spec_ink_to_gas(
            config.ink_price,
            if outcome.spec_kind() == OutcomeKind::OutOfStack {
                0u64
            } else {
                ink_left
            },
        ),
        outcome.spec_kind() == OutcomeKind::OutOfStack ==> r.gas_left == 0,
        r.output_handle != 0,
        r.output_handle as nat == old(reg).issued() + 1,
        final(reg).issued() == old(reg).issued() + 1,
        !old(reg)@.dom().contains(r.output_handle),
        final(reg)@[r.output_handle] matches Boxed::Bytes(outs) && outs@ == outcome.spec_data()
            && final(reg)@ == old(reg)@.insert(r.output_handle, Boxed::Bytes(outs)),
        forall|j: int|
            #![trigger final(sp).mem()[j]]
            0 <= j < old(sp).mem().len() && j != old(sp).pos() && !(old(sp).pos() + 8 <= j < old(
                sp,
            ).pos() + 16) && !(gas_ptr <= j < gas_ptr + 8) ==> final(sp).mem()[j] == old(
                sp,
            ).mem()[j],
{
    let ghost p0 = old(sp).pos();
    let (kind, outs) = outcome.into_data();
    sp.write_u8(kind.code());
    sp.skip_space();
    let h = reg.heapify(Boxed::Bytes(outs));
    sp.write_ptr(h);
    let ghost m2 = sp.mem();
    let ink = if kind == OutcomeKind::OutOfStack {
        0
    } else {
        ink_left
    };
    let gas = config.ink_to_gas(ink);
    sp.write_u64_raw(gas_ptr, gas);
    proof {
        assert forall|j: int| p0 + 8 <= j < p0 + 16 implies m2[j] == sp.mem()[j] by {}
        lemma_u64_at_frame(m2, sp.mem(), p0 + 8);
        if kind == OutcomeKind::OutOfStack {
            lemma_ink_to_gas_zero(config.ink_price);
        }
    }
    ExecReport { status: kind, output_handle: h, gas_left: gas }
}

/// Links and executes a user program under its funded budget.
///
/// Argument order on the region: the module's handle (consumed), the call
/// data as an address/length pair, the configuration's handle (consumed),
/// the address of the host's gas counter (read before the run, overwritten
/// after), and one reserved slot, read and discarded; then the results: the
/// status byte and a fresh handle to the outcome's bytes.
///
/// `Err` carries the engine's diagnostic when the module could not be
/// rebuilt into an instance — a broken protocol between compile and
/// execute, fatal to the call, never a program outcome. Nothing has been
/// written back then, but both consumed handles are dropped regardless, on
/// every path.
pub fn call_user_wasm<E: Engine>(sp: &mut CallStack, reg: &mut HandleRegistry) -> (r: Result<
    ExecReport,
    Vec<u8>,
>)
    requires
        0 <= old(sp).pos(),
        old(sp).pos() % 8 == 0,
        old(sp).pos() + 64 <= old(sp).mem().len(),
        slice_in_bounds(old(sp).mem(), old(sp).pos() + 8),
        old(reg)@.dom().contains(exec_module_handle(old(sp).mem(), old(sp).pos())),
        old(reg)@[exec_module_handle(old(sp).mem(), old(sp).pos())] is Bytes,
        old(reg)@.dom().contains(exec_config_handle(old(sp).mem(), old(sp).pos())),
        old(reg)@[exec_config_handle(old(sp).mem(), old(sp).pos())] matches Boxed::Config(c)
            && c.ink_price > 0,
        exec_module_handle(old(sp).mem(), old(sp).pos()) != exec_config_handle(
            old(sp).mem(),
            old(sp).pos(),
        ),
        exec_gas_ptr(old(sp).mem(), old(sp).pos()) + 8 <= old(sp).mem().len(),
        exec_gas_ptr(old(sp).mem(), old(sp).pos()) + 8 <= old(sp).pos() + 48 || exec_gas_ptr(
            old(sp).mem(),
            old(sp).pos(),
        ) >= old(sp).pos() + 64,
    ensures
        r is Err ==> final(sp).mem() == old(sp).mem() && final(sp).pos() == old(sp).pos() + 48
            && final(reg)@ == old(reg)@.remove(
            exec_module_handle(old(sp).mem(), old(sp).pos()),
        ).remove(exec_config_handle(old(sp).mem(), old(sp).pos())),
        r matches Ok(rep) ==> final(sp).pos() == old(sp).pos() + 64 && final(sp).mem().len()
            == old(sp).mem().len() && final(sp).mem()[old(sp).pos() + 48] == spec_kind_code(
            rep.status,
        ) && u64_at(final(sp).mem(), old(sp).pos() + 56) == rep.output_handle && u64_at(
            final(sp).mem(),
            exec_gas_ptr(old(sp).mem(), old(sp).pos()) as int,
        ) == rep.gas_left && (rep.status == OutcomeKind::OutOfStack ==> rep.gas_left == 0) && (
        exists|il: u64|
            rep.gas_left == spec_ink_to_gas(
                old(reg)@[exec_config_handle(old(sp).mem(), old(sp).pos())]->Config_0.ink_price,
                il,
            ) && (rep.status == OutcomeKind::OutOfStack ==> il == 0)) && rep.output_handle != 0
            && !old(reg)@.dom().contains(rep.output_handle) && (
        final(reg)@[rep.output_handle] matches Boxed::Bytes(outs) && final(reg)@ == old(
            reg,
        )@.remove(exec_module_handle(old(sp).mem(), old(sp).pos())).remove(
            exec_config_handle(old(sp).mem(), old(sp).pos()),
        ).insert(rep.output_handle, Boxed::Bytes(outs)) && ((rep.status == OutcomeKind::OutOfStack
            || rep.status == OutcomeKind::OutOfInk) ==> outs@ == Seq::<u8>::empty()) && (rep.status
            == OutcomeKind::Failure ==> execute_failure_note().is_prefix_of(outs@))) && (forall|
            j: int,
        |
            #![trigger final(sp).mem()[j]]
            0 <= j < old(sp).mem().len() && j != old(sp).pos() + 48 && !(old(sp).pos() + 56 <= j
                < old(sp).pos() + 64) && !(exec_gas_ptr(old(sp).mem(), old(sp).pos()) <= j
                < exec_gas_ptr(old(sp).mem(), old(sp).pos()) + 8) ==> final(sp).mem()[j] == old(
                sp,
            ).mem()[j]),
{
    let ghost p0 = old(sp).pos();
    let ghost m0 = old(sp).mem();
    let hm = sp.read_ptr();
    let module = match reg.reclaim(hm) {
        Boxed::Bytes(b) => b,
        Boxed::Config(_) => vstd::pervasive::unreached(),
    };
    let calldata = sp.read_go_slice_owned();
    let hc = sp.read_ptr();
    let config = match reg.reclaim(hc) {
        Boxed::Config(c) => c,
        Boxed::Bytes(_) => vstd::pervasive::unreached(),
    };
    let gas_ptr = sp.read_ptr();
    let gas = sp.read_u64_raw(gas_ptr);
    let ink = config.gas_to_ink(gas);
    sp.skip_u64();
    let mut inst = match E::deserialize(&module, &config) {
        Ok(inst) => inst,
        Err(e) => {
            return Err(e);
        },
    };
    inst.set_ink(ink);
    inst.set_stack(config.max_depth);
    let run = inst.run_main(&calldata, &config);
    let outcome = classify_run(run);
    let ink_left = inst.ink_left();
    proof {
        old(reg).lemma_live_handles_bounded();
    }
    let rep = write_outcome(sp, reg, gas_ptr, &config, outcome, ink_left);
    proof {
        let ghost ilw: u64 = if rep.status == OutcomeKind::OutOfStack {
            0u64
        } else {
            ink_left
        };
        assert(rep.gas_left == spec_ink_to_gas(config.ink_price, ilw));
    }
    Ok(rep)
}

fn zero_region(n: usize) -> (v: Vec<u8>)
    ensures
        v@.len() == n,
{
    let mut v: Vec<u8> = Vec::new();
    while v.len() < n
        invariant
            v@.len() <= n,
        decreases n - v@.len(),
    {
        v.push(0);
    }
    v
}

/// Law: a configuration laid down on the calling-convention stack and then
/// constructed and reclaimed through it comes back with the identical four
/// fields, whatever they are.
pub fn config_roundtrip(version: u32, max_depth: u32, ink_price: u64, hostio_ink: u64) -> (c:
    Config)
    ensures
        c == (Config { version, max_depth, ink_price, hostio_ink }),
{
    let region = zero_region(32);
    let mut sp = CallStack::new(region, 0);
    sp.write_u32(version);
    let ghost m1 = sp.mem();
    sp.write_u32(max_depth);
    let ghost m2 = sp.mem();
    sp.write_u64(ink_price);
    let ghost m3 = sp.mem();
    sp.write_u64(hostio_ink);
    let ghost m4 = sp.mem();
    proof {
        lemma_u32_at_frame(m1, m2, 0);
        lemma_u32_at_frame(m2, m3, 0);
        lemma_u32_at_frame(m2, m3, 4);
        lemma_u32_at_frame(m3, m4, 0);
        lemma_u32_at_frame(m3, m4, 4);
        lemma_u64_at_frame(m3, m4, 8);
    }
    let mem = sp.into_mem();
    let mut sp = CallStack::new(mem, 0);
    let mut reg = HandleRegistry::new();
    let h = rust_config_impl(&mut sp, &mut reg);
    match reg.reclaim(h) {
        Boxed::Config(c) => c,
        Boxed::Bytes(_) => vstd::pervasive::unreached(),
    }
}

/// Law: reading an owned buffer's length and then draining it copies
/// exactly that many bytes to the destination, byte for byte, and leaves
/// the buffer's handle dead.
pub fn buffer_roundtrip(buf: Vec<u8>) -> (out: Vec<u8>)
    requires
        buf@.len() + 16 <= u32::MAX,
    ensures
        out@ == buf@,
{
    let ghost bytes = buf@;
    let mut reg = HandleRegistry::new();
    let h = reg.heapify(Boxed::Bytes(buf));
    let region = zero_region(16);
    let mut sp = CallStack::new(region, 0);
    sp.write_ptr(h);
    let mem = sp.into_mem();
    let mut sp = CallStack::new(mem, 0);
    let n = read_rust_vec_len(&mut sp, &reg);
    let n_us = n as usize;
    let region2 = zero_region(16 + n_us);
    let mut sp2 = CallStack::new(region2, 0);
    sp2.write_ptr(h);
    let ghost ma = sp2.mem();
    sp2.write_ptr(16);
    let ghost mb = sp2.mem();
    proof {
        lemma_u64_at_frame(ma, mb, 0);
    }
    let mem2 = sp2.into_mem();
    let mut sp2 = CallStack::new(mem2, 0);
    rust_vec_into_slice(&mut sp2, &mut reg);
    proof {
        assert(!reg@.dom().contains(h));
    }
    let mem3 = sp2.into_mem();
    let mut out: Vec<u8> = Vec::new();
    let mut i: usize = 0;
    while i < n_us
        invariant
            i <= n_us,
            16 + n_us <= usize::MAX,
            n_us == bytes.len(),
            mem3@.len() == 16 + n_us,
            mem3@.subrange(16, 16 + n_us as int) == bytes,
            out@ == bytes.subrange(0, i as int),
        decreases n_us - i,
    {
        let b = mem3[16 + i];
        out.push(b);
        proof {
            assert(mem3@[16 + i] == bytes[i as int]);
            assert(bytes.subrange(0, i + 1) =~= bytes.subrange(0, i as int).push(
                bytes[i as int],
            ));
        }
        i = i + 1;
    }
    proof {
        assert(out@ =~= bytes);
    }
    out
}

} // verus!
