//! Synthesis of the byte sequences that redirect foreign writes into
//! controller-owned storage.
//!
//! A redirect has two halves: a source stub written over a reserved region of
//! the foreign code, which jumps away, and a trampoline assembled into memory of
//! its own, which copies fields out of the foreign registers' view of memory
//! and jumps back to a fixed resume address.

use vstd::prelude::*;

use iced_x86::code_asm::asm_traits::{CodeAsmJmp, CodeAsmMov, CodeAsmPop, CodeAsmPush};
use iced_x86::code_asm::{dword_ptr, eax, ebp, ebx, ecx, edi, edx, esi, esp, CodeAssembler};
use iced_x86::IcedError;

verus! {

/// iced_x86's `CodeAssembler`, opaque: what it holds is named by [`asm_ops`]
/// and [`asm_bitness`].
#[verifier::external_type_specification]
#[verifier::external_body]
pub struct ExCodeAssembler(CodeAssembler);

/// iced_x86's error type, carried through opaquely.
#[verifier::external_type_specification]
#[verifier::external_body]
pub struct ExIcedError(IcedError);

/// The eight 32-bit general purpose registers, in encoding order.
#[derive(PartialEq, Eq, Structural, Clone, Copy, Debug)]
pub enum Reg32 {
    Eax,
    Ecx,
    Edx,
    Ebx,
    Esp,
    Ebp,
    Esi,
    Edi,
}

/// The instruction forms that trampolines are made of.
#[derive(PartialEq, Eq, Structural, Clone, Copy, Debug)]
pub enum AsmOp {
    /// `mov dst, dword ptr [base + disp]`
    Load { dst: Reg32, base: Reg32, disp: i32 },
    /// `mov dword ptr [addr], src`
    StoreAbsolute { addr: u32, src: Reg32 },
    /// `mov dst, imm`
    MovImm { dst: Reg32, imm: u32 },
    /// `push reg`
    Push { reg: Reg32 },
    /// `pop reg`
    Pop { reg: Reg32 },
    /// `jmp reg`
    JmpReg { reg: Reg32 },
}

/// The instructions that an assembler holds, in the order they were added.
pub uninterp spec fn asm_ops(a: CodeAssembler) -> Seq<AsmOp>;

/// The bitness that an assembler was created with.
pub uninterp spec fn asm_bitness(a: CodeAssembler) -> u32;

/// The machine code that the assembler produces for `ops` placed at `ip`.
pub uninterp spec fn assembled(bitness: u32, ops: Seq<AsmOp>, ip: u64) -> Seq<u8>;

/// Whether the assembler can encode `ops` placed at `ip`.
pub uninterp spec fn assembles(bitness: u32, ops: Seq<AsmOp>, ip: u64) -> bool;

/// Relies on `CodeAssembler::new`: it accepts exactly the bitnesses 16, 32 and
/// 64, and starts with no instructions.
pub assume_specification[ CodeAssembler::new ](bitness: u32) -> (r: Result<CodeAssembler, IcedError>)
    ensures
        r is Ok <==> (bitness == 16 || bitness == 32 || bitness == 64),
        r is Ok ==> asm_ops(r->Ok_0) == Seq::<AsmOp>::empty(),
        r is Ok ==> asm_bitness(r->Ok_0) == bitness,
;

/// Relies on `CodeAssembler::assemble`: it encodes the instructions added so
/// far, for the assembler's bitness, at base address `ip`. No label or prefix
/// is ever left pending here, so whether it succeeds depends on the
/// instructions, the bitness and `ip` alone.
pub assume_specification[ CodeAssembler::assemble ](a: &mut CodeAssembler, ip: u64) -> (r: Result<Vec<u8>, IcedError>)
    ensures
        r is Ok <==> assembles(asm_bitness(*old(a)), asm_ops(*old(a)), ip),
        r is Ok ==> r->Ok_0@ == assembled(asm_bitness(*old(a)), asm_ops(*old(a)), ip),
        asm_ops(*final(a)) == asm_ops(*old(a)),
        asm_bitness(*final(a)) == asm_bitness(*old(a)),
;

/// Relies on `CodeAssembler::mov` with a 32-bit register and a dword memory
/// operand: it appends that one instruction, which it cannot refuse
/// while no label is pending.
#[verifier::external_body]
fn asm_load(a: &mut CodeAssembler, dst: Reg32, base: Reg32, disp: i32) -> (r: Result<(), IcedError>)
    ensures
        r is Ok,
        asm_ops(*final(a)) == asm_ops(*old(a)).push(AsmOp::Load { dst, base, disp }),
        asm_bitness(*final(a)) == asm_bitness(*old(a)),
{
    let regs = [eax, ecx, edx, ebx, esp, ebp, esi, edi];
    a.mov(regs[dst as usize], dword_ptr(regs[base as usize] + disp))
}

/// Relies on `CodeAssembler::mov` with a dword memory operand at an absolute
/// address and a 32-bit register: it appends that one instruction, which it
/// cannot refuse while no label is pending.
#[verifier::external_body]
fn asm_store_absolute(a: &mut CodeAssembler, addr: u32, src: Reg32) -> (r: Result<(), IcedError>)
    ensures
        r is Ok,
        asm_ops(*final(a)) == asm_ops(*old(a)).push(AsmOp::StoreAbsolute { addr, src }),
        asm_bitness(*final(a)) == asm_bitness(*old(a)),
{
    let regs = [eax, ecx, edx, ebx, esp, ebp, esi, edi];
    a.mov(dword_ptr(addr), regs[src as usize])
}

/// Relies on `CodeAssembler::mov` with a 32-bit register and a 32-bit
/// immediate: it appends that one instruction, which it cannot refuse while no
/// label is pending (every `u32` fits the immediate).
#[verifier::external_body]
fn asm_mov_imm(a: &mut CodeAssembler, dst: Reg32, imm: u32) -> (r: Result<(), IcedError>)
    ensures
        r is Ok,
        asm_ops(*final(a)) == asm_ops(*old(a)).push(AsmOp::MovImm { dst, imm }),
        asm_bitness(*final(a)) == asm_bitness(*old(a)),
{
    let regs = [eax, ecx, edx, ebx, esp, ebp, esi, edi];
    a.mov(regs[dst as usize], imm)
}

/// Relies on `CodeAssembler::push` with a 32-bit register: it appends
/// that one instruction, which it cannot refuse while no label is pending.
#[verifier::external_body]
fn asm_push(a: &mut CodeAssembler, reg: Reg32) -> (r: Result<(), IcedError>)
    ensures
        r is Ok,
        asm_ops(*final(a)) == asm_ops(*old(a)).push(AsmOp::Push { reg }),
        asm_bitness(*final(a)) == asm_bitness(*old(a)),
{
    let regs = [eax, ecx, edx, ebx, esp, ebp, esi, edi];
    a.push(regs[reg as usize])
}

/// Relies on `CodeAssembler::pop` with a 32-bit register: it appends
/// that one instruction, which it cannot refuse while no label is pending.
#[verifier::external_body]
fn asm_pop(a: &mut CodeAssembler, reg: Reg32) -> (r: Result<(), IcedError>)
    ensures
        r is Ok,
        asm_ops(*final(a)) == asm_ops(*old(a)).push(AsmOp::Pop { reg }),
        asm_bitness(*final(a)) == asm_bitness(*old(a)),
{
    let regs = [eax, ecx, edx, ebx, esp, ebp, esi, edi];
    a.pop(regs[reg as usize])
}

/// Relies on `CodeAssembler::jmp` with a 32-bit register: it appends
/// that one instruction, which it cannot refuse while no label is pending.
#[verifier::external_body]
fn asm_jmp(a: &mut CodeAssembler, reg: Reg32) -> (r: Result<(), IcedError>)
    ensures
        r is Ok,
        asm_ops(*final(a)) == asm_ops(*old(a)).push(AsmOp::JmpReg { reg }),
        asm_bitness(*final(a)) == asm_bitness(*old(a)),
{
    let regs = [eax, ecx, edx, ebx, esp, ebp, esi, edi];
    a.jmp(regs[reg as usize])
}

/// Why a trampoline could not be built.
#[derive(PartialEq, Eq, Structural, Clone, Copy, Debug)]
pub enum TrampolineError {
    /// The assembler refused an instruction or could not encode the sequence.
    AssemblyFailed,
}

/// The `x86` no-op instruction.
pub const NOP: u8 = 0x90;

/// Where the unit-card teleport writes are intercepted.
pub const TELEPORT_PATCH_ADDR: usize = 0x8F8E8B;

/// How many bytes of foreign code the teleport stub overwrites.
pub const TELEPORT_REGION_LEN: usize = 15;

/// Offset from the teleport patch address at which the trampoline resumes:
/// the `pop ebx` inside the stub.
pub const TELEPORT_RESUME_OFFSET: usize = 8;

/// Where the writes to the look-at target after a teleport are removed.
pub const TARGET_VIEW_PATCH_ADDR: usize = 0x8F8EB7;

/// How many bytes of foreign code the target-view patch overwrites.
pub const TARGET_VIEW_REGION_LEN: usize = 17;

/// Length of the jump at the head of a source stub.
pub const JUMP_STUB_LEN: usize = 9;

/// The little-endian bytes of a 32-bit word.
pub open spec fn le_bytes(v: u32) -> Seq<u8> {
    seq![
        (v % 256) as u8,
        (v / 256 % 256) as u8,
        (v / 65536 % 256) as u8,
        (v / 16777216) as u8,
    ]
}

/// `count` no-op bytes.
pub open spec fn nops(count: nat) -> Seq<u8> {
    Seq::new(count, |i: int| NOP)
}

/// `push ebx; mov ebx, code_addr; jmp ebx; pop ebx`: jumps to `code_addr`,
/// and gives the trampoline a place to return to (the `pop ebx`).
pub open spec fn jump_stub(code_addr: u32) -> Seq<u8> {
    seq![0x53u8, 0xBBu8] + le_bytes(code_addr) + seq![0xFFu8, 0xE3u8, 0x5Bu8]
}

/// The source stub for a reserved region of `reserved_len` bytes.
pub open spec fn source_stub_spec(code_addr: u32, reserved_len: nat) -> Seq<u8> {
    jump_stub(code_addr) + nops((reserved_len - JUMP_STUB_LEN) as nat)
}

/// `push edx; mov edx, cell_addr; movss dword ptr [edx], xmm; pop edx`.
pub open spec fn remote_store_spec(cell_addr: u32, xmm: u8) -> Seq<u8> {
    seq![0x52u8, 0xBAu8] + le_bytes(cell_addr) + seq![0xF3u8, 0x0Fu8, 0x11u8, (0x02 + 8 * xmm) as u8, 0x5Au8]
}

/// Copies `count` consecutive 4-byte fields from `[base]` to `dest`, through `esi`.
pub open spec fn field_copies(base: Reg32, dest: u32, count: nat) -> Seq<AsmOp>
    decreases count,
{
    if count == 0 {
        Seq::empty()
    } else {
        let k = (count - 1) as nat;
        field_copies(base, dest, k) + seq![
            AsmOp::Load { dst: Reg32::Esi, base, disp: (4 * k) as i32 },
            AsmOp::StoreAbsolute { addr: (dest + 4 * k) as u32, src: Reg32::Esi },
        ]
    }
}

/// The teleport trampoline: copies the camera position (three fields at
/// `[eax]`) and the target position (three fields behind the pointer at
/// `[esp + 0x14]`, `eax` saved around it) to `dest`, then jumps to `resume`.
pub open spec fn teleport_program(dest: u32, resume: u32) -> Seq<AsmOp> {
    field_copies(Reg32::Eax, dest, 3) + seq![
        AsmOp::Push { reg: Reg32::Eax },
        AsmOp::Load { dst: Reg32::Eax, base: Reg32::Esp, disp: 0x14 },
    ] + field_copies(Reg32::Eax, (dest + 12) as u32, 3) + seq![
        AsmOp::Pop { reg: Reg32::Eax },
        AsmOp::MovImm { dst: Reg32::Ebx, imm: resume },
        AsmOp::JmpReg { reg: Reg32::Ebx },
    ]
}

/// The length of the instruction that a patch site holds, judged by its
/// leading byte: the `0xF3` prefix means five bytes, anything else three.
pub fn instruction_length(leading_byte: u8) -> (r: usize)
    ensures
        r == (if leading_byte == 0xF3 { 5usize } else { 3usize }),
{
    if leading_byte == 0xF3 {
        5
    } else {
        3
    }
}

/// `count` no-op bytes.
pub fn nop_fill(count: usize) -> (r: Vec<u8>)
    ensures
        r@ == nops(count as nat),
{
    let mut r: Vec<u8> = Vec::new();
    let mut i: usize = 0;
    while i < count
        invariant
            i <= count,
            r@ == nops(i as nat),
        decreases count - i,
    {
        r.push(NOP);
        i = i + 1;
        assert(r@ =~= nops(i as nat));
    }
    r
}

/// The no-op patch that blanks out the instruction starting with `leading_byte`.
pub fn nop_patch(leading_byte: u8) -> (r: Vec<u8>)
    ensures
        r@ == nops(if leading_byte == 0xF3 { 5nat } else { 3nat }),
{
    nop_fill(instruction_length(leading_byte))
}

/// Appends the little-endian bytes of `v`.
fn push_le_bytes(out: &mut Vec<u8>, v: u32)
    ensures
        final(out)@ == old(out)@ + le_bytes(v),
{
    out.push((v % 256) as u8);
    out.push((v / 256 % 256) as u8);
    out.push((v / 65536 % 256) as u8);
    out.push((v / 16777216) as u8);
    assert(out@ =~= old(out)@ + le_bytes(v));
}

/// The stub written over a reserved region of `reserved_len` bytes: a jump to
/// `code_addr`, padded with no-ops so that it covers the region exactly.
pub fn source_stub(code_addr: u32, reserved_len: usize) -> (r: Vec<u8>)
    requires
        reserved_len >= JUMP_STUB_LEN,
    ensures
        r@ == source_stub_spec(code_addr, reserved_len as nat),
        r@.len() == reserved_len,
{
    let mut r: Vec<u8> = Vec::new();
    r.push(0x53);
    r.push(0xBB);
    push_le_bytes(&mut r, code_addr);
    r.push(0xFF);
    r.push(0xE3);
    r.push(0x5B);
    assert(r@ =~= jump_stub(code_addr));
    let pad = nop_fill(reserved_len - JUMP_STUB_LEN);
    let mut i: usize = 0;
    while i < pad.len()
        invariant
            i <= pad@.len(),
            pad@ == nops((reserved_len - JUMP_STUB_LEN) as nat),
            r@ == jump_stub(code_addr) + pad@.subrange(0, i as int),
        decreases pad.len() - i,
    {
        r.push(pad[i]);
        i = i + 1;
        assert(r@ =~= jump_stub(code_addr) + pad@.subrange(0, i as int));
    }
    assert(pad@.subrange(0, pad@.len() as int) =~= pad@);
    r
}

/// The patch that stores the `movss` source register `xmm` into the telemetry
/// cell at `cell_addr` instead of into the game's own storage.
pub fn remote_store_patch(cell_addr: u32, xmm: u8) -> (r: Vec<u8>)
    requires
        xmm < 8,
    ensures
        r@ == remote_store_spec(cell_addr, xmm),
        r@.len() == 11,
{
    let mut r: Vec<u8> = Vec::new();
    r.push(0x52);
    r.push(0xBA);
    push_le_bytes(&mut r, cell_addr);
    r.push(0xF3);
    r.push(0x0F);
    r.push(0x11);
    r.push(0x02 + 8 * xmm);
    r.push(0x5A);
    assert(r@ =~= remote_store_spec(cell_addr, xmm));
    r
}

/// Appends the copies of `count` fields from `[base]` to `dest`.
fn emit_field_copies(a: &mut CodeAssembler, base: Reg32, dest: u32, count: u32) -> (r: Result<(), IcedError>)
    requires
        dest as int + 4 * count as int <= u32::MAX as int,
        count <= 0x1000_0000,
    ensures
        r is Ok,
        asm_ops(*final(a)) == asm_ops(*old(a)) + field_copies(base, dest, count as nat),
        asm_bitness(*final(a)) == asm_bitness(*old(a)),
{
    let mut i: u32 = 0;
    while i < count
        invariant
            i <= count,
            dest as int + 4 * count as int <= u32::MAX as int,
            count <= 0x1000_0000,
            asm_ops(*a) == asm_ops(*old(a)) + field_copies(base, dest, i as nat),
            asm_bitness(*a) == asm_bitness(*old(a)),
        decreases count - i,
    {
        asm_load(a, Reg32::Esi, base, (4 * i) as i32)?;
        asm_store_absolute(a, dest + 4 * i, Reg32::Esi)?;
        i = i + 1;
        assert(asm_ops(*a) =~= asm_ops(*old(a)) + field_copies(base, dest, i as nat));
    }
    Ok(())
}

/// Assembles the teleport trampoline for placement at `code_addr`: it copies
/// the six fields of a teleport command to `dest` and resumes at `resume`.
pub fn build_teleport_trampoline(dest: u32, resume: u32, code_addr: u32) -> (r: Result<Vec<u8>, TrampolineError>)
    requires
        dest as int + 24 <= u32::MAX as int,
    ensures
        r is Ok <==> assembles(32, teleport_program(dest, resume), code_addr as u64),
        r is Ok ==> r->Ok_0@ == assembled(32, teleport_program(dest, resume), code_addr as u64),
{
    match assemble_teleport(dest, resume, code_addr) {
        Ok(code) => Ok(code),
        Err(_) => Err(TrampolineError::AssemblyFailed),
    }
}

fn assemble_teleport(dest: u32, resume: u32, code_addr: u32) -> (r: Result<Vec<u8>, IcedError>)
    requires
        dest as int + 24 <= u32::MAX as int,
    ensures
        r is Ok <==> assembles(32, teleport_program(dest, resume), code_addr as u64),
        r is Ok ==> r->Ok_0@ == assembled(32, teleport_program(dest, resume), code_addr as u64),
{
    let mut a = CodeAssembler::new(32)?;
    emit_field_copies(&mut a, Reg32::Eax, dest, 3)?;
    asm_push(&mut a, Reg32::Eax)?;
    asm_load(&mut a, Reg32::Eax, Reg32::Esp, 0x14)?;
    emit_field_copies(&mut a, Reg32::Eax, dest + 12, 3)?;
    asm_pop(&mut a, Reg32::Eax)?;
    asm_mov_imm(&mut a, Reg32::Ebx, resume)?;
    asm_jmp(&mut a, Reg32::Ebx)?;
    assert(asm_ops(a) =~= teleport_program(dest, resume));
    a.assemble(code_addr as u64)
}

/// A patch whose replacement bytes jump into separately placed machine code.
pub struct DynamicPatch {
    /// Where `source_loc` is written.
    pub patch_addr: usize,
    /// The bytes written over the reserved region at `patch_addr`.
    pub source_loc: Vec<u8>,
    /// The code that `source_loc` jumps to; it jumps back into the patched code.
    pub dynamic_code: Vec<u8>,
}

/// Creates the two patches that capture a unit-card teleport: the first
/// diverts the foreign write of the camera and target positions into the
/// command record at `teleport_struct_addr`, through a trampoline that is to be
/// placed at `code_addr`; the second removes the foreign writes to the look-at
/// target that follow.
pub fn create_unit_card_teleport_patch(teleport_struct_addr: u32, code_addr: u32) -> (r: Result<
    (DynamicPatch, DynamicPatch),
    TrampolineError,
>)
    requires
        teleport_struct_addr as int + 24 <= u32::MAX as int,
    ensures
        r is Ok <==> assembles(
            32,
            teleport_program(teleport_struct_addr, (TELEPORT_PATCH_ADDR + TELEPORT_RESUME_OFFSET) as u32),
            code_addr as u64,
        ),
        r is Ok ==> {
            let (t, v) = r->Ok_0;
            &&& t.patch_addr == TELEPORT_PATCH_ADDR
            &&& t.source_loc@ == source_stub_spec(code_addr, TELEPORT_REGION_LEN as nat)
            &&& t.source_loc@.len() == TELEPORT_REGION_LEN
            &&& t.dynamic_code@ == assembled(
                32,
                teleport_program(teleport_struct_addr, (TELEPORT_PATCH_ADDR + TELEPORT_RESUME_OFFSET) as u32),
                code_addr as u64,
            )
            &&& v.patch_addr == TARGET_VIEW_PATCH_ADDR
            &&& v.source_loc@ == nops(TARGET_VIEW_REGION_LEN as nat)
            &&& v.source_loc@.len() == TARGET_VIEW_REGION_LEN
            &&& v.dynamic_code@.len() == 0
        },
{
    let resume = (TELEPORT_PATCH_ADDR + TELEPORT_RESUME_OFFSET) as u32;
    let dynamic_code = build_teleport_trampoline(teleport_struct_addr, resume, code_addr)?;
    let teleport_intercept = DynamicPatch {
        patch_addr: TELEPORT_PATCH_ADDR,
        source_loc: source_stub(code_addr, TELEPORT_REGION_LEN),
        dynamic_code,
    };
    let target_view = DynamicPatch {
        patch_addr: TARGET_VIEW_PATCH_ADDR,
        source_loc: nop_fill(TARGET_VIEW_REGION_LEN),
        dynamic_code: Vec::new(),
    };
    Ok((teleport_intercept, target_view))
}

} // verus!
