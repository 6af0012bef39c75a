//! The registers of a MIPS32 core as a debugger names them: the general
//! purpose registers, those of the floating point unit, of the DSP
//! extension and of coprocessor 0.
use vstd::prelude::*;

verus! {

/// The number by which a register is asked for.
#[derive(Debug, Clone, Copy, PartialEq, Eq, Structural)]
pub struct RegisterId(pub u16);

/// What a register holds, with its width in bits.
#[derive(Debug, Clone, Copy, PartialEq, Eq, Structural)]
pub enum RegisterDataType {
    UnsignedInteger(usize),
    FloatingPoint(usize),
}

/// What becomes of a register when a frame is unwound.
#[derive(Debug, Clone, Copy, PartialEq, Eq, Structural)]
pub enum UnwindRule {
    Preserve,
    Clear,
    SpecialRule,
}

/// A part that a register plays, with the name it has in that part.
#[derive(Debug, Clone, Copy, PartialEq, Eq)]
pub enum RegisterRole {
    Core(&'static str),
    Argument(&'static str),
    Return(&'static str),
    ProgramCounter,
    FramePointer,
    StackPointer,
    ReturnAddress,
    FloatingPoint,
    FloatingPointStatus,
    ProcessorStatus,
    Other(&'static str),
}

/// The description of one register.
#[derive(Debug, PartialEq, Eq)]
pub struct CoreRegister {
    pub roles: Vec<RegisterRole>,
    pub id: RegisterId,
    pub data_type: RegisterDataType,
    pub unwind_rule: UnwindRule,
}

/// The description of one register as a value of specifications.
pub struct RegisterSpec {
    pub roles: Seq<RegisterRole>,
    pub id: RegisterId,
    pub data_type: RegisterDataType,
    pub unwind_rule: UnwindRule,
}

impl View for CoreRegister {
    type V = RegisterSpec;

    open spec fn view(&self) -> RegisterSpec {
        RegisterSpec {
            roles: self.roles@,
            id: self.id,
            data_type: self.data_type,
            unwind_rule: self.unwind_rule,
        }
    }
}

/// The descriptions that a list of registers holds.
pub open spec fn specs_of(list: Seq<CoreRegister>) -> Seq<RegisterSpec> {
    Seq::new(list.len(), |i: int| list[i]@)
}

/// The names of the general purpose registers by number.
pub const GPR_NAMES: [&'static str; 32] = [
    "r0", "r1", "r2", "r3", "r4", "r5", "r6", "r7",
    "r8", "r9", "r10", "r11", "r12", "r13", "r14", "r15",
    "r16", "r17", "r18", "r19", "r20", "r21", "r22", "r23",
    "r24", "r25", "r26", "r27", "r28", "r29", "r30", "r31",
];

/// The names that the calling convention gives to the registers 0 to 28.
pub const GPR_ALIASES: [&'static str; 29] = [
    "zero", "at", "v0", "v0", "a0", "a1", "a2", "a3",
    "t0", "t1", "t2", "t3", "t4", "t5", "t6", "t7",
    "s0", "s1", "s2", "s3", "s4", "s5", "s6", "s7",
    "t8", "t9", "k0", "k1", "gp",
];

/// The names of the floating point registers by number.
pub const FPU_NAMES: [&'static str; 32] = [
    "f0", "f1", "f2", "f3", "f4", "f5", "f6", "f7",
    "f8", "f9", "f10", "f11", "f12", "f13", "f14", "f15",
    "f16", "f17", "f18", "f19", "f20", "f21", "f22", "f23",
    "f24", "f25", "f26", "f27", "f28", "f29", "f30", "f31",
];

/// The names of the registers of the DSP extension, in the order of their numbers.
pub const DSP_NAMES: [&'static str; 7] = [
    "hi1", "lo1", "hi2", "lo2", "hi3", "lo3", "dspctl",
];

/// The registers of coprocessor 0: register number, select, the name
/// made of the two and the name of the architecture.
pub const CP0_ROWS: [(u16, u16, &'static str, &'static str); 131] = [
    (0, 0, "cp0.0.0", "index"),
    (1, 0, "cp0.1.0", "random"),
    (2, 0, "cp0.2.0", "entrylo0"),
    (3, 0, "cp0.3.0", "entrylo1"),
    (4, 0, "cp0.4.0", "context"),
    (5, 0, "cp0.5.0", "pagemask"),
    (6, 0, "cp0.6.0", "wired"),
    (7, 0, "cp0.7.0", "hwrena"),
    (8, 0, "cp0.8.0", "badvaddr"),
    (9, 0, "cp0.9.0", "count"),
    (10, 0, "cp0.10.0", "entryhi"),
    (11, 0, "cp0.11.0", "compare"),
    (12, 0, "cp0.12.0", "status"),
    (13, 0, "cp0.13.0", "cause"),
    (14, 0, "cp0.14.0", "epc"),
    (15, 0, "cp0.15.0", "prid"),
    (16, 0, "cp0.16.0", "config"),
    (17, 0, "cp0.17.0", "lladdr"),
    (18, 0, "cp0.18.0", "watchlo0"),
    (19, 0, "cp0.19.0", "watchhi0"),
    (20, 0, "cp0.20.0", "xcontext"),
    (23, 0, "cp0.23.0", "debug"),
    (24, 0, "cp0.24.0", "depc"),
    (25, 0, "cp0.25.0", "perfctl0"),
    (26, 0, "cp0.26.0", "errctl"),
    (27, 0, "cp0.27.0", "cacheerr"),
    (28, 0, "cp0.28.0", "itaglo"),
    (29, 0, "cp0.29.0", "itaghi"),
    (30, 0, "cp0.30.0", "errorepc"),
    (31, 0, "cp0.31.0", "desave"),
    (0, 1, "cp0.0.1", "mvpcontrol"),
    (1, 1, "cp0.1.1", "vpecontrol"),
    (2, 1, "cp0.2.1", "tcstatus"),
    (3, 1, "cp0.3.1", "globalnumber"),
    (4, 1, "cp0.4.1", "contextconfig"),
    (5, 1, "cp0.5.1", "pagegrain"),
    (6, 1, "cp0.6.1", "srsconf0"),
    (8, 1, "cp0.8.1", "badinstr"),
    (12, 1, "cp0.12.1", "intctl"),
    (15, 1, "cp0.15.1", "ebase"),
    (16, 1, "cp0.16.1", "config1"),
    (17, 1, "cp0.17.1", "maar"),
    (18, 1, "cp0.18.1", "watchlo1"),
    (19, 1, "cp0.19.1", "watchhi1"),
    (23, 1, "cp0.23.1", "tracecontrol"),
    (25, 1, "cp0.25.1", "perfcnt0"),
    (26, 1, "cp0.26.1", "ierrctl"),
    (28, 1, "cp0.28.1", "idatalo"),
    (29, 1, "cp0.29.1", "idatahi"),
    (0, 2, "cp0.0.2", "mvpconf0"),
    (1, 2, "cp0.1.2", "vpeconf0"),
    (2, 2, "cp0.2.2", "tcbind"),
    (4, 2, "cp0.4.2", "userlocal"),
    (5, 2, "cp0.5.2", "segctl0"),
    (6, 2, "cp0.6.2", "srsconf1"),
    (8, 2, "cp0.8.2", "badinstrp"),
    (12, 2, "cp0.12.2", "srsctl"),
    (15, 2, "cp0.15.2", "cdmmbase"),
    (16, 2, "cp0.16.2", "config2"),
    (17, 2, "cp0.17.2", "maari"),
    (18, 2, "cp0.18.2", "watchlo2"),
    (19, 2, "cp0.19.2", "watchhi2"),
    (23, 2, "cp0.23.2", "tracecontrol2"),
    (24, 2, "cp0.24.2", "tracecontrol3"),
    (25, 2, "cp0.25.2", "perfctl1"),
    (28, 2, "cp0.28.2", "dtaglo"),
    (29, 2, "cp0.29.2", "dtaghi"),
    (31, 2, "cp0.31.2", "kscratch1"),
    (0, 3, "cp0.0.3", "mvpconf1"),
    (1, 3, "cp0.1.3", "vpeconf1"),
    (2, 3, "cp0.2.3", "tcrestart"),
    (4, 3, "cp0.4.3", "xcontextconfig"),
    (5, 3, "cp0.5.3", "segctl1"),
    (6, 3, "cp0.6.3", "srsconf2"),
    (12, 3, "cp0.12.3", "srsmap"),
    (15, 3, "cp0.15.3", "cmgcrbase"),
    (16, 3, "cp0.16.3", "config3"),
    (18, 3, "cp0.18.3", "watchlo3"),
    (19, 3, "cp0.19.3", "watchhi3"),
    (23, 3, "cp0.23.3", "usertracedata1"),
    (24, 3, "cp0.24.3", "usertracedata2"),
    (25, 3, "cp0.25.3", "perfcnt1"),
    (28, 3, "cp0.28.3", "ddatalo"),
    (29, 3, "cp0.29.3", "ddatahi"),
    (31, 3, "cp0.31.3", "kscratch2"),
    (1, 4, "cp0.1.4", "yqmask"),
    (2, 4, "cp0.2.4", "tchalt"),
    (4, 4, "cp0.4.4", "debugcontextid"),
    (5, 4, "cp0.5.4", "segctl2"),
    (6, 4, "cp0.6.4", "srsconf3"),
    (10, 4, "cp0.10.4", "guestctl1"),
    (12, 4, "cp0.12.4", "view_ipl"),
    (13, 4, "cp0.13.4", "view_ripl"),
    (15, 4, "cp0.15.4", "bevva"),
    (16, 4, "cp0.16.4", "config4"),
    (18, 4, "cp0.18.4", "watchlo4"),
    (19, 4, "cp0.19.4", "watchhi4"),
    (23, 4, "cp0.23.4", "traceibpc"),
    (25, 4, "cp0.25.4", "perfctl2"),
    (28, 4, "cp0.28.4", "l23taglo"),
    (31, 4, "cp0.31.4", "kscratch3"),
    (1, 5, "cp0.1.5", "vpeschedule"),
    (2, 5, "cp0.2.5", "tccontext"),
    (4, 5, "cp0.4.5", "mmid"),
    (6, 5, "cp0.6.5", "srsconf4"),
    (12, 5, "cp0.12.5", "srsmap2"),
    (16, 5, "cp0.16.5", "config5"),
    (18, 5, "cp0.18.5", "watchlo5"),
    (19, 5, "cp0.19.5", "watchhi5"),
    (23, 5, "cp0.23.5", "tracedbpc"),
    (25, 5, "cp0.25.5", "perfcnt2"),
    (28, 5, "cp0.28.5", "l23datalo"),
    (29, 5, "cp0.29.5", "l23datahi"),
    (31, 5, "cp0.31.5", "kscratch4"),
    (1, 6, "cp0.1.6", "vpeschefback"),
    (2, 6, "cp0.2.6", "tcschedule"),
    (12, 6, "cp0.12.6", "guestctl0"),
    (16, 6, "cp0.16.6", "config6"),
    (18, 6, "cp0.18.6", "watchlo6"),
    (19, 6, "cp0.19.6", "watchhi6"),
    (23, 6, "cp0.23.6", "debug2"),
    (25, 6, "cp0.25.6", "perfctl3"),
    (31, 6, "cp0.31.6", "kscratch5"),
    (1, 7, "cp0.1.7", "vpeopt"),
    (2, 7, "cp0.2.7", "tcschefback"),
    (3, 7, "cp0.3.7", "tcopt"),
    (16, 7, "cp0.16.7", "config7"),
    (18, 7, "cp0.18.7", "watchlo7"),
    (19, 7, "cp0.19.7", "watchhi7"),
    (25, 7, "cp0.25.7", "perfcnt3"),
    (31, 7, "cp0.31.7", "kscratch6"),
];

/// A 32-bit unsigned register that is cleared when a frame is unwound.
pub open spec fn word_register(roles: Seq<RegisterRole>, id: u16) -> RegisterSpec {
    RegisterSpec {
        roles,
        id: RegisterId(id),
        data_type: RegisterDataType::UnsignedInteger(32),
        unwind_rule: UnwindRule::Clear,
    }
}

/// The part that general purpose register `n` plays besides being
/// that register: the stack pointer, the frame pointer and the return
/// address have parts of their own, the others a part with their name in
/// the calling convention.
pub open spec fn gpr_second_role(n: int) -> RegisterRole {
    if n == 29 {
        RegisterRole::StackPointer
    } else if n == 30 {
        RegisterRole::FramePointer
    } else if n == 31 {
        RegisterRole::ReturnAddress
    } else if 2 <= n < 4 {
        RegisterRole::Return(GPR_ALIASES@[n])
    } else if 4 <= n < 8 {
        RegisterRole::Argument(GPR_ALIASES@[n])
    } else {
        RegisterRole::Other(GPR_ALIASES@[n])
    }
}

/// The description of general purpose register `n`.
pub open spec fn spec_gpr(n: int) -> RegisterSpec {
    word_register(seq![RegisterRole::Core(GPR_NAMES@[n]), gpr_second_role(n)], n as u16)
}

/// The description of the program counter.
pub open spec fn spec_pc() -> RegisterSpec {
    word_register(seq![RegisterRole::ProgramCounter], 37)
}

/// The description of the status register.
pub open spec fn spec_status() -> RegisterSpec {
    word_register(seq![RegisterRole::ProcessorStatus], 32)
}

/// The general purpose registers in the order of their numbers, then
/// LO, HI and the program counter.
pub open spec fn spec_registers_set() -> Seq<RegisterSpec> {
    Seq::new(
        35,
        |i: int|
            if i < 32 {
                spec_gpr(i)
            } else if i == 32 {
                word_register(seq![RegisterRole::Other("lo")], 33)
            } else if i == 33 {
                word_register(seq![RegisterRole::Other("hi")], 34)
            } else {
                spec_pc()
            },
    )
}

/// The registers of the floating point unit: the 32 data registers,
/// then its control and status register and its implementation register.
pub open spec fn spec_fpu_registers() -> Seq<RegisterSpec> {
    Seq::new(
        34,
        |i: int|
            if i < 32 {
                RegisterSpec {
                    roles: seq![RegisterRole::Other(FPU_NAMES@[i]), RegisterRole::FloatingPoint],
                    id: RegisterId((38 + i) as u16),
                    data_type: RegisterDataType::FloatingPoint(32),
                    unwind_rule: UnwindRule::Clear,
                }
            } else if i == 32 {
                word_register(
                    seq![RegisterRole::Other("fcsr"), RegisterRole::FloatingPointStatus],
                    70,
                )
            } else {
                word_register(
                    seq![RegisterRole::Other("fir"), RegisterRole::FloatingPointStatus],
                    71,
                )
            },
    )
}

/// The registers of the DSP extension.
pub open spec fn spec_dsp_registers() -> Seq<RegisterSpec> {
    Seq::new(7, |i: int| word_register(seq![RegisterRole::Other(DSP_NAMES@[i])], (72 + i) as u16))
}

/// The number by which register `reg`, select `sel`, of coprocessor 0
/// is asked for: the top bit marks the coprocessor.
pub open spec fn spec_cp0_register_id(reg: u16, sel: u16) -> u16 {
    0x8000u16 | reg << 3u16 | sel
}

/// Computes the number by which a register of coprocessor 0 is asked for.
#[verifier::when_used_as_spec(spec_cp0_register_id)]
pub fn cp0_register_id(reg: u16, sel: u16) -> (id: u16)
    ensures
        id == spec_cp0_register_id(reg, sel),
{
    0x8000u16 | reg << 3u16 | sel
}

/// The registers of coprocessor 0, one for each row of `CP0_ROWS`.
pub open spec fn spec_cp0_registers() -> Seq<RegisterSpec> {
    Seq::new(
        131,
        |i: int|
            word_register(
                seq![RegisterRole::Other(CP0_ROWS@[i].2), RegisterRole::Other(CP0_ROWS@[i].3)],
                cp0_register_id(CP0_ROWS@[i].0, CP0_ROWS@[i].1),
            ),
    )
}

/// The registers of a core: the general purpose registers, those of
/// the floating point unit where there is one, and those of coprocessor 0.
pub open spec fn spec_core_registers(fpu: bool) -> Seq<RegisterSpec> {
    if fpu {
        spec_registers_set() + spec_fpu_registers() + spec_cp0_registers()
    } else {
        spec_registers_set() + spec_cp0_registers()
    }
}

/// A register of 32 unsigned bits with the given parts.
fn word_register_of(roles: Vec<RegisterRole>, id: u16) -> (r: CoreRegister)
    ensures
        r@ == word_register(roles@, id),
{
    CoreRegister {
        roles,
        id: RegisterId(id),
        data_type: RegisterDataType::UnsignedInteger(32),
        unwind_rule: UnwindRule::Clear,
    }
}

/// The program counter.
pub fn pc() -> (r: CoreRegister)
    ensures
        r@ == spec_pc(),
{
    let roles = vec![RegisterRole::ProgramCounter];
    assert(roles@ =~= seq![RegisterRole::ProgramCounter]);
    word_register_of(roles, 37)
}

/// The stack pointer, general purpose register 29.
pub fn sp() -> (r: CoreRegister)
    ensures
        r@ == spec_gpr(29),
{
    gpr(29)
}

/// The frame pointer, general purpose register 30.
pub fn fp() -> (r: CoreRegister)
    ensures
        r@ == spec_gpr(30),
{
    gpr(30)
}

/// The return address, general purpose register 31.
pub fn ra() -> (r: CoreRegister)
    ensures
        r@ == spec_gpr(31),
{
    gpr(31)
}

/// The status register.
pub fn status() -> (r: CoreRegister)
    ensures
        r@ == spec_status(),
{
    let roles = vec![RegisterRole::ProcessorStatus];
    assert(roles@ =~= seq![RegisterRole::ProcessorStatus]);
    word_register_of(roles, 32)
}

/// General purpose register `n`.
pub fn gpr(n: usize) -> (r: CoreRegister)
    requires
        n < 32,
    ensures
        r@ == spec_gpr(n as int),
{
    let second = if n == 29 {
        RegisterRole::StackPointer
    } else if n == 30 {
        RegisterRole::FramePointer
    } else if n == 31 {
        RegisterRole::ReturnAddress
    } else if 2 <= n && n < 4 {
        RegisterRole::Return(GPR_ALIASES[n])
    } else if 4 <= n && n < 8 {
        RegisterRole::Argument(GPR_ALIASES[n])
    } else {
        RegisterRole::Other(GPR_ALIASES[n])
    };
    let roles = vec![RegisterRole::Core(GPR_NAMES[n]), second];
    assert(roles@ =~= seq![RegisterRole::Core(GPR_NAMES@[n as int]), gpr_second_role(n as int)]);
    word_register_of(roles, n as u16)
}

/// Appends the registers of `more` to `list`.
fn append_registers(list: &mut Vec<CoreRegister>, more: Vec<CoreRegister>)
    ensures
        specs_of(final(list)@) == specs_of(old(list)@) + specs_of(more@),
{
    let mut more = more;
    let ghost all = more@;
    let ghost start = list@;
    let mut taken: Ghost<int> = Ghost(0);
    proof {
        assert(start + all.take(0) =~= start);
        assert(all.skip(0) =~= all);
    }
    while more.len() > 0
        invariant
            0 <= taken@ <= all.len(),
            more@ == all.skip(taken@),
            list@ == start + all.take(taken@),
        decreases more@.len(),
    {
        let next = more.remove(0);
        list.push(next);
        proof {
            assert(next == all[taken@]);
            assert(list@ =~= start + all.take(taken@ + 1));
            assert(more@ =~= all.skip(taken@ + 1));
            taken@ = taken@ + 1;
        }
    }
    assert(all.take(taken@) =~= all);
    assert(specs_of(start + all) =~= specs_of(start) + specs_of(all));
}

/// The general purpose registers, LO, HI and the program counter.
pub fn mips32_registers_set() -> (list: Vec<CoreRegister>)
    ensures
        specs_of(list@) == spec_registers_set(),
{
    let mut list: Vec<CoreRegister> = Vec::new();
    let mut n: usize = 0;
    while n < 32
        invariant
            n <= 32,
            list@.len() == n,
            forall|i: int| 0 <= i < n ==> (#[trigger] list@[i])@ == spec_gpr(i),
        decreases 32 - n,
    {
        list.push(gpr(n));
        n += 1;
    }
    let lo = vec![RegisterRole::Other("lo")];
    assert(lo@ =~= seq![RegisterRole::Other("lo")]);
    list.push(word_register_of(lo, 33));
    let hi = vec![RegisterRole::Other("hi")];
    assert(hi@ =~= seq![RegisterRole::Other("hi")]);
    list.push(word_register_of(hi, 34));
    list.push(pc());
    assert(specs_of(list@) =~= spec_registers_set());
    list
}

/// The registers of the floating point unit.
pub fn mips32_fpu_registers() -> (list: Vec<CoreRegister>)
    ensures
        specs_of(list@) == spec_fpu_registers(),
{
    let mut list: Vec<CoreRegister> = Vec::new();
    let mut n: usize = 0;
    while n < 32
        invariant
            n <= 32,
            list@.len() == n,
            forall|i: int| 0 <= i < n ==> (#[trigger] list@[i])@ == spec_fpu_registers()[i],
        decreases 32 - n,
    {
        let roles = vec![RegisterRole::Other(FPU_NAMES[n]), RegisterRole::FloatingPoint];
        assert(roles@ =~= seq![
            RegisterRole::Other(FPU_NAMES@[n as int]),
            RegisterRole::FloatingPoint,
        ]);
        list.push(
            CoreRegister {
                roles,
                id: RegisterId((38 + n) as u16),
                data_type: RegisterDataType::FloatingPoint(32),
                unwind_rule: UnwindRule::Clear,
            },
        );
        n += 1;
    }
    let fcsr = vec![RegisterRole::Other("fcsr"), RegisterRole::FloatingPointStatus];
    assert(fcsr@ =~= seq![RegisterRole::Other("fcsr"), RegisterRole::FloatingPointStatus]);
    list.push(word_register_of(fcsr, 70));
    let fir = vec![RegisterRole::Other("fir"), RegisterRole::FloatingPointStatus];
    assert(fir@ =~= seq![RegisterRole::Other("fir"), RegisterRole::FloatingPointStatus]);
    list.push(word_register_of(fir, 71));
    assert(specs_of(list@) =~= spec_fpu_registers());
    list
}

/// The registers of the DSP extension.
pub fn mips32_dsp_registers() -> (list: Vec<CoreRegister>)
    ensures
        specs_of(list@) == spec_dsp_registers(),
{
    let mut list: Vec<CoreRegister> = Vec::new();
    let mut n: usize = 0;
    while n < 7
        invariant
            n <= 7,
            list@.len() == n,
            forall|i: int| 0 <= i < n ==> (#[trigger] list@[i])@ == spec_dsp_registers()[i],
        decreases 7 - n,
    {
        let roles = vec![RegisterRole::Other(DSP_NAMES[n])];
        assert(roles@ =~= seq![RegisterRole::Other(DSP_NAMES@[n as int])]);
        list.push(word_register_of(roles, (72 + n) as u16));
        n += 1;
    }
    assert(specs_of(list@) =~= spec_dsp_registers());
    list
}

/// The registers of coprocessor 0.
pub fn mips32_cp0_registers() -> (list: Vec<CoreRegister>)
    ensures
        specs_of(list@) == spec_cp0_registers(),
{
    let mut list: Vec<CoreRegister> = Vec::new();
    let mut n: usize = 0;
    while n < 131
        invariant
            n <= 131,
            list@.len() == n,
            forall|i: int| 0 <= i < n ==> (#[trigger] list@[i])@ == spec_cp0_registers()[i],
        decreases 131 - n,
    {
        let row = CP0_ROWS[n];
        let roles = vec![RegisterRole::Other(row.2), RegisterRole::Other(row.3)];
        assert(roles@ =~= seq![RegisterRole::Other(row.2), RegisterRole::Other(row.3)]);
        list.push(word_register_of(roles, cp0_register_id(row.0, row.1)));
        n += 1;
    }
    assert(specs_of(list@) =~= spec_cp0_registers());
    list
}

/// The registers of a core with or without a floating point unit.
pub fn mips32_core_registers(fpu: bool) -> (list: Vec<CoreRegister>)
    ensures
        specs_of(list@) == spec_core_registers(fpu),
{
    let mut list = mips32_registers_set();
    if fpu {
        append_registers(&mut list, mips32_fpu_registers());
    }
    append_registers(&mut list, mips32_cp0_registers());
    list
}

} // verus!
