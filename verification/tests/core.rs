use mips_ejtag::communication_interface::valid_32bit_address;
use mips_ejtag::communication_interface::MipsCommunicationInterface;
use mips_ejtag::core_state::architecture_of;
use mips_ejtag::core_state::CombinedCoreState;
use mips_ejtag::core_state::CoreState;
use mips_ejtag::core_state::ResolvedCoreOptions;
use mips_ejtag::core_state::SpecificCoreState;
use mips_ejtag::debug_regs::Config1;
use mips_ejtag::ejtag::EjtagVersion;
use mips_ejtag::error::Capability;
use mips_ejtag::error::DebugProbeError;
use mips_ejtag::error::Error;
use mips_ejtag::error::MipsError;
use mips_ejtag::mips32::breakpoint_word;
use mips_ejtag::mips32::ibs_with_breakpoints;
use mips_ejtag::mips32::Architecture;
use mips_ejtag::mips32::CoreType;
use mips_ejtag::mips32::Mips32;
use mips_ejtag::mips32::MipsState;
use mips_ejtag::probe::MemoryOp;
use mips_ejtag::registers::cp0_register_id;
use mips_ejtag::registers::mips32_core_registers;
use mips_ejtag::registers::mips32_cp0_registers;
use mips_ejtag::registers::mips32_dsp_registers;
use mips_ejtag::registers::mips32_fpu_registers;
use mips_ejtag::registers::mips32_registers_set;
use mips_ejtag::registers::status;
use mips_ejtag::registers::RegisterDataType;
use mips_ejtag::registers::RegisterId;
use mips_ejtag::registers::RegisterRole;
use mips_ejtag::registers::UnwindRule;
use mips_ejtag::scripted::ScriptedProbe;
use mips_ejtag::sequences::DefaultMipsSequence;
use mips_ejtag::sequences::MipsDebugSequence;
use mips_ejtag::sequences::PIC32MZ;

fn word(value: u32) -> Result<Vec<u8>, DebugProbeError> {
    Ok(value.to_le_bytes().to_vec())
}

fn interface(
    impcode: u32,
    reads: Vec<Result<u32, Error>>,
    writes: Vec<Result<(), Error>>,
) -> MipsCommunicationInterface<ScriptedProbe> {
    let scans = vec![word(0x1234_5679), word(impcode), word(0x0000_8000)];
    match MipsCommunicationInterface::new(ScriptedProbe::new(scans, Ok(()), reads, writes)) {
        Ok(interface) => interface,
        Err((_, e)) => panic!("no connection: {:?}", e),
    }
}

fn read(address: u32, value: u32) -> MemoryOp {
    MemoryOp::ReadWord32 { address, reply: Ok(value) }
}

fn write(address: u32, data: u32) -> MemoryOp {
    MemoryOp::WriteWord32 { address, data, reply: Ok(()) }
}

#[test]
fn the_connection_notes_the_version() {
    let interface = interface(0x8000_0000, vec![], vec![]);
    assert_eq!(interface.state.ejtag_version, EjtagVersion::EJTAG_V41);
    assert_eq!(interface.ejtag.ejtag_version, EjtagVersion::EJTAG_V41);
    let scans = vec![word(1), Ok(vec![])];
    match MipsCommunicationInterface::new(ScriptedProbe::new(scans, Ok(()), vec![], vec![])) {
        Ok(_) => panic!("connected"),
        Err((_, e)) => assert_eq!(e, MipsError::Error(DebugProbeError::DebugSequenceNotSupported)),
    }
}

#[test]
fn enable_bits_of_each_channel_count() {
    assert_eq!(ibs_with_breakpoints(0x0100_0000, true), 0x0100_0001);
    assert_eq!(ibs_with_breakpoints(0x0200_0000, true), 0x0200_0007);
    assert_eq!(ibs_with_breakpoints(0x0300_0000, true), 0x0300_0003);
    assert_eq!(ibs_with_breakpoints(0x0400_0000, true), 0x0400_000F);
    assert_eq!(ibs_with_breakpoints(0x0000_0000, true), 0x0000_0000);
    assert_eq!(ibs_with_breakpoints(0x0500_0000, true), 0x0500_0000);
    assert_eq!(ibs_with_breakpoints(0x0F00_0000, true), 0x0F00_0000);
    assert_eq!(ibs_with_breakpoints(0x4200_0008, true), 0x4200_000F);
    for bcn in 0..16u32 {
        let ibs = bcn << 24 | 0x5;
        assert_eq!(ibs_with_breakpoints(ibs, false), ibs);
    }
}

#[test]
fn breakpoint_addresses_have_32_bits() {
    assert_eq!(breakpoint_word(0), Ok(0));
    assert_eq!(breakpoint_word(0x8000_1000), Ok(0x8000_1000));
    assert_eq!(breakpoint_word(0xFFFF_FFFF), Ok(0xFFFF_FFFF));
    assert_eq!(
        breakpoint_word(0x1_0000_0000),
        Err(Error::Mips(MipsError::BreakpointError(0)))
    );
    assert_eq!(
        breakpoint_word(0xFFFF_FFFF_8000_1234),
        Err(Error::Mips(MipsError::BreakpointError(0x8000_1234)))
    );
}

#[test]
fn the_number_of_units_is_read_once() {
    let mut interface = interface(0x2000_0000, vec![Ok(0x0400_0000), Ok(0x0200_0000)], vec![]);
    let mut state = MipsState::new();
    let mut core = Mips32::new(&mut interface, &mut state, 3);
    assert_eq!(core.id(), 3);
    assert_eq!(core.breakpoints, 0);
    assert_eq!(core.available_breakpoint_units(), Ok(4));
    assert_eq!(core.breakpoints, 4);
    assert_eq!(core.available_breakpoint_units(), Ok(4));
    assert_eq!(interface.ejtag.probe.memory_log(), &vec![read(0xFF30_1000, 0x0400_0000)]);
}

#[test]
fn a_count_of_zero_is_read_again() {
    let mut interface = interface(
        0x2000_0000,
        vec![Ok(0), Err(Error::Timeout), Ok(0x0100_0000)],
        vec![],
    );
    let mut state = MipsState::new();
    let mut core = Mips32::new(&mut interface, &mut state, 0);
    assert_eq!(core.available_breakpoint_units(), Ok(0));
    assert_eq!(core.available_breakpoint_units(), Err(Error::Timeout));
    assert_eq!(core.breakpoints, 0);
    assert_eq!(core.available_breakpoint_units(), Ok(1));
    assert_eq!(interface.ejtag.probe.memory_log().len(), 3);
}

#[test]
fn breakpoints_are_listed_unit_by_unit() {
    let mut interface = interface(
        0x2000_0000,
        vec![Ok(0x0300_0000), Ok(0), Ok(0x8000_1000), Ok(0x9d00_0004)],
        vec![],
    );
    let mut state = MipsState::new();
    let mut core = Mips32::new(&mut interface, &mut state, 0);
    assert_eq!(
        core.hw_breakpoints(),
        Ok(vec![None, Some(0x8000_1000), Some(0x9d00_0004)])
    );
    assert_eq!(core.breakpoints, 3);
    assert_eq!(
        interface.ejtag.probe.memory_log(),
        &vec![
            read(0xFF30_1000, 0x0300_0000),
            read(0xFF30_1100, 0),
            read(0xFF30_1200, 0x8000_1000),
            read(0xFF30_1300, 0x9d00_0004),
        ]
    );
}

#[test]
fn listing_uses_the_map_of_the_oldest_unit() {
    let mut interface = interface(0x0000_0000, vec![Ok(0x0200_0000), Ok(7), Ok(0)], vec![]);
    let mut state = MipsState::new();
    let mut core = Mips32::new(&mut interface, &mut state, 0);
    assert_eq!(core.hw_breakpoints(), Ok(vec![Some(7), None]));
    assert_eq!(
        interface.ejtag.probe.memory_log(),
        &vec![read(0xFF30_0004, 0x0200_0000), read(0xFF30_0100, 7), read(0xFF30_0110, 0)]
    );
}

#[test]
fn listing_stops_at_a_read_that_fails() {
    let mut interface = interface(
        0x2000_0000,
        vec![Ok(0x0400_0000), Ok(1), Err(Error::Probe(DebugProbeError::ProbeSpecific(2)))],
        vec![],
    );
    let mut state = MipsState::new();
    let mut core = Mips32::new(&mut interface, &mut state, 0);
    assert_eq!(
        core.hw_breakpoints(),
        Err(Error::Probe(DebugProbeError::ProbeSpecific(2)))
    );
    assert_eq!(core.breakpoints, 4);
    assert_eq!(interface.ejtag.probe.memory_log().len(), 3);
}

#[test]
fn a_map_beyond_the_address_space_is_an_overflow() {
    let mut interface = interface(0x2000_0000, vec![Ok(0x0400_0000), Ok(0)], vec![]);
    interface.ejtag.offsets.ejtag_iba0_offs = 0x00CF_FF00;
    let mut state = MipsState::new();
    let mut core = Mips32::new(&mut interface, &mut state, 0);
    assert_eq!(core.hw_breakpoints(), Err(Error::AddressOverflow));
    assert_eq!(core.set_hw_breakpoint(0, 0x8000_0000), Ok(()));
    assert_eq!(core.set_hw_breakpoint(1, 0x8000_0000), Err(Error::AddressOverflow));
    assert_eq!(
        interface.ejtag.probe.memory_log(),
        &vec![
            read(0xFF30_1000, 0x0400_0000),
            read(0xFFFF_FF00, 0),
            write(0xFFFF_FF00, 0x8000_0000),
        ]
    );
}

#[test]
fn enabling_sets_the_bits_of_the_channel_count() {
    for (bcn, mask) in [(1u32, 0b0001u32), (2, 0b0111), (3, 0b0011), (4, 0b1111)] {
        let ibs = bcn << 24;
        let mut interface = interface(0x2000_0000, vec![Ok(ibs)], vec![]);
        let mut state = MipsState::new();
        let mut core = Mips32::new(&mut interface, &mut state, 0);
        assert_eq!(core.enable_breakpoints(true), Ok(()));
        assert_eq!(core.breakpoints, bcn);
        assert_eq!(
            interface.ejtag.probe.memory_log(),
            &vec![read(0xFF30_1000, ibs), write(0xFF30_1000, ibs | mask)]
        );
    }
}

#[test]
fn disabling_writes_the_status_back() {
    let mut interface = interface(0x2000_0000, vec![Ok(0x0400_0005), Ok(0x0200_0000)], vec![]);
    let mut state = MipsState::new();
    let mut core = Mips32::new(&mut interface, &mut state, 0);
    assert_eq!(core.enable_breakpoints(false), Ok(()));
    assert_eq!(core.breakpoints, 4);
    assert_eq!(core.enable_breakpoints(true), Ok(()));
    assert_eq!(core.breakpoints, 4);
    assert_eq!(
        interface.ejtag.probe.memory_log(),
        &vec![
            read(0xFF30_1000, 0x0400_0005),
            write(0xFF30_1000, 0x0400_0005),
            read(0xFF30_1000, 0x0200_0000),
            write(0xFF30_1000, 0x0200_0007),
        ]
    );
}

#[test]
fn enabling_reports_a_failure_of_the_probe() {
    let mut interface = interface(0x2000_0000, vec![Ok(0x0100_0000)], vec![Err(Error::Timeout)]);
    let mut state = MipsState::new();
    let mut core = Mips32::new(&mut interface, &mut state, 0);
    assert_eq!(core.enable_breakpoints(true), Err(Error::Timeout));
    assert_eq!(core.enable_breakpoints(true), Err(Error::Probe(DebugProbeError::Timeout)));
    assert_eq!(interface.ejtag.probe.memory_log().len(), 3);
}

#[test]
fn a_breakpoint_is_written_to_the_address_register_of_its_unit() {
    let mut interface = interface(0x2000_0000, vec![Ok(0x0400_0000)], vec![]);
    let mut state = MipsState::new();
    let mut core = Mips32::new(&mut interface, &mut state, 0);
    assert_eq!(core.set_hw_breakpoint(1, 0x8000_2000), Ok(()));
    assert_eq!(core.set_hw_breakpoint(0, 0x9d00_0000), Ok(()));
    assert_eq!(core.breakpoints, 4);
    assert_eq!(
        interface.ejtag.probe.memory_log(),
        &vec![
            read(0xFF30_1000, 0x0400_0000),
            write(0xFF30_1200, 0x8000_2000),
            write(0xFF30_1100, 0x9d00_0000),
        ]
    );
}

#[test]
fn a_breakpoint_beyond_32_bits_is_refused_without_any_access() {
    let mut interface = interface(0x2000_0000, vec![Ok(0x0400_0000)], vec![]);
    let mut state = MipsState::new();
    let mut core = Mips32::new(&mut interface, &mut state, 0);
    assert_eq!(
        core.set_hw_breakpoint(0, 0x1_0000_0000),
        Err(Error::Mips(MipsError::BreakpointError(0)))
    );
    assert_eq!(
        core.set_hw_breakpoint(2, 0x7_8000_2000),
        Err(Error::Mips(MipsError::BreakpointError(0x8000_2000)))
    );
    assert_eq!(core.breakpoints, 0);
    assert!(interface.ejtag.probe.memory_log().is_empty());
    assert_eq!(interface.ejtag.probe.scan_log().len(), 4);
}

#[test]
fn clearing_writes_zero_once_for_each_unit() {
    let mut interface = interface(0x2000_0000, vec![Ok(0x0200_0000)], vec![]);
    let mut state = MipsState::new();
    let mut core = Mips32::new(&mut interface, &mut state, 0);
    assert_eq!(core.clear_hw_breakpoint(1), Ok(()));
    assert_eq!(
        interface.ejtag.probe.memory_log(),
        &vec![read(0xFF30_1000, 0x0200_0000), write(0xFF30_1200, 0), write(0xFF30_1200, 0)]
    );
}

#[test]
fn clearing_stops_at_a_write_that_fails() {
    let mut interface = interface(
        0x2000_0000,
        vec![Ok(0x0300_0000), Ok(0)],
        vec![Ok(()), Err(Error::Timeout)],
    );
    let mut state = MipsState::new();
    let mut core = Mips32::new(&mut interface, &mut state, 0);
    assert_eq!(core.clear_hw_breakpoint(0), Err(Error::Timeout));
    assert_eq!(interface.ejtag.probe.memory_log().len(), 3);
    let mut core = Mips32::new(&mut interface, &mut state, 0);
    assert_eq!(core.clear_hw_breakpoint(0), Ok(()));
    assert_eq!(interface.ejtag.probe.memory_log().len(), 4);
}

#[test]
fn words_of_memory_are_read_and_written() {
    let mut interface = interface(0x2000_0000, vec![Ok(0xCAFE_F00D), Ok(0x1234_56AB)], vec![]);
    let mut state = MipsState::new();
    let mut core = Mips32::new(&mut interface, &mut state, 0);
    assert_eq!(core.read_word_32(0x8000_0000), Ok(0xCAFE_F00D));
    assert_eq!(core.read_word_8(0x8000_0005), Ok(0xAB));
    assert_eq!(core.write_word_32(0xA000_0000, 7), Ok(()));
    assert_eq!(core.write_word_8(0xA000_0001, 9), Ok(()));
    assert_eq!(
        core.read_word_32(0x1_0000_0000),
        Err(Error::InvalidAddress(0x1_0000_0000))
    );
    assert_eq!(core.read_word_8(u64::MAX), Err(Error::InvalidAddress(u64::MAX)));
    assert_eq!(
        core.write_word_32(0x1_0000_0000, 1),
        Err(Error::InvalidAddress(0x1_0000_0000))
    );
    assert_eq!(
        core.write_word_8(0x2_0000_0000, 1),
        Err(Error::InvalidAddress(0x2_0000_0000))
    );
    assert_eq!(
        interface.ejtag.probe.memory_log(),
        &vec![
            read(0x8000_0000, 0xCAFE_F00D),
            MemoryOp::ReadWord8 { address: 0x8000_0005, reply: Ok(0xAB) },
            write(0xA000_0000, 7),
            MemoryOp::WriteWord8 { address: 0xA000_0001, data: 9, reply: Ok(()) },
        ]
    );
}

#[test]
fn a_64_bit_word_is_two_words_low_first() {
    let mut interface = interface(
        0x2000_0000,
        vec![Ok(0x89AB_CDEF), Ok(0x0123_4567), Ok(1), Ok(5), Err(Error::Timeout)],
        vec![],
    );
    assert_eq!(interface.read_word_64(0x8000_0000), Ok(0x0123_4567_89AB_CDEF));
    assert_eq!(
        interface.read_word_64(0xFFFF_FFFC),
        Err(Error::InvalidAddress(0x1_0000_0000))
    );
    assert_eq!(
        interface.read_word_64(0x1_0000_0000),
        Err(Error::InvalidAddress(0x1_0000_0000))
    );
    assert_eq!(interface.read_word_64(0x10), Err(Error::Timeout));
    assert_eq!(interface.write_word_64(0x20, 0x1111_2222_3333_4444), Ok(()));
    assert_eq!(
        interface.write_word_64(0xFFFF_FFFC, 0x5555_6666_7777_8888),
        Err(Error::InvalidAddress(0x1_0000_0000))
    );
    assert_eq!(
        interface.ejtag.probe.memory_log(),
        &vec![
            read(0x8000_0000, 0x89AB_CDEF),
            read(0x8000_0004, 0x0123_4567),
            read(0xFFFF_FFFC, 1),
            read(0x10, 5),
            MemoryOp::ReadWord32 { address: 0x14, reply: Err(Error::Timeout) },
            write(0x20, 0x3333_4444),
            write(0x24, 0x1111_2222),
            write(0xFFFF_FFFC, 0x7777_8888),
        ]
    );
    assert!(!interface.supports_native_64bit_access());
    assert_eq!(interface.supports_8bit_transfers(), Ok(true));
    assert_eq!(interface.flush(), Ok(()));
}

#[test]
fn addresses_of_the_target_have_32_bits() {
    assert_eq!(valid_32bit_address(0), Ok(0));
    assert_eq!(valid_32bit_address(0xFFFF_FFFF), Ok(0xFFFF_FFFF));
    assert_eq!(
        valid_32bit_address(0x1_0000_0000),
        Err(Error::InvalidAddress(0x1_0000_0000))
    );
}

#[test]
fn what_the_core_can_and_cannot_do() {
    let mut interface = interface(0x2000_0000, vec![], vec![]);
    interface.ejtag.debug_ctrl.0 = 0x0001_0000;
    let mut state = MipsState::new();
    let mut core = Mips32::new(&mut interface, &mut state, 9);
    assert_eq!(core.architecture(), Architecture::Mips);
    assert_eq!(core.core_type(), CoreType::Mips);
    assert_eq!(core.fpu_support(), Ok(false));
    assert!(core.hw_breakpoints_enabled());
    assert!(!core.supports_native_64bit_access());
    assert_eq!(core.supports_8bit_transfers(), Ok(true));
    assert_eq!(core.flush(), Ok(()));
    assert_eq!(core.debug_on_sw_breakpoint(true), Ok(()));
    assert_eq!(core.on_session_stop(), Ok(()));
    assert_eq!(
        core.exception_details(),
        Err(Error::NotImplemented(Capability::ExceptionDetails))
    );
    assert_eq!(
        core.calling_frame_registers(),
        Err(Error::NotImplemented(Capability::CallingFrameRegisters))
    );
    assert_eq!(
        core.exception_description(),
        Err(Error::NotImplemented(Capability::ExceptionDescription))
    );
    assert_eq!(
        core.enable_vector_catch(),
        Err(Error::NotImplemented(Capability::VectorCatch))
    );
    assert_eq!(
        core.disable_vector_catch(),
        Err(Error::NotImplemented(Capability::VectorCatch))
    );
    assert!(interface.ejtag.probe.memory_log().is_empty());
    assert_eq!(interface.ejtag.probe.scan_log().len(), 4);
}

#[test]
fn the_registers_follow_the_floating_point_unit() {
    let mut interface = interface(0x2000_0000, vec![], vec![]);
    let mut state = MipsState::new();
    {
        let core = Mips32::new(&mut interface, &mut state, 0);
        assert_eq!(core.registers().len(), 35 + 131);
        assert_eq!(core.registers(), mips32_core_registers(false));
        assert_eq!(core.program_counter().id, RegisterId(37));
        assert_eq!(core.stack_pointer().id, RegisterId(29));
        assert_eq!(core.frame_pointer().id, RegisterId(30));
        assert_eq!(core.return_address().id, RegisterId(31));
    }
    state.cfg = Config1(1);
    let mut core = Mips32::new(&mut interface, &mut state, 0);
    assert_eq!(core.fpu_support(), Ok(true));
    assert_eq!(core.registers().len(), 35 + 34 + 131);
    assert_eq!(core.registers(), mips32_core_registers(true));
}

#[test]
fn the_general_purpose_registers() {
    let set = mips32_registers_set();
    assert_eq!(set.len(), 35);
    for (n, reg) in set.iter().take(32).enumerate() {
        assert_eq!(reg.id, RegisterId(n as u16));
        assert_eq!(reg.data_type, RegisterDataType::UnsignedInteger(32));
        assert_eq!(reg.unwind_rule, UnwindRule::Clear);
        assert_eq!(reg.roles.len(), 2);
    }
    assert_eq!(set[0].roles, vec![RegisterRole::Core("r0"), RegisterRole::Other("zero")]);
    assert_eq!(set[2].roles, vec![RegisterRole::Core("r2"), RegisterRole::Return("v0")]);
    assert_eq!(set[4].roles, vec![RegisterRole::Core("r4"), RegisterRole::Argument("a0")]);
    assert_eq!(set[7].roles, vec![RegisterRole::Core("r7"), RegisterRole::Argument("a3")]);
    assert_eq!(set[8].roles, vec![RegisterRole::Core("r8"), RegisterRole::Other("t0")]);
    assert_eq!(set[28].roles, vec![RegisterRole::Core("r28"), RegisterRole::Other("gp")]);
    assert_eq!(set[29].roles, vec![RegisterRole::Core("r29"), RegisterRole::StackPointer]);
    assert_eq!(set[30].roles, vec![RegisterRole::Core("r30"), RegisterRole::FramePointer]);
    assert_eq!(set[31].roles, vec![RegisterRole::Core("r31"), RegisterRole::ReturnAddress]);
    assert_eq!(set[32].roles, vec![RegisterRole::Other("lo")]);
    assert_eq!(set[32].id, RegisterId(33));
    assert_eq!(set[33].roles, vec![RegisterRole::Other("hi")]);
    assert_eq!(set[33].id, RegisterId(34));
    assert_eq!(set[34].roles, vec![RegisterRole::ProgramCounter]);
    assert_eq!(set[34].id, RegisterId(37));
    assert_eq!(status().id, RegisterId(32));
    assert_eq!(status().roles, vec![RegisterRole::ProcessorStatus]);
}

#[test]
fn the_other_register_sets() {
    let fpu = mips32_fpu_registers();
    assert_eq!(fpu.len(), 34);
    assert_eq!(fpu[0].id, RegisterId(38));
    assert_eq!(fpu[0].roles, vec![RegisterRole::Other("f0"), RegisterRole::FloatingPoint]);
    assert_eq!(fpu[31].id, RegisterId(69));
    assert_eq!(fpu[31].data_type, RegisterDataType::FloatingPoint(32));
    assert_eq!(fpu[32].id, RegisterId(70));
    assert_eq!(
        fpu[32].roles,
        vec![RegisterRole::Other("fcsr"), RegisterRole::FloatingPointStatus]
    );
    assert_eq!(fpu[33].id, RegisterId(71));
    assert_eq!(fpu[33].data_type, RegisterDataType::UnsignedInteger(32));
    let dsp = mips32_dsp_registers();
    assert_eq!(dsp.len(), 7);
    assert_eq!(dsp[0].id, RegisterId(72));
    assert_eq!(dsp[0].roles, vec![RegisterRole::Other("hi1")]);
    assert_eq!(dsp[6].id, RegisterId(78));
    assert_eq!(dsp[6].roles, vec![RegisterRole::Other("dspctl")]);
    let cp0 = mips32_cp0_registers();
    assert_eq!(cp0.len(), 131);
    assert_eq!(cp0[0].id, RegisterId(0x8000));
    assert_eq!(cp0[0].roles, vec![RegisterRole::Other("cp0.0.0"), RegisterRole::Other("index")]);
    assert_eq!(cp0[12].id, RegisterId(0x8060));
    assert_eq!(
        cp0[12].roles,
        vec![RegisterRole::Other("cp0.12.0"), RegisterRole::Other("status")]
    );
    assert_eq!(cp0[130].id, RegisterId(0x80FF));
    assert_eq!(
        cp0[130].roles,
        vec![RegisterRole::Other("cp0.31.7"), RegisterRole::Other("kscratch6")]
    );
    assert_eq!(cp0_register_id(23, 0), 0x80B8);
    assert_eq!(cp0_register_id(16, 1), 0x8081);
    let all = mips32_core_registers(true);
    assert_eq!(all[35].id, RegisterId(38));
    assert_eq!(all[69].id, RegisterId(0x8000));
    assert_eq!(mips32_core_registers(false)[35].id, RegisterId(0x8000));
}

#[test]
fn errors_are_carried_up() {
    assert_eq!(
        MipsError::from(DebugProbeError::Timeout),
        MipsError::Error(DebugProbeError::Timeout)
    );
    assert_eq!(
        Error::from(DebugProbeError::ProbeSpecific(4)),
        Error::Probe(DebugProbeError::ProbeSpecific(4))
    );
    assert_eq!(
        Error::from(MipsError::Error(DebugProbeError::DebugSequenceNotSupported)),
        Error::Probe(DebugProbeError::DebugSequenceNotSupported)
    );
    assert_eq!(Error::from(MipsError::TargetError), Error::Timeout);
    assert_eq!(
        Error::from(MipsError::BreakpointError(5)),
        Error::Mips(MipsError::BreakpointError(5))
    );
    assert_eq!(Error::from(MipsError::HaltFailed), Error::Mips(MipsError::HaltFailed));
    assert_eq!(
        Error::from(MipsError::ThreadInvalidError(2)),
        Error::Mips(MipsError::ThreadInvalidError(2))
    );
}

#[test]
fn the_state_of_a_fresh_core_tells_its_kind() {
    for typ in [
        CoreType::Armv6m,
        CoreType::Armv7a,
        CoreType::Armv7m,
        CoreType::Armv8a,
        CoreType::Armv8m,
        CoreType::Riscv,
        CoreType::Mips,
    ] {
        assert_eq!(SpecificCoreState::from_core_type(typ).core_type(), typ);
    }
    assert_eq!(
        SpecificCoreState::from_core_type(CoreType::Armv7em).core_type(),
        CoreType::Armv7m
    );
    assert_eq!(SpecificCoreState::Armv7em.core_type(), CoreType::Armv7em);
    assert_eq!(
        SpecificCoreState::from_core_type(CoreType::Mips),
        SpecificCoreState::Mips(MipsState { cfg: Config1(0) })
    );
    assert_eq!(architecture_of(CoreType::Mips), Architecture::Mips);
    assert_eq!(architecture_of(CoreType::Riscv), Architecture::Riscv);
    assert_eq!(architecture_of(CoreType::Armv8m), Architecture::Arm);
}

#[test]
fn attaching_needs_a_core_of_the_architecture() {
    let mut interface = interface(0x2000_0000, vec![Ok(0x0100_0000)], vec![]);
    let mut combined = CombinedCoreState {
        core_state: CoreState::new(ResolvedCoreOptions::Mips),
        specific_state: SpecificCoreState::from_core_type(CoreType::Mips),
        id: 2,
    };
    assert_eq!(combined.id(), 2);
    assert_eq!(combined.core_type(), CoreType::Mips);
    match combined.attach_mips(&mut interface) {
        Ok(mut core) => {
            assert_eq!(core.id(), 2);
            assert_eq!(core.available_breakpoint_units(), Ok(1));
        }
        Err(e) => panic!("not attached: {:?}", e),
    }
    let mut other = CombinedCoreState {
        core_state: CoreState::new(ResolvedCoreOptions::Riscv),
        specific_state: SpecificCoreState::from_core_type(CoreType::Riscv),
        id: 1,
    };
    assert_eq!(other.core_type(), CoreType::Riscv);
    match other.attach_mips(&mut interface) {
        Ok(_) => panic!("attached"),
        Err(e) => assert_eq!(e, Error::UnableToOpenProbe),
    }
}

#[test]
fn the_steps_after_connecting_leave_the_connection_alone() {
    let mut interface = interface(0x2000_0000, vec![], vec![]);
    let default = DefaultMipsSequence::create();
    assert_eq!(default.on_connect(&mut interface), Ok(()));
    let pic32 = PIC32MZ::create();
    assert_eq!(pic32.on_connect(&mut interface), Ok(()));
    assert_eq!(interface.ejtag.probe.scan_log().len(), 4);
    assert!(interface.ejtag.probe.memory_log().is_empty());
}
