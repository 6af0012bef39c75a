use mips_ejtag::assembly::mips_beq;
use mips_ejtag::assembly::mips_lui;
use mips_ejtag::assembly::mips_mfc0;
use mips_ejtag::assembly::mips_mtc0;
use mips_ejtag::assembly::mips_ori;
use mips_ejtag::assembly::mips_xori;
use mips_ejtag::assembly::Mips32Instruction;
use mips_ejtag::assembly::T0;
use mips_ejtag::assembly::ZERO;
use mips_ejtag::debug_regs::EjtagCtrl;
use mips_ejtag::ejtag::build_step_sequence;
use mips_ejtag::ejtag::decode_scan;
use mips_ejtag::ejtag::poll_step;
use mips_ejtag::ejtag::BreakpointRegister;
use mips_ejtag::ejtag::Ejtag;
use mips_ejtag::ejtag::EjtagOffsets;
use mips_ejtag::ejtag::EjtagVersion;
use mips_ejtag::ejtag::PollStep;
use mips_ejtag::ejtag::SessionPhase;
use mips_ejtag::ejtag::EJTAG_DRSEG;
use mips_ejtag::error::DebugProbeError;
use mips_ejtag::error::Error;
use mips_ejtag::error::MipsError;
use mips_ejtag::probe::JtagProbe;
use mips_ejtag::probe::Traced;
use mips_ejtag::scripted::ScanRecord;
use mips_ejtag::scripted::ScriptedProbe;
use std::time::Duration;
use std::time::Instant;

fn word(value: u32) -> Result<Vec<u8>, DebugProbeError> {
    Ok(value.to_le_bytes().to_vec())
}

fn probe_with(scans: Vec<Result<Vec<u8>, DebugProbeError>>) -> ScriptedProbe {
    ScriptedProbe::new(scans, Ok(()), vec![], vec![])
}

fn connected(impcode: u32, more: Vec<Result<Vec<u8>, DebugProbeError>>) -> Ejtag<ScriptedProbe> {
    let mut scans = vec![word(0x1234_5679), word(impcode), word(0x0000_8000)];
    scans.extend(more);
    match Ejtag::new(probe_with(scans)) {
        Ok(ejtag) => ejtag,
        Err((_, e)) => panic!("no connection: {:?}", e),
    }
}

fn read_of(address: u32, len: u32, value: u32) -> ScanRecord {
    ScanRecord::ReadRegister { address, len, reply: word(value) }
}

#[test]
fn version_of_every_raw_byte() {
    for raw in 0..=255u8 {
        let expected = match raw {
            0 => EjtagVersion::EJTAG_V20,
            1 => EjtagVersion::EJTAG_V25,
            2 => EjtagVersion::EJTAG_V26,
            3 => EjtagVersion::EJTAG_V31,
            4 => EjtagVersion::EJTAG_V41,
            5 => EjtagVersion::EJTAG_V51,
            255 => EjtagVersion::NoModule,
            other => EjtagVersion::Unknown(other),
        };
        assert_eq!(EjtagVersion::from(raw), expected);
    }
}

#[test]
fn the_two_memory_maps() {
    let old = EjtagOffsets::for_version(EjtagVersion::EJTAG_V20);
    assert_eq!(old.ejtag_ibs_offs, 0x0004);
    assert_eq!(old.ejtag_iba0_offs, 0x0100);
    assert_eq!(old.ejtag_ibc_offs, 0x0104);
    assert_eq!(old.ejtag_ibm_offs, 0x0108);
    assert_eq!(old.ejtag_ibasid_offs, 0x0010);
    assert_eq!(old.ejtag_dbs_addr, 0x0008);
    assert_eq!(old.ejtag_dba0_addr, 0x0200);
    assert_eq!(old.ejtag_dbc_offs, 0x0204);
    assert_eq!(old.ejtag_dbm_offs, 0x0208);
    assert_eq!(old.ejtag_dbv_offs, 0x020C);
    assert_eq!(old.ejtag_dbasid_offs, 0x2110);
    assert_eq!(old.ejtag_iba_step_size, 0x10);
    assert_eq!(old.ejtag_dba_step_size, 0x10);
    let new = EjtagOffsets::for_version(EjtagVersion::EJTAG_V25);
    assert_eq!(new.ejtag_ibs_offs, 0x1000);
    assert_eq!(new.ejtag_iba0_offs, 0x1100);
    assert_eq!(new.ejtag_ibc_offs, 0x0018);
    assert_eq!(new.ejtag_ibm_offs, 0x0008);
    assert_eq!(new.ejtag_ibasid_offs, 0x0010);
    assert_eq!(new.ejtag_dbs_addr, 0x2000);
    assert_eq!(new.ejtag_dba0_addr, 0x2100);
    assert_eq!(new.ejtag_dbc_offs, 0x2118);
    assert_eq!(new.ejtag_dbm_offs, 0x2108);
    assert_eq!(new.ejtag_dbv_offs, 0x2120);
    assert_eq!(new.ejtag_dbasid_offs, 0x2110);
    assert_eq!(new.ejtag_iba_step_size, 0x0100);
    assert_eq!(new.ejtag_dba_step_size, 0x0100);
    for version in [
        EjtagVersion::EJTAG_V26,
        EjtagVersion::EJTAG_V31,
        EjtagVersion::EJTAG_V41,
        EjtagVersion::EJTAG_V51,
        EjtagVersion::NoModule,
        EjtagVersion::Unknown(7),
    ] {
        assert_eq!(EjtagOffsets::for_version(version), new);
    }
}

#[test]
fn register_addresses_of_both_maps() {
    let old = EjtagOffsets::for_version(EjtagVersion::EJTAG_V20);
    let new = EjtagOffsets::for_version(EjtagVersion::EJTAG_V31);
    assert_eq!(
        old.get_mmio_address_by_id(EJTAG_DRSEG, BreakpointRegister::Ibs, 0),
        Ok(0xFF30_0004)
    );
    assert_eq!(
        old.get_mmio_address_by_id(EJTAG_DRSEG, BreakpointRegister::Iba, 3),
        Ok(0xFF30_0130)
    );
    assert_eq!(
        new.get_mmio_address_by_id(EJTAG_DRSEG, BreakpointRegister::Ibs, 0),
        Ok(0xFF30_1000)
    );
    assert_eq!(
        new.get_mmio_address_by_id(EJTAG_DRSEG, BreakpointRegister::Iba, 2),
        Ok(0xFF30_1300)
    );
    assert_eq!(
        new.get_mmio_address_by_id(EJTAG_DRSEG, BreakpointRegister::Dba, 1),
        Ok(0xFF30_2200)
    );
    assert_eq!(new.entry(BreakpointRegister::Dbv), 0x2120);
    assert_eq!(new.step(BreakpointRegister::Dbc), 0x100);
    assert!(BreakpointRegister::Ibc.is_instruction());
    assert!(!BreakpointRegister::Dbs.is_instruction());
}

#[test]
fn register_address_beyond_32_bits_is_an_overflow() {
    let old = EjtagOffsets::for_version(EjtagVersion::EJTAG_V20);
    assert_eq!(old.entry(BreakpointRegister::Iba), 0x100);
    assert_eq!(
        old.get_mmio_address_by_id(0xFFFF_FFF0, BreakpointRegister::Iba, 1),
        Err(Error::AddressOverflow)
    );
    assert_eq!(
        old.get_mmio_address_by_id(0xFFFF_FEEF, BreakpointRegister::Iba, 1),
        Ok(0xFFFF_FFFF)
    );
    assert_eq!(
        old.get_mmio_address_by_id(0xFFFF_FEF0, BreakpointRegister::Iba, 1),
        Err(Error::AddressOverflow)
    );
    assert_eq!(
        old.get_mmio_address_by_id(u64::MAX, BreakpointRegister::Iba, usize::MAX),
        Err(Error::AddressOverflow)
    );
}

#[test]
fn scan_answers_are_decoded() {
    assert_eq!(decode_scan(Ok(vec![0x78, 0x56, 0x34, 0x12])), Ok(0x1234_5678));
    assert_eq!(decode_scan(Ok(vec![0x78, 0x56, 0x34, 0x12, 9, 9])), Ok(0x1234_5678));
    assert_eq!(
        decode_scan(Ok(vec![0x78, 0x56, 0x34])),
        Err(DebugProbeError::DebugSequenceNotSupported)
    );
    assert_eq!(decode_scan(Ok(vec![])), Err(DebugProbeError::DebugSequenceNotSupported));
    assert_eq!(
        decode_scan(Err(DebugProbeError::ProbeSpecific(7))),
        Err(DebugProbeError::ProbeSpecific(7))
    );
}

#[test]
fn connecting_reads_three_registers() {
    let ejtag = connected(0x6001_0000, vec![]);
    assert_eq!(ejtag.idcode.0, 0x1234_5679);
    assert_eq!(ejtag.impcode.0, 0x6001_0000);
    assert_eq!(ejtag.ejtag_ctrl, EjtagCtrl(0x0000_8000));
    assert_eq!(ejtag.debug_ctrl.0, 0);
    assert_eq!(ejtag.ejtag_version, EjtagVersion::EJTAG_V31);
    assert_eq!(ejtag.offsets, EjtagOffsets::for_version(EjtagVersion::EJTAG_V25));
    assert_eq!(ejtag.isa, 0x0001_0000);
    assert_eq!(ejtag.phase, SessionPhase::Connected);
    assert_eq!(ejtag.reg_t0, 0);
    assert_eq!(ejtag.config, [0, 0, 0, 0]);
    assert_eq!(
        ejtag.probe.scan_log(),
        &vec![
            ScanRecord::SetIrLen { len: 5 },
            read_of(0x01, 32, 0x1234_5679),
            read_of(0x03, 32, 0x6001_0000),
            read_of(0x0A, 32, 0x0000_8000),
        ]
    );
}

#[test]
fn connecting_to_the_oldest_unit_selects_its_map() {
    let ejtag = connected(0x0000_0000, vec![]);
    assert_eq!(ejtag.ejtag_version, EjtagVersion::EJTAG_V20);
    assert_eq!(ejtag.offsets, EjtagOffsets::for_version(EjtagVersion::EJTAG_V20));
    assert_eq!(ejtag.offsets.ejtag_ibs_offs, 4);
    assert_eq!(ejtag.isa, 0);
    let ejtag = connected(0xE000_0000, vec![]);
    assert_eq!(ejtag.ejtag_version, EjtagVersion::Unknown(7));
    assert_eq!(ejtag.offsets.ejtag_ibs_offs, 0x1000);
}

#[test]
fn connecting_fails_on_a_short_answer() {
    let probe = probe_with(vec![word(1), Ok(vec![1, 2, 3]), word(3)]);
    match Ejtag::new(probe) {
        Ok(_) => panic!("connected"),
        Err((probe, e)) => {
            assert_eq!(e, MipsError::Error(DebugProbeError::DebugSequenceNotSupported));
            assert_eq!(probe.scan_log().len(), 3);
        }
    }
}

#[test]
fn connecting_fails_with_the_error_of_the_transport() {
    let probe = probe_with(vec![Err(DebugProbeError::ProbeSpecific(3))]);
    match Ejtag::new(probe) {
        Ok(_) => panic!("connected"),
        Err((probe, e)) => {
            assert_eq!(e, MipsError::Error(DebugProbeError::ProbeSpecific(3)));
            assert_eq!(
                probe.scan_log(),
                &vec![
                    ScanRecord::SetIrLen { len: 5 },
                    ScanRecord::ReadRegister {
                        address: 0x01,
                        len: 32,
                        reply: Err(DebugProbeError::ProbeSpecific(3)),
                    },
                ]
            );
        }
    }
    let probe = probe_with(vec![word(1), word(2)]);
    match Ejtag::new(probe) {
        Ok(_) => panic!("connected"),
        Err((probe, e)) => {
            assert_eq!(e, MipsError::Error(DebugProbeError::Timeout));
            assert_eq!(probe.scan_log().len(), 4);
        }
    }
}

#[test]
fn reading_the_control_register_refreshes_the_kept_value() {
    let mut ejtag = connected(0x2000_0000, vec![word(0x0004_8000), Ok(vec![1])]);
    assert_eq!(ejtag.get_ejtag_ctrl(), Ok(EjtagCtrl(0x0004_8000)));
    assert_eq!(ejtag.ejtag_ctrl, EjtagCtrl(0x0004_8000));
    assert_eq!(
        ejtag.get_ejtag_ctrl(),
        Err(DebugProbeError::DebugSequenceNotSupported)
    );
    assert_eq!(ejtag.ejtag_ctrl, EjtagCtrl(0x0004_8000));
    assert_eq!(ejtag.probe.scan_log().len(), 6);
    assert_eq!(ejtag.probe.scan_log()[4], read_of(0x0A, 32, 0x0004_8000));
}

#[test]
fn writing_the_control_register_keeps_what_was_shifted_out() {
    let mut ejtag = connected(
        0x2000_0000,
        vec![word(0x0000_8000), Ok(vec![0x11, 0x22]), Err(DebugProbeError::Timeout)],
    );
    assert_eq!(ejtag.set_ejtag_ctrl(EjtagCtrl(0x0004_C000)), Ok(()));
    assert_eq!(ejtag.ejtag_ctrl, EjtagCtrl(0x0000_8000));
    assert_eq!(
        ejtag.probe.scan_log()[4],
        ScanRecord::WriteRegister {
            address: 0x0A,
            data: vec![0x00, 0xC0, 0x04, 0x00],
            len: 32,
            reply: word(0x0000_8000),
        }
    );
    assert_eq!(
        ejtag.set_ejtag_ctrl(EjtagCtrl(1)),
        Err(DebugProbeError::DebugSequenceNotSupported)
    );
    assert_eq!(ejtag.ejtag_ctrl, EjtagCtrl(0x0000_8000));
    assert_eq!(ejtag.set_ejtag_ctrl(EjtagCtrl(1)), Err(DebugProbeError::Timeout));
    assert_eq!(ejtag.ejtag_ctrl, EjtagCtrl(0x0000_8000));
}

#[test]
fn a_queue_is_fed_word_by_word() {
    let mut ejtag = connected(
        0x2000_0000,
        vec![word(0x0004_8000), word(0), word(0x0004_C000), word(0)],
    );
    let queue = Mips32Instruction::new().lui(T0, 0xFF20);
    assert_eq!(ejtag.exec_queue(queue), Ok(()));
    let log = ejtag.probe.scan_log();
    assert_eq!(log.len(), 8);
    assert_eq!(log[4], read_of(0x0A, 32, 0x0004_8000));
    assert_eq!(
        log[5],
        ScanRecord::WriteRegister {
            address: 0x0B,
            data: vec![0x00, 0x80, 0x04, 0x00, 0, 0, 0, 0, 0, 0, 0, 0],
            len: 96,
            reply: word(0),
        }
    );
    assert_eq!(log[6], read_of(0x0A, 32, 0x0004_C000));
    assert_eq!(
        log[7],
        ScanRecord::WriteRegister {
            address: 0x0B,
            data: vec![0x00, 0xC0, 0x04, 0x00, 0x20, 0xff, 0x08, 0x3c, 0, 0, 0, 0],
            len: 96,
            reply: word(0),
        }
    );
    assert_eq!(ejtag.ejtag_ctrl, EjtagCtrl(0x0004_C000));
    assert_eq!(ejtag.phase, SessionPhase::Connected);
}

#[test]
fn a_queue_stops_at_the_first_failure() {
    let mut ejtag = connected(
        0x2000_0000,
        vec![word(0x0004_8000), Err(DebugProbeError::ProbeSpecific(9)), word(1)],
    );
    let queue = Mips32Instruction::new().nop().nop();
    assert_eq!(ejtag.exec_queue(queue), Err(DebugProbeError::ProbeSpecific(9)));
    assert_eq!(ejtag.probe.scan_log().len(), 6);
    let mut ejtag = connected(0x2000_0000, vec![word(0x0004_8000), word(0), Ok(vec![])]);
    let queue = Mips32Instruction::new().nop().nop();
    assert_eq!(
        ejtag.exec_queue(queue),
        Err(DebugProbeError::DebugSequenceNotSupported)
    );
    assert_eq!(ejtag.probe.scan_log().len(), 7);
    assert_eq!(ejtag.ejtag_ctrl, EjtagCtrl(0x0004_8000));
}

#[test]
fn the_words_that_switch_single_stepping() {
    let on = build_step_sequence(true, 0x1234_ABCD).get_raw();
    assert_eq!(
        on,
        vec![
            0,
            mips_mfc0(T0, 23, 0),
            mips_ori(T0, T0, 0x100),
            mips_mtc0(T0, 23, 0),
            mips_lui(T0, 0x1234),
            mips_beq(ZERO, ZERO, 0xFFEC),
            mips_ori(T0, T0, 0xABCD),
        ]
    );
    let off = build_step_sequence(false, 0xFFFF_0000).get_raw();
    assert_eq!(
        off,
        vec![
            0,
            mips_mfc0(T0, 23, 0),
            mips_ori(T0, T0, 0x100),
            mips_xori(T0, T0, 0x100),
            mips_mtc0(T0, 23, 0),
            mips_lui(T0, 0xFFFF),
            mips_beq(ZERO, ZERO, 0xFFE8),
            mips_ori(T0, T0, 0),
        ]
    );
}

#[test]
fn single_stepping_is_switched_by_feeding_the_words() {
    let mut scans = vec![];
    for _ in 0..7 {
        scans.push(word(0x0004_8000));
        scans.push(word(0));
    }
    let mut ejtag = connected(0x2000_0000, scans);
    ejtag.reg_t0 = 0x1234_ABCD;
    assert_eq!(ejtag.enable_step(true), Ok(()));
    let expected = build_step_sequence(true, 0x1234_ABCD).get_raw();
    let log = ejtag.probe.scan_log();
    assert_eq!(log.len(), 4 + 14);
    for (i, inst) in expected.iter().enumerate() {
        let mut data = vec![0x00, 0x80, 0x04, 0x00];
        data.extend(inst.to_le_bytes());
        data.extend([0, 0, 0, 0]);
        assert_eq!(log[4 + 2 * i], read_of(0x0A, 32, 0x0004_8000));
        assert_eq!(
            log[5 + 2 * i],
            ScanRecord::WriteRegister { address: 0x0B, data, len: 96, reply: word(0) }
        );
    }
    assert_eq!(ejtag.reg_t0, 0x1234_ABCD);
}

#[test]
fn reset_tells_the_core_how_to_boot() {
    let mut ejtag = connected(0x2000_0000, vec![word(0), word(0), word(0)]);
    assert_eq!(ejtag.enter_debug_mode(), Ok(()));
    assert_eq!(ejtag.phase, SessionPhase::DebugEntered);
    assert_eq!(ejtag.target_reset_assert(true), Ok(()));
    assert_eq!(ejtag.phase, SessionPhase::Connected);
    assert_eq!(ejtag.target_reset_assert(false), Ok(()));
    let log = ejtag.probe.scan_log();
    assert_eq!(log.len(), 4 + 2 + 2 + 2);
    assert_eq!(log[4], ScanRecord::SetIrLen { len: 5 });
    assert_eq!(
        log[5],
        ScanRecord::WriteRegister { address: 0x0C, data: vec![0, 0, 0, 0], len: 32, reply: word(0) }
    );
    assert_eq!(log[6], ScanRecord::TargetResetAssert { reply: Ok(()) });
    assert_eq!(
        log[7],
        ScanRecord::WriteRegister {
            address: 0x0C,
            data: vec![0xFF, 0xFF, 0xFF, 0xFF],
            len: 32,
            reply: word(0),
        }
    );
    assert_eq!(log[8], ScanRecord::TargetResetAssert { reply: Ok(()) });
    assert_eq!(
        log[9],
        ScanRecord::WriteRegister {
            address: 0x0D,
            data: vec![0xFF, 0xFF, 0xFF, 0xFF],
            len: 32,
            reply: word(0),
        }
    );
    assert_eq!(ejtag.ejtag_ctrl, EjtagCtrl(0x0000_8000));
}

#[test]
fn a_failed_reset_is_reported_and_nothing_is_scanned() {
    let scans = vec![word(1), word(0x2000_0000), word(0x8000)];
    let probe = ScriptedProbe::new(scans, Err(DebugProbeError::ProbeSpecific(5)), vec![], vec![]);
    let mut ejtag = match Ejtag::new(probe) {
        Ok(ejtag) => ejtag,
        Err(_) => panic!("no connection"),
    };
    assert_eq!(ejtag.enter_debug_mode(), Err(DebugProbeError::Timeout));
    assert_eq!(ejtag.phase, SessionPhase::Connected);
    assert_eq!(
        ejtag.target_reset_assert(true),
        Err(DebugProbeError::ProbeSpecific(5))
    );
    assert_eq!(ejtag.probe.scan_log().len(), 4 + 2 + 1);
}

#[test]
fn hardware_breakpoints_are_told_by_the_debug_control_word() {
    let mut ejtag = connected(0x2000_0000, vec![]);
    ejtag.debug_ctrl.0 = 0x0001_0000;
    assert!(ejtag.supports_hardware_breakpoint());
    let ejtag = connected(0x2000_0000, vec![]);
    assert!(!ejtag.supports_hardware_breakpoint());
}

#[test]
fn what_a_poll_does_after_one_look() {
    let set = EjtagCtrl(0x0004_0000);
    let clear = EjtagCtrl(0xFFFB_FFFF);
    assert_eq!(poll_step(set, true, 0), PollStep::Ready);
    assert_eq!(poll_step(set, true, 5_000_000_000), PollStep::Ready);
    assert_eq!(poll_step(clear, false, 5_000_000_000), PollStep::Ready);
    assert_eq!(poll_step(clear, true, 0), PollStep::Again);
    assert_eq!(poll_step(clear, true, 1_000_000_000), PollStep::Again);
    assert_eq!(poll_step(clear, true, 1_000_000_001), PollStep::TimedOut);
    assert_eq!(poll_step(set, false, 999_999_999), PollStep::Again);
    assert_eq!(poll_step(set, false, u128::MAX), PollStep::TimedOut);
}

#[test]
fn a_poll_ends_when_the_bit_has_the_value() {
    let mut ejtag = connected(
        0x2000_0000,
        vec![word(0), word(0x8000), word(0x0004_8000), word(0x0004_0000), word(0)],
    );
    assert_eq!(ejtag.wait_for_pracc(), Ok(()));
    assert_eq!(ejtag.probe.scan_log().len(), 4 + 3);
    assert_eq!(ejtag.ejtag_ctrl, EjtagCtrl(0x0004_8000));
    assert_eq!(ejtag.clean_pracc(), Ok(()));
    assert_eq!(ejtag.probe.scan_log().len(), 4 + 5);
    assert_eq!(ejtag.ejtag_ctrl, EjtagCtrl(0));
    assert_eq!(ejtag.poll_pracc(false), Err(DebugProbeError::Timeout));
}

#[test]
fn a_poll_ends_with_the_error_of_a_read() {
    let mut ejtag = connected(
        0x2000_0000,
        vec![word(0), Err(DebugProbeError::ProbeSpecific(1))],
    );
    assert_eq!(ejtag.wait_for_pracc(), Err(DebugProbeError::ProbeSpecific(1)));
    assert_eq!(ejtag.probe.scan_log().len(), 4 + 2);
}

struct NeverReady {
    reads: u64,
}

impl JtagProbe for NeverReady {
    fn set_ir_len(&mut self, _len: u32) {}

    fn target_reset_assert(&mut self) -> Result<(), DebugProbeError> {
        Ok(())
    }

    fn read_register(&mut self, _address: u32, _len: u32) -> Result<Vec<u8>, DebugProbeError> {
        self.reads += 1;
        Ok(vec![0, 0, 0, 0])
    }

    fn write_register(
        &mut self,
        _address: u32,
        _data: &[u8],
        _len: u32,
    ) -> Result<Vec<u8>, DebugProbeError> {
        Ok(vec![0, 0, 0, 0])
    }
}

#[test]
fn a_poll_for_a_bit_that_never_comes_times_out_after_a_second() {
    let mut ejtag = match Ejtag::new(Traced::new(NeverReady { reads: 0 })) {
        Ok(ejtag) => ejtag,
        Err(_) => panic!("no connection"),
    };
    let start = Instant::now();
    assert_eq!(ejtag.wait_for_pracc(), Err(DebugProbeError::Timeout));
    let taken = start.elapsed();
    assert!(taken > Duration::from_secs(1));
    assert!(taken < Duration::from_secs(10));
    assert!(ejtag.probe.get_ref().reads > 3);
    assert!(ejtag.detach().into_inner().reads > 3);
}
