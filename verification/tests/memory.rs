use mips_ejtag::communication_interface::MipsCommunicationInterface;
use mips_ejtag::error::DebugProbeError;
use mips_ejtag::error::Error;
use mips_ejtag::mips32::Mips32;
use mips_ejtag::mips32::MipsState;
use mips_ejtag::probe::JtagProbe;
use mips_ejtag::probe::MemoryOp;
use mips_ejtag::probe::MemoryProbe;
use mips_ejtag::probe::Traced;
use mips_ejtag::scripted::ScriptedProbe;

fn scripted(
    reads: Vec<Result<u32, Error>>,
    writes: Vec<Result<(), Error>>,
) -> MipsCommunicationInterface<ScriptedProbe> {
    let scans = vec![Ok(vec![1, 0, 0, 0]), Ok(vec![0, 0, 0, 0x20]), Ok(vec![0, 0x80, 0, 0])];
    match MipsCommunicationInterface::new(ScriptedProbe::new(scans, Ok(()), reads, writes)) {
        Ok(interface) => interface,
        Err((_, e)) => panic!("no connection: {:?}", e),
    }
}

fn read(address: u32, value: u32) -> MemoryOp {
    MemoryOp::ReadWord32 { address, reply: Ok(value) }
}

fn write(address: u32, data: u32) -> MemoryOp {
    MemoryOp::WriteWord32 { address, data, reply: Ok(()) }
}

#[test]
fn a_block_of_words_is_read_word_by_word() {
    let mut interface = scripted(vec![Ok(1), Ok(2), Ok(3)], vec![]);
    let mut data = [0u32; 3];
    assert_eq!(interface.read_32(0x8000_0000, &mut data), Ok(()));
    assert_eq!(data, [1, 2, 3]);
    assert_eq!(
        interface.ejtag.probe.memory_log(),
        &vec![read(0x8000_0000, 1), read(0x8000_0004, 2), read(0x8000_0008, 3)]
    );
}

#[test]
fn a_block_read_stops_at_the_first_failure() {
    let mut interface = scripted(vec![Ok(1), Err(Error::Timeout), Ok(3)], vec![]);
    let mut data = [9u32; 3];
    assert_eq!(interface.read_32(0x10, &mut data), Err(Error::Timeout));
    assert_eq!(data, [1, 9, 9]);
    assert_eq!(interface.ejtag.probe.memory_log().len(), 2);
}

#[test]
fn a_block_read_stops_at_the_end_of_the_address_space() {
    let mut interface = scripted(vec![Ok(1), Ok(2), Ok(3)], vec![]);
    let mut data = [9u32; 3];
    assert_eq!(
        interface.read_32(0xFFFF_FFF8, &mut data),
        Err(Error::InvalidAddress(0x1_0000_0000))
    );
    assert_eq!(data, [1, 2, 9]);
    let mut none = [0u32; 0];
    assert_eq!(interface.read_32(0x5_0000_0000, &mut none), Ok(()));
    assert_eq!(
        interface.read_32(0x5_0000_0000, &mut data),
        Err(Error::InvalidAddress(0x5_0000_0000))
    );
    assert_eq!(interface.ejtag.probe.memory_log().len(), 2);
}

#[test]
fn a_block_of_bytes_is_read_byte_by_byte() {
    let mut interface = scripted(vec![Ok(0x1FF), Ok(2), Ok(3)], vec![]);
    let mut data = [0u8; 3];
    assert_eq!(interface.read_8(0xFFFF_FFFD, &mut data), Ok(()));
    assert_eq!(data, [0xFF, 2, 3]);
    let mut data = [7u8; 2];
    assert_eq!(
        interface.read_8(0xFFFF_FFFF, &mut data),
        Err(Error::Probe(DebugProbeError::Timeout))
    );
    assert_eq!(data, [7, 7]);
    assert_eq!(
        interface.ejtag.probe.memory_log()[2],
        MemoryOp::ReadWord8 { address: 0xFFFF_FFFF, reply: Ok(3) }
    );
}

#[test]
fn a_block_of_64_bit_words_is_read_in_halves() {
    let mut interface = scripted(vec![Ok(1), Ok(2), Ok(3), Ok(4), Ok(5)], vec![]);
    let mut data = [0u64; 2];
    assert_eq!(interface.read_64(0x100, &mut data), Ok(()));
    assert_eq!(data, [0x0000_0002_0000_0001, 0x0000_0004_0000_0003]);
    let mut data = [9u64; 2];
    assert_eq!(
        interface.read_64(0x200, &mut data),
        Err(Error::Probe(DebugProbeError::Timeout))
    );
    assert_eq!(data, [9, 9]);
    assert_eq!(
        interface.ejtag.probe.memory_log()[..5],
        [read(0x100, 1), read(0x104, 2), read(0x108, 3), read(0x10C, 4), read(0x200, 5)]
    );
    assert_eq!(interface.ejtag.probe.memory_log().len(), 6);
}

#[test]
fn blocks_are_written_in_order() {
    let mut interface = scripted(vec![], vec![]);
    assert_eq!(interface.write_32(0x8000_0000, &[1, 2]), Ok(()));
    assert_eq!(interface.write_8(0x10, &[3, 4]), Ok(()));
    assert_eq!(interface.write_64(0x20, &[0x0000_0006_0000_0005, 7]), Ok(()));
    assert_eq!(
        interface.ejtag.probe.memory_log(),
        &vec![
            write(0x8000_0000, 1),
            write(0x8000_0004, 2),
            MemoryOp::WriteWord8 { address: 0x10, data: 3, reply: Ok(()) },
            MemoryOp::WriteWord8 { address: 0x11, data: 4, reply: Ok(()) },
            write(0x20, 5),
            write(0x24, 6),
            write(0x28, 7),
            write(0x2C, 0),
        ]
    );
}

#[test]
fn a_block_write_stops_at_the_first_failure() {
    let mut interface = scripted(vec![], vec![Ok(()), Err(Error::Timeout)]);
    assert_eq!(interface.write_32(0x10, &[1, 2, 3]), Err(Error::Timeout));
    assert_eq!(interface.ejtag.probe.memory_log().len(), 2);
    assert_eq!(
        interface.write_32(0xFFFF_FFFC, &[1, 2]),
        Err(Error::InvalidAddress(0x1_0000_0000))
    );
    assert_eq!(
        interface.write_8(0xFFFF_FFFF, &[1, 2]),
        Err(Error::InvalidAddress(0x1_0000_0000))
    );
    assert_eq!(
        interface.write_64(0xFFFF_FFF8, &[1, 2]),
        Err(Error::InvalidAddress(0x1_0000_0000))
    );
    assert_eq!(interface.ejtag.probe.memory_log().len(), 2 + 1 + 1 + 2);
}

struct Ram {
    words: Vec<u32>,
}

impl JtagProbe for Ram {
    fn set_ir_len(&mut self, _len: u32) {}

    fn target_reset_assert(&mut self) -> Result<(), DebugProbeError> {
        Ok(())
    }

    fn read_register(&mut self, _address: u32, _len: u32) -> Result<Vec<u8>, DebugProbeError> {
        Ok(vec![0, 0, 0, 0x40])
    }

    fn write_register(
        &mut self,
        _address: u32,
        data: &[u8],
        _len: u32,
    ) -> Result<Vec<u8>, DebugProbeError> {
        Ok(data.to_vec())
    }
}

impl MemoryProbe for Ram {
    fn read_target_word(&mut self, address: u32) -> Result<u32, Error> {
        match self.words.get((address / 4) as usize) {
            Some(word) => Ok(*word),
            None => Err(Error::InvalidAddress(address as u64)),
        }
    }

    fn read_target_byte(&mut self, address: u32) -> Result<u8, Error> {
        let word = self.read_target_word(address & !3)?;
        Ok(word.to_le_bytes()[(address & 3) as usize])
    }

    fn write_target_word(&mut self, address: u32, data: u32) -> Result<(), Error> {
        match self.words.get_mut((address / 4) as usize) {
            Some(word) => {
                *word = data;
                Ok(())
            }
            None => Err(Error::InvalidAddress(address as u64)),
        }
    }

    fn write_target_byte(&mut self, address: u32, data: u8) -> Result<(), Error> {
        let mut bytes = self.read_target_word(address & !3)?.to_le_bytes();
        bytes[(address & 3) as usize] = data;
        self.write_target_word(address & !3, u32::from_le_bytes(bytes))
    }
}

#[test]
fn a_driver_of_ones_own_is_driven_through_its_history() {
    let probe = Traced::new(Ram { words: vec![0; 8] });
    let mut interface = match MipsCommunicationInterface::new(probe) {
        Ok(interface) => interface,
        Err(_) => panic!("no connection"),
    };
    let mut state = MipsState::new();
    let mut core = Mips32::new(&mut interface, &mut state, 0);
    assert_eq!(core.write_32(4, &[0x1111_1111, 0x2222_2222]), Ok(()));
    assert_eq!(core.write_word_64(12, 0x4444_4444_3333_3333), Ok(()));
    assert_eq!(core.write_8(1, &[0xAA, 0xBB]), Ok(()));
    let mut words = [0u32; 5];
    assert_eq!(core.read_32(0, &mut words), Ok(()));
    assert_eq!(
        words,
        [0x00BB_AA00, 0x1111_1111, 0x2222_2222, 0x3333_3333, 0x4444_4444]
    );
    let mut wide = [0u64; 2];
    assert_eq!(core.read_64(4, &mut wide), Ok(()));
    assert_eq!(wide, [0x2222_2222_1111_1111, 0x4444_4444_3333_3333]);
    let mut bytes = [0u8; 4];
    assert_eq!(core.read_8(0, &mut bytes), Ok(()));
    assert_eq!(bytes, [0x00, 0xAA, 0xBB, 0x00]);
    assert_eq!(core.read_word_64(8), Ok(0x3333_3333_2222_2222));
    assert_eq!(core.write_64(24, &[1, 2]), Err(Error::InvalidAddress(32)));
    assert_eq!(interface.ejtag.probe.get_ref().words[6], 1);
    assert_eq!(interface.ejtag.probe.get_ref().words[7], 0);
}
