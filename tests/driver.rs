use cc2420::configure::MAX_OSCILLATOR_POLLS;
use cc2420::frame::{
    part_number, ram_read_frame, ram_read_payload, ram_write_frame, register_read_frame,
    rx_fifo_frame, rx_fifo_payload, tx_fifo_frame,
};
use cc2420::register::{
    FiniteStateMachineConstantsBuilder, FrequencySynthesizerRegister,
    FrequencySynthesizerRegisterBuilder, IOConfigurationRegister1Builder, LowerManufacturerID,
    ModemControlRegister0, ModemControlRegister0Builder, ReceiveControlRegister1,
    ReceiveControlRegister1Builder, SecurityControlRegister0Builder, SyncWordRegister,
    SyncWordRegisterBuilder, UpperManufacturerID,
};
use cc2420::{
    BusEvent, BusOp, ConfigurationBuilder, ConfigureSession, FieldError, RadioError, RadioStatus,
    Ram, Register, SendSession, Step, Strobe,
};

type Error = RadioError<(), ()>;

#[test]
fn round_trip_holds_for_each_field_value() {
    for v in 0..=7u8 {
        let r = ModemControlRegister0Builder::default().cca_hyst(v).build().unwrap();
        assert_eq!(ModemControlRegister0::from(r.register_value()), r);
    }
    for v in 0..1024u16 {
        let r = FrequencySynthesizerRegisterBuilder::default().frequency(v).build().unwrap();
        assert_eq!(FrequencySynthesizerRegister::from(r.register_value()).frequency, v);
    }
    let r = ReceiveControlRegister1Builder::default().med_hgm(true).build().unwrap();
    assert_eq!(ReceiveControlRegister1::from(r.register_value()), r);
}

#[test]
fn read_only_fields_are_left_out_of_the_word() {
    let r = FrequencySynthesizerRegisterBuilder::default()
        .cal_done(true)
        .cal_running(true)
        .lock_status(true)
        .build()
        .unwrap();
    assert_eq!(r.register_value(), 0b01_0_0_0_0_0101100101);
    assert_eq!(LowerManufacturerID::from(0x1234).register_value(), 0);
}

#[test]
fn out_of_range_fields_are_named() {
    let e = ModemControlRegister0Builder::default().cca_mode(0).build().unwrap_err();
    assert_eq!(e, FieldError { field: "CCA_MODE", legal: "1..=3" });
    let e = ModemControlRegister0Builder::default().preamble_length(16).build().unwrap_err();
    assert_eq!(e.field, "PREAMBLE_LENGTH");
    let e = IOConfigurationRegister1Builder::default().hssd_src(4).build().unwrap_err();
    assert_eq!(e, FieldError { field: "HSSD_SRC", legal: "0..=3, 6..=7" });
    assert!(IOConfigurationRegister1Builder::default().hssd_src(6).build().is_ok());
    let e = SecurityControlRegister0Builder::default().sec_m(0).build().unwrap_err();
    assert_eq!(e.field, "SEC_M");
    let e = FiniteStateMachineConstantsBuilder::default().tc_paon_to_tx(16).build().unwrap_err();
    assert_eq!(e, FieldError { field: "TC_PAON2TX", legal: "0..=15" });
    assert!(FiniteStateMachineConstantsBuilder::default().tc_paon_to_tx(15).build().is_ok());
}

#[test]
fn ram_lengths_are_fixed_per_sector() {
    let lengths = [
        (Ram::ShortAddress, 2),
        (Ram::PanID, 2),
        (Ram::IEEEAddress, 8),
        (Ram::TxNonce, 16),
        (Ram::Key1, 16),
        (Ram::EncryptionBuffer, 16),
        (Ram::RxNonce, 16),
        (Ram::Key0, 16),
        (Ram::RxFifo, 128),
        (Ram::TxFifo, 128),
    ];
    for (ram, len) in lengths {
        assert_eq!(ram.length(), len);
        assert!(ram_write_frame::<(), ()>(ram, &vec![0u8; len]).is_ok());
        assert_eq!(
            ram_write_frame::<(), ()>(ram, &vec![0u8; len + 1]),
            Err(Error::InvalidBufferLenth { expected: len, found: len + 1 })
        );
        assert_eq!(
            ram_read_frame::<(), ()>(ram, len - 1),
            Err(Error::InvalidBufferLenth { expected: len, found: len - 1 })
        );
    }
}

#[test]
fn ram_write_to_pan_id_with_three_bytes_is_refused() {
    assert_eq!(
        ram_write_frame::<(), ()>(Ram::PanID, &[1, 2, 3]),
        Err(Error::InvalidBufferLenth { expected: 2, found: 3 })
    );
}

#[test]
fn ram_frames_carry_address_and_data() {
    let frame = ram_write_frame::<(), ()>(Ram::ShortAddress, &[0xAB, 0xCD]).unwrap();
    assert_eq!(frame, vec![0b1110_1010, 0b1000_0000, 0xAB, 0xCD]);
    let frame = ram_read_frame::<(), ()>(Ram::PanID, 2).unwrap();
    assert_eq!(frame, vec![0b1110_1000, 0b1010_0000, 0, 0]);
    let mut out = [0u8; 2];
    let status = ram_read_payload(&[0x40, 0xFF, 7, 9], &mut out);
    assert_eq!(out, [7, 9]);
    assert!(status.xosx_stable);
}

#[test]
fn strobe_opcodes_are_distinct() {
    let all = [
        (Strobe::ReadStatus, 0x00),
        (Strobe::XOSCOn, 0x01),
        (Strobe::CalibrateFrequency, 0x02),
        (Strobe::EnableRx, 0x03),
        (Strobe::EnableTx, 0x04),
        (Strobe::EnableTxCCA, 0x05),
        (Strobe::DisableRxTx, 0x06),
        (Strobe::XOSCOff, 0x07),
        (Strobe::FlushRx, 0x08),
        (Strobe::FlushTx, 0x09),
        (Strobe::Ack, 0x0A),
        (Strobe::AckPend, 0x0B),
        (Strobe::RxDecryption, 0x0C),
        (Strobe::TxEncryption, 0x0D),
        (Strobe::AesEncryption, 0x0E),
        (Strobe::TxFifo, 0x3E),
        (Strobe::RxFifo, 0x3F),
    ];
    for (i, (a, code)) in all.iter().enumerate() {
        assert_eq!(a.opcode(), *code);
        for (b, _) in all.iter().skip(i + 1) {
            assert_ne!(a.opcode(), b.opcode());
        }
    }
}

#[test]
fn sync_word_encodes_and_decodes_exactly() {
    let r = SyncWordRegisterBuilder::default().sync_word(0x1234).build().unwrap();
    assert_eq!(r.register_value(), 0x1234);
    assert_eq!(SyncWordRegister::from(0x1234).sync_word, 0x1234);
    assert_eq!(r.write_value(), [0x54, 0x34, 0x12]);
    assert_eq!(register_read_frame(&r), [0x14, 0, 0]);
}

#[test]
fn oversized_frame_is_refused() {
    assert_eq!(
        tx_fifo_frame::<(), ()>(&[0u8; 129]),
        Err(Error::InvalidBufferLenth { expected: 128, found: 129 })
    );
    let frame = tx_fifo_frame::<(), ()>(&[5u8; 128]).unwrap();
    assert_eq!(frame.len(), 129);
    assert_eq!(frame[0], 0x3E);
    assert_eq!(frame[128], 5);
}

#[test]
fn status_byte_with_only_oscillator_bit() {
    let status = RadioStatus::from(0b0100_0000);
    assert_eq!(
        status,
        RadioStatus {
            xosx_stable: true,
            tx_underflow: false,
            enc_busy: false,
            tx_active: false,
            lock: false,
            rssi_valud: false,
        }
    );
    let status = RadioStatus::from(0b0000_0110);
    assert!(status.lock && status.rssi_valud && !status.tx_active);
}

#[test]
fn receive_reads_at_most_a_full_fifo() {
    assert_eq!(rx_fifo_frame(3), vec![0x3F, 0, 0, 0]);
    assert_eq!(rx_fifo_frame(200).len(), 129);
    let mut out = [9u8; 5];
    let status = rx_fifo_payload(&[0b0010_0000, 1, 2, 3], &mut out[..3]);
    assert_eq!(out, [1, 2, 3, 9, 9]);
    assert!(status.tx_underflow);
}

#[test]
fn part_number_joins_both_registers() {
    let lower = LowerManufacturerID::from(0x233D);
    let upper = UpperManufacturerID::from(0x3001);
    assert_eq!(part_number(&lower, &upper), 0x12);
}

/// A stand-in for the radio: it keeps registers and RAM, answers every
/// transfer with a status byte, and reports the oscillator stable after
/// a few status reads.
struct FakeChip {
    registers: [u16; 64],
    ram: Vec<u8>,
    status_reads: u32,
    stable_after: u32,
    corrupt_register: Option<u8>,
    transfers: usize,
    writes: Vec<Vec<u8>>,
}

impl FakeChip {
    fn new() -> FakeChip {
        FakeChip {
            registers: [0; 64],
            ram: vec![0; 512],
            status_reads: 0,
            stable_after: 2,
            corrupt_register: None,
            transfers: 0,
            writes: Vec::new(),
        }
    }

    fn status(&self) -> u8 {
        if self.status_reads >= self.stable_after { 0x40 } else { 0 }
    }

    fn transfer(&mut self, frame: &mut Vec<u8>) {
        self.transfers += 1;
        if frame.len() == 1 {
            if frame[0] == Strobe::XOSCOn.opcode() || frame[0] == Strobe::ReadStatus.opcode() {
                self.status_reads += 1;
            }
            frame[0] = self.status();
        } else if frame[0] & 0x80 != 0 {
            let offset = (frame[0] & 0x7F) as usize | ((frame[1] >> 6) as usize) << 7;
            let read = frame[1] & 0x20 != 0;
            for i in 2..frame.len() {
                if read {
                    frame[i] = self.ram[offset + i - 2];
                } else {
                    self.ram[offset + i - 2] = frame[i];
                }
            }
            frame[0] = self.status();
        } else {
            let address = (frame[0] & 0x3F) as usize;
            if frame[0] & 0x40 != 0 {
                let mut value = frame[1] as u16 | (frame[2] as u16) << 8;
                if self.corrupt_register == Some(address as u8) {
                    value ^= 1;
                }
                self.registers[address] = value;
            } else {
                frame[1] = self.registers[address] as u8;
                frame[2] = (self.registers[address] >> 8) as u8;
            }
            frame[0] = self.status();
        }
    }

    fn run_configure(&mut self, session: &mut ConfigureSession) -> Result<RadioStatus, Error> {
        let mut event = BusEvent::Start;
        loop {
            match session.next::<(), ()>(event) {
                Step::Finished(r) => return r,
                Step::Perform(BusOp::Transfer(mut frame)) => {
                    self.transfer(&mut frame);
                    event = BusEvent::Reply(frame);
                },
                Step::Perform(_) => event = BusEvent::Done,
            }
        }
    }
}

#[test]
fn configure_writes_every_setting_and_calibrates() {
    let config = ConfigurationBuilder::default()
        .sync_word([0x0F, 0xA7])
        .short_address([0x01, 0x02])
        .pan_identifier([0x03, 0x04])
        .tx_encryption_key([7; 16])
        .build()
        .unwrap();
    let mut chip = FakeChip::new();
    let mut session = ConfigureSession::new::<(), ()>(config).unwrap();
    let status = chip.run_configure(&mut session).unwrap();
    assert!(status.xosx_stable);
    assert!(session.is_finished());
    assert_eq!(chip.registers[0x14], 0xA70F);
    let modem = ModemControlRegister0::from(chip.registers[0x11]);
    assert_eq!(modem, ModemControlRegister0Builder::default().build().unwrap());
    assert_eq!(&chip.ram[0x16A..0x16C], &[0x02, 0x01]);
    assert_eq!(&chip.ram[0x168..0x16A], &[0x04, 0x03]);
    assert_eq!(&chip.ram[0x160..0x168], &[0x12, 0x34, 0x56, 0x78, 0x9A, 0xBC, 0xDE, 0xF0]);
    assert_eq!(&chip.ram[0x130..0x140], &[7; 16]);
    assert_eq!(&chip.ram[0x100..0x110], &[0; 16]);
}

#[test]
fn configure_stops_at_sync_word_mismatch() {
    let config = ConfigurationBuilder::default().build().unwrap();
    let mut chip = FakeChip::new();
    chip.corrupt_register = Some(0x14);
    let mut session = ConfigureSession::new::<(), ()>(config).unwrap();
    let result = chip.run_configure(&mut session);
    assert_eq!(result, Err(Error::FailedConfiguration("Configuration of Sync Word Failed")));
    // modem write and read, sync word write and read; nothing after
    assert_eq!(chip.transfers, 4);
    assert_eq!(chip.ram[0x16A], 0);
}

#[test]
fn configure_refuses_long_preamble() {
    let config = ConfigurationBuilder::default().preamble_length(16).build().unwrap();
    let e = ConfigureSession::new::<(), ()>(config).err().unwrap();
    assert_eq!(
        e,
        Error::InvalidConfiguration(FieldError { field: "PREAMBLE_LENGTH", legal: "0..=15" })
    );
}

#[test]
fn configure_gives_up_on_oscillator() {
    let config = ConfigurationBuilder::default().build().unwrap();
    let mut chip = FakeChip::new();
    chip.stable_after = u32::MAX;
    let mut session = ConfigureSession::new::<(), ()>(config).unwrap();
    assert_eq!(chip.run_configure(&mut session), Err(Error::Timeout));
    assert_eq!(chip.status_reads, MAX_OSCILLATOR_POLLS + 1);
}

fn run_send(data: &[u8], cca: bool, low_polls: u32) -> (Result<RadioStatus, Error>, Vec<Vec<u8>>) {
    let mut chip = FakeChip::new();
    chip.stable_after = 0;
    let mut session = SendSession::new(data, cca);
    let mut event = BusEvent::Start;
    let mut lows = 0;
    loop {
        match session.next::<(), ()>(event) {
            Step::Finished(r) => return (r, chip.writes),
            Step::Perform(BusOp::Transfer(mut frame)) => {
                chip.writes.push(frame.clone());
                chip.transfer(&mut frame);
                event = BusEvent::Reply(frame);
            },
            Step::Perform(BusOp::Write(frame)) => {
                chip.writes.push(frame);
                event = BusEvent::Done;
            },
            Step::Perform(BusOp::Delay(_)) => event = BusEvent::Done,
            Step::Perform(BusOp::ReadFrameStart) => {
                let high = lows >= low_polls;
                lows = if high { 0 } else { lows + 1 };
                event = BusEvent::FrameStart(high);
            },
        }
    }
}

#[test]
fn send_splits_long_payloads() {
    let data: Vec<u8> = (0..300).map(|i| i as u8).collect();
    let (result, ops) = run_send(&data, false, 2);
    assert!(result.unwrap().xosx_stable);
    assert_eq!(ops.len(), 7);
    assert_eq!(ops[0], vec![0x09]);
    assert_eq!(ops[1].len(), 129);
    assert_eq!(ops[1][0], 0x3E);
    assert_eq!(&ops[1][1..], &data[..128]);
    assert_eq!(ops[2], vec![0x04]);
    assert_eq!(&ops[3][1..], &data[128..256]);
    assert_eq!(ops[4], vec![0x04]);
    assert_eq!(&ops[5][1..], &data[256..]);
    assert_eq!(ops[6], vec![0x04]);
}

#[test]
fn send_of_whole_chunks_writes_no_empty_frame() {
    let data = [1u8; 256];
    let (result, ops) = run_send(&data, true, 0);
    assert!(result.is_ok());
    assert_eq!(ops.len(), 5);
    assert!(ops.iter().all(|op| op.len() != 1 || op[0] != 0x3E));
    assert_eq!(ops[4], vec![0x05]);
}

#[test]
fn send_of_empty_payload_only_transmits() {
    let (result, ops) = run_send(&[], false, 0);
    assert!(result.is_ok());
    assert_eq!(ops, vec![vec![0x09], vec![0x04]]);
}

#[test]
fn send_gives_up_when_frame_never_starts() {
    let data = [0u8; 200];
    let (result, _) = run_send(&data, false, u32::MAX);
    assert_eq!(result, Err(Error::Timeout));
}
