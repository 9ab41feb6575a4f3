//! The configuration run.
//!
//! Configuring the radio writes the modem settings, the sync word, the short
//! address, the PAN identifier, the IEEE address, the TX key and the RX key
//! in that order. After each write the run waits for the value to settle,
//! reads it back and stops with an error naming the step if it differs. Then
//! it starts the crystal oscillator, polls the status until the oscillator is
//! stable (giving up after a bounded number of polls), and finally starts the
//! TX frequency calibration, whose status is the run's result.

use vstd::prelude::*;

use crate::config::Configuration;
use crate::error::{FieldError, RadioError};
use crate::frame::{prefixed, ram_read_bytes, ram_read_frame, ram_write_bytes, ram_write_frame};
use crate::ram::Ram;
use crate::register::{
    le_u16, ModemControlRegister0, ModemControlRegister0Builder, Register, SyncWordRegister,
};
use crate::session::{
    first_byte, first_byte_of, is_transfer, reply_bytes, reply_of, BusEvent, BusOp, Step,
};
use crate::status::RadioStatus;
use crate::strobe::Strobe;

verus! {

/// Time given a written register or RAM value to settle before it is read back.
pub const SETTLE_DELAY_US: u32 = 100;

/// Interval between two polls of the oscillator-stable flag.
pub const POLL_INTERVAL_US: u32 = 100;

/// Number of polls after which the oscillator is taken to have failed to start.
pub const MAX_OSCILLATOR_POLLS: u32 = 1000;

/// The settings written and read back by a configuration run, in order.
#[derive(Clone, Copy, Debug, PartialEq, Eq, Structural)]
pub enum ConfigStage {
    Modem,
    SyncWord,
    ShortAddress,
    PanId,
    IeeeAddress,
    TxKey,
    RxKey,
}

impl ConfigStage {
    /// The stage after this one, if any.
    pub open spec fn spec_following(self) -> Option<ConfigStage> {
        match self {
            ConfigStage::Modem => Some(ConfigStage::SyncWord),
            ConfigStage::SyncWord => Some(ConfigStage::ShortAddress),
            ConfigStage::ShortAddress => Some(ConfigStage::PanId),
            ConfigStage::PanId => Some(ConfigStage::IeeeAddress),
            ConfigStage::IeeeAddress => Some(ConfigStage::TxKey),
            ConfigStage::TxKey => Some(ConfigStage::RxKey),
            ConfigStage::RxKey => None,
        }
    }

    /// The error message that names the stage when its value does not read back.
    pub open spec fn spec_message(self) -> &'static str {
        match self {
            ConfigStage::Modem => "Configuration of Modem Failed",
            ConfigStage::SyncWord => "Configuration of Sync Word Failed",
            ConfigStage::ShortAddress => "Configuration of Short Address Failed",
            ConfigStage::PanId => "Configuration of Pan ID Failed",
            ConfigStage::IeeeAddress => "Configuration of IEEE Address Failed",
            ConfigStage::TxKey => "Configuration of Tx Encryption Key Failed",
            ConfigStage::RxKey => "Configuration of Rx Decryption Key Failed",
        }
    }

    /// The RAM sector a RAM stage writes.
    pub open spec fn spec_ram(self) -> Ram {
        match self {
            ConfigStage::PanId => Ram::PanID,
            ConfigStage::IeeeAddress => Ram::IEEEAddress,
            ConfigStage::TxKey => Ram::Key1,
            ConfigStage::RxKey => Ram::Key0,
            _ => Ram::ShortAddress,
        }
    }

    /// The stage after this one, if any.
    pub fn following(self) -> (r: Option<ConfigStage>)
        ensures
            r == self.spec_following(),
    {
        match self {
            ConfigStage::Modem => Some(ConfigStage::SyncWord),
            ConfigStage::SyncWord => Some(ConfigStage::ShortAddress),
            ConfigStage::ShortAddress => Some(ConfigStage::PanId),
            ConfigStage::PanId => Some(ConfigStage::IeeeAddress),
            ConfigStage::IeeeAddress => Some(ConfigStage::TxKey),
            ConfigStage::TxKey => Some(ConfigStage::RxKey),
            ConfigStage::RxKey => None,
        }
    }

    /// The error message that names the stage.
    pub fn message(self) -> (r: &'static str)
        ensures
            r == self.spec_message(),
    {
        match self {
            ConfigStage::Modem => "Configuration of Modem Failed",
            ConfigStage::SyncWord => "Configuration of Sync Word Failed",
            ConfigStage::ShortAddress => "Configuration of Short Address Failed",
            ConfigStage::PanId => "Configuration of Pan ID Failed",
            ConfigStage::IeeeAddress => "Configuration of IEEE Address Failed",
            ConfigStage::TxKey => "Configuration of Tx Encryption Key Failed",
            ConfigStage::RxKey => "Configuration of Rx Decryption Key Failed",
        }
    }

    /// The RAM sector a RAM stage writes.
    pub fn ram(self) -> (r: Ram)
        ensures
            r == self.spec_ram(),
    {
        match self {
            ConfigStage::PanId => Ram::PanID,
            ConfigStage::IeeeAddress => Ram::IEEEAddress,
            ConfigStage::TxKey => Ram::Key1,
            ConfigStage::RxKey => Ram::Key0,
            _ => Ram::ShortAddress,
        }
    }
}

/// Where a configuration run stands: the operation it last asked for.
#[derive(Clone, Copy, Debug, PartialEq, Eq, Structural)]
pub enum ConfigurePhase {
    /// Nothing asked for yet.
    Start,
    /// The stage's value is being written.
    Written(ConfigStage),
    /// The written value is settling.
    Settled(ConfigStage),
    /// The stage's value is being read back.
    ReadBack(ConfigStage),
    /// The status is being read, after this many earlier polls.
    Oscillator(u32),
    /// The run waits before polling again, after this many polls.
    PollWait(u32),
    /// The TX calibration is being started.
    Calibrating,
    /// The run has produced its result.
    Finished,
}

/// The modem control register that a configuration sets up: the
/// configuration's flags and preamble length over the register's reset value.
pub open spec fn modem_of(config: Configuration) -> ModemControlRegister0 {
    ModemControlRegister0 {
        pan_coordinator: config.pan_coordinator,
        adr_decode: config.address_decoding,
        auto_crc: config.enable_crc,
        auto_ack: config.auto_acknowledge,
        preamble_length: config.preamble_length,
        ..ModemControlRegister0::spec_default()
    }
}

/// The sync word register that a configuration sets up.
pub open spec fn sync_of(config: Configuration) -> SyncWordRegister {
    SyncWordRegister { sync_word: le_u16(config.sync_word@[0], config.sync_word@[1]) }
}

/// The bytes a RAM stage writes. The short address and the PAN identifier,
/// held low byte first, go on the wire high byte first.
pub open spec fn stage_data(config: Configuration, stage: ConfigStage) -> Seq<u8> {
    match stage {
        ConfigStage::ShortAddress => seq![config.short_address@[1], config.short_address@[0]],
        ConfigStage::PanId => seq![config.pan_identifier@[1], config.pan_identifier@[0]],
        ConfigStage::IeeeAddress => config.ieee_address@,
        ConfigStage::TxKey => config.tx_encryption_key@,
        ConfigStage::RxKey => config.rx_decryption_key@,
        _ => Seq::empty(),
    }
}

/// The bytes that write a register: its write address, then its word, low byte first.
pub open spec fn register_write_bytes<R: Register>(register: R) -> Seq<u8> {
    seq![
        R::spec_address() | 0x40,
        register.spec_value() as u8,
        (register.spec_value() >> 8u16) as u8,
    ]
}

/// The bytes that write a stage's value.
pub open spec fn stage_write_bytes(config: Configuration, stage: ConfigStage) -> Seq<u8> {
    match stage {
        ConfigStage::Modem => register_write_bytes(modem_of(config)),
        ConfigStage::SyncWord => register_write_bytes(sync_of(config)),
        _ => ram_write_bytes(stage.spec_ram(), stage_data(config, stage)),
    }
}

/// The bytes that read a stage's value back.
pub open spec fn stage_read_bytes(stage: ConfigStage) -> Seq<u8> {
    match stage {
        ConfigStage::Modem => seq![ModemControlRegister0::spec_address(), 0u8, 0u8],
        ConfigStage::SyncWord => seq![SyncWordRegister::spec_address(), 0u8, 0u8],
        _ => ram_read_bytes(stage.spec_ram()),
    }
}

/// The read-back `reply` shows the stage's value: a register decodes to the
/// register written, and a RAM sector holds the bytes written.
pub open spec fn stage_accepts(config: Configuration, stage: ConfigStage, reply: Seq<u8>) -> bool {
    match stage {
        ConfigStage::Modem => reply.len() == 3 && ModemControlRegister0::spec_decode(
            le_u16(reply[1], reply[2]),
        ) == modem_of(config),
        ConfigStage::SyncWord => reply.len() == 3 && SyncWordRegister::spec_decode(
            le_u16(reply[1], reply[2]),
        ) == sync_of(config),
        _ => reply.len() == stage_data(config, stage).len() + 2 && reply.subrange(
            2,
            reply.len() as int,
        ) == stage_data(config, stage),
    }
}

/// `reply` ends in exactly `data`, after two leading bytes.
fn tail_matches(reply: &Vec<u8>, data: &[u8]) -> (r: bool)
    ensures
        r == (reply@.len() == data@.len() + 2 && reply@.subrange(2, reply@.len() as int)
            == data@),
{
    if reply.len() < 2 || reply.len() - 2 != data.len() {
        return false;
    }
    let total = reply.len();
    let mut i: usize = 0;
    while i < data.len()
        invariant
            total == reply@.len(),
            reply@.len() == data@.len() + 2,
            i <= data@.len(),
            forall|k: int| 0 <= k < i ==> reply@[k + 2] == data@[k],
        decreases data@.len() - i,
    {
        if reply[i + 2] != data[i] {
            assert(reply@.subrange(2, reply@.len() as int)[i as int] != data@[i as int]);
            return false;
        }
        i += 1;
    }
    assert(reply@.subrange(2, reply@.len() as int) =~= data@);
    true
}

/// A configuration run in progress.
pub struct ConfigureSession {
    config: Configuration,
    modem: ModemControlRegister0,
    sync: SyncWordRegister,
    phase: ConfigurePhase,
}

impl ConfigureSession {
    /// The configuration being applied.
    pub closed spec fn config(&self) -> Configuration {
        self.config
    }

    /// Where the run stands.
    pub closed spec fn phase(&self) -> ConfigurePhase {
        self.phase
    }

    /// The registers held match the configuration, and the poll count stays
    /// within its bound.
    pub closed spec fn wf(&self) -> bool {
        &&& self.modem == modem_of(self.config)
        &&& self.sync == sync_of(self.config)
        &&& match self.phase {
            ConfigurePhase::Oscillator(polls) => polls <= MAX_OSCILLATOR_POLLS,
            ConfigurePhase::PollWait(polls) => polls < MAX_OSCILLATOR_POLLS,
            _ => true,
        }
    }

    /// Starts a run that applies `config`. Fails, before anything is sent, if
    /// the preamble length does not fit the modem control register.
    pub fn new<SPIE, GPIOE>(config: Configuration) -> (r: Result<
        ConfigureSession,
        RadioError<SPIE, GPIOE>,
    >)
        ensures
            config.preamble_length <= 15 ==> (r matches Ok(s) && s.wf() && s.config() == config
                && s.phase() == ConfigurePhase::Start),
            config.preamble_length > 15 ==> r == Err::<ConfigureSession, RadioError<SPIE, GPIOE>>(
                RadioError::InvalidConfiguration(
                    FieldError { field: "PREAMBLE_LENGTH", legal: "0..=15" },
                ),
            ),
    {
        let built = ModemControlRegister0Builder::default().pan_coordinator(
            config.pan_coordinator,
        ).adr_decode(config.address_decoding).auto_crc(config.enable_crc).auto_ack(
            config.auto_acknowledge,
        ).preamble_length(config.preamble_length).build();
        match built {
            Ok(modem) => {
                let sync = SyncWordRegister {
                    sync_word: ((config.sync_word[1] as u16) << 8u16) | (config.sync_word[0] as u16),
                };
                Ok(ConfigureSession { config, modem, sync, phase: ConfigurePhase::Start })
            },
            Err(e) => Err(RadioError::InvalidConfiguration(e)),
        }
    }

    /// The bytes of a RAM stage.
    fn stage_bytes(&self, stage: ConfigStage) -> (r: Vec<u8>)
        ensures
            r@ == stage_data(self.config, stage),
    {
        let config = &self.config;
        let r = match stage {
            ConfigStage::ShortAddress => vec![config.short_address[1], config.short_address[0]],
            ConfigStage::PanId => vec![config.pan_identifier[1], config.pan_identifier[0]],
            ConfigStage::IeeeAddress => prefixed(Vec::new(), &config.ieee_address),
            ConfigStage::TxKey => prefixed(Vec::new(), &config.tx_encryption_key),
            ConfigStage::RxKey => prefixed(Vec::new(), &config.rx_decryption_key),
            _ => Vec::new(),
        };
        assert(r@ =~= stage_data(self.config, stage));
        r
    }

    /// The bytes that write a stage's value.
    fn write_frame(&self, stage: ConfigStage) -> (r: Vec<u8>)
        requires
            self.wf(),
        ensures
            r@ == stage_write_bytes(self.config, stage),
    {
        match stage {
            ConfigStage::Modem => {
                let w = self.modem.write_value();
                let r = vec![w[0], w[1], w[2]];
                assert(r@ =~= stage_write_bytes(self.config, stage));
                r
            },
            ConfigStage::SyncWord => {
                let w = self.sync.write_value();
                let r = vec![w[0], w[1], w[2]];
                assert(r@ =~= stage_write_bytes(self.config, stage));
                r
            },
            _ => {
                let data = self.stage_bytes(stage);
                proof {
                    assert(data@.len() == stage.spec_ram().spec_length());
                }
                match ram_write_frame::<(), ()>(stage.ram(), data.as_slice()) {
                    Ok(frame) => frame,
                    Err(_) => Vec::new(),
                }
            },
        }
    }

    /// The bytes that read a stage's value back.
    fn read_frame(&self, stage: ConfigStage) -> (r: Vec<u8>)
        ensures
            r@ == stage_read_bytes(stage),
    {
        match stage {
            ConfigStage::Modem => {
                let r = vec![self.modem.read_address(), 0u8, 0u8];
                assert(r@ =~= stage_read_bytes(stage));
                r
            },
            ConfigStage::SyncWord => {
                let r = vec![self.sync.read_address(), 0u8, 0u8];
                assert(r@ =~= stage_read_bytes(stage));
                r
            },
            _ => {
                let ram = stage.ram();
                match ram_read_frame::<(), ()>(ram, ram.length()) {
                    Ok(frame) => frame,
                    Err(_) => Vec::new(),
                }
            },
        }
    }

    /// Whether a read-back reply shows the stage's value.
    fn accepts(&self, stage: ConfigStage, reply: &Vec<u8>) -> (r: bool)
        requires
            self.wf(),
        ensures
            r == stage_accepts(self.config, stage, reply@),
    {
        match stage {
            ConfigStage::Modem => reply.len() == 3 && ModemControlRegister0::decode(
                ((reply[2] as u16) << 8u16) | (reply[1] as u16),
            ) == self.modem,
            ConfigStage::SyncWord => reply.len() == 3 && SyncWordRegister::decode(
                ((reply[2] as u16) << 8u16) | (reply[1] as u16),
            ) == self.sync,
            _ => {
                let data = self.stage_bytes(stage);
                tail_matches(reply, data.as_slice())
            },
        }
    }

    /// Takes the outcome of the operation last asked for and returns the next
    /// one, or the run's result.
    pub fn next<SPIE, GPIOE>(&mut self, event: BusEvent) -> (r: Step<
        Result<RadioStatus, RadioError<SPIE, GPIOE>>,
    >)
        requires
            old(self).wf(),
            old(self).phase() != ConfigurePhase::Finished,
        ensures
            final(self).wf(),
            final(self).config() == old(self).config(),
            match old(self).phase() {
                ConfigurePhase::Start => final(self).phase() == ConfigurePhase::Written(
                    ConfigStage::Modem,
                ) && is_transfer(r, stage_write_bytes(old(self).config(), ConfigStage::Modem)),
                ConfigurePhase::Written(s) => final(self).phase() == ConfigurePhase::Settled(s) && (
                r matches Step::Perform(BusOp::Delay(us)) && us == SETTLE_DELAY_US),
                ConfigurePhase::Settled(s) => final(self).phase() == ConfigurePhase::ReadBack(s)
                    && is_transfer(r, stage_read_bytes(s)),
                ConfigurePhase::ReadBack(s) => if stage_accepts(
                    old(self).config(),
                    s,
                    reply_of(event),
                ) {
                    match s.spec_following() {
                        Some(n) => final(self).phase() == ConfigurePhase::Written(n) && is_transfer(
                            r,
                            stage_write_bytes(old(self).config(), n),
                        ),
                        None => final(self).phase() == ConfigurePhase::Oscillator(0) && is_transfer(
                            r,
                            seq![Strobe::XOSCOn.spec_opcode()],
                        ),
                    }
                } else {
                    final(self).phase() == ConfigurePhase::Finished && r == Step::<
                        Result<RadioStatus, RadioError<SPIE, GPIOE>>,
                    >::Finished(Err(RadioError::FailedConfiguration(s.spec_message())))
                },
                ConfigurePhase::Oscillator(polls) => if RadioStatus::spec_from_byte(
                    first_byte(reply_of(event)),
                ).xosx_stable {
                    final(self).phase() == ConfigurePhase::Calibrating && is_transfer(
                        r,
                        seq![Strobe::CalibrateFrequency.spec_opcode()],
                    )
                } else if polls >= MAX_OSCILLATOR_POLLS {
                    final(self).phase() == ConfigurePhase::Finished && r == Step::<
                        Result<RadioStatus, RadioError<SPIE, GPIOE>>,
                    >::Finished(Err(RadioError::Timeout))
                } else {
                    final(self).phase() == ConfigurePhase::PollWait(polls) && (r matches Step::Perform(
                        BusOp::Delay(us),
                    ) && us == POLL_INTERVAL_US)
                },
                ConfigurePhase::PollWait(polls) => final(self).phase() == ConfigurePhase::Oscillator(
                    (polls + 1) as u32,
                ) && is_transfer(r, seq![Strobe::ReadStatus.spec_opcode()]),
                ConfigurePhase::Calibrating => final(self).phase() == ConfigurePhase::Finished && r
                    == Step::<Result<RadioStatus, RadioError<SPIE, GPIOE>>>::Finished(
                    Ok(RadioStatus::spec_from_byte(first_byte(reply_of(event)))),
                ),
                ConfigurePhase::Finished => false,
            },
    {
        let reply = reply_bytes(event);
        match self.phase {
            ConfigurePhase::Start => {
                self.phase = ConfigurePhase::Written(ConfigStage::Modem);
                Step::Perform(BusOp::Transfer(self.write_frame(ConfigStage::Modem)))
            },
            ConfigurePhase::Written(stage) => {
                self.phase = ConfigurePhase::Settled(stage);
                Step::Perform(BusOp::Delay(SETTLE_DELAY_US))
            },
            ConfigurePhase::Settled(stage) => {
                self.phase = ConfigurePhase::ReadBack(stage);
                Step::Perform(BusOp::Transfer(self.read_frame(stage)))
            },
            ConfigurePhase::ReadBack(stage) => {
                if self.accepts(stage, &reply) {
                    match stage.following() {
                        Some(following) => {
                            self.phase = ConfigurePhase::Written(following);
                            Step::Perform(BusOp::Transfer(self.write_frame(following)))
                        },
                        None => {
                            self.phase = ConfigurePhase::Oscillator(0);
                            {
                    let frame = vec![Strobe::XOSCOn.opcode()];
                    assert(frame@ =~= seq![Strobe::XOSCOn.spec_opcode()]);
                    Step::Perform(BusOp::Transfer(frame))
                }
                        },
                    }
                } else {
                    self.phase = ConfigurePhase::Finished;
                    Step::Finished(Err(RadioError::FailedConfiguration(stage.message())))
                }
            },
            ConfigurePhase::Oscillator(polls) => {
                let status = RadioStatus::from_byte(first_byte_of(&reply));
                if status.xosx_stable {
                    self.phase = ConfigurePhase::Calibrating;
                    {
                    let frame = vec![Strobe::CalibrateFrequency.opcode()];
                    assert(frame@ =~= seq![Strobe::CalibrateFrequency.spec_opcode()]);
                    Step::Perform(BusOp::Transfer(frame))
                }
                } else if polls >= MAX_OSCILLATOR_POLLS {
                    self.phase = ConfigurePhase::Finished;
                    Step::Finished(Err(RadioError::Timeout))
                } else {
                    self.phase = ConfigurePhase::PollWait(polls);
                    Step::Perform(BusOp::Delay(POLL_INTERVAL_US))
                }
            },
            ConfigurePhase::PollWait(polls) => {
                self.phase = ConfigurePhase::Oscillator(polls + 1);
                {
                    let frame = vec![Strobe::ReadStatus.opcode()];
                    assert(frame@ =~= seq![Strobe::ReadStatus.spec_opcode()]);
                    Step::Perform(BusOp::Transfer(frame))
                }
            },
            ConfigurePhase::Calibrating => {
                self.phase = ConfigurePhase::Finished;
                Step::Finished(Ok(RadioStatus::from_byte(first_byte_of(&reply))))
            },
            ConfigurePhase::Finished => Step::Finished(Err(RadioError::Timeout)),
        }
    }

    /// Whether the run has produced its result.
    pub fn is_finished(&self) -> (r: bool)
        ensures
            r == (self.phase() == ConfigurePhase::Finished),
    {
        self.phase == ConfigurePhase::Finished
    }
}

} // verus!
