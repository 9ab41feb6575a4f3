//! The radio-wide settings applied by a configuration run.

use vstd::prelude::*;

use crate::error::FieldError;

verus! {

/// Settings applied to the radio when it is configured. Ranges are checked
/// by the registers each value feeds.
#[derive(Clone, Copy, Debug, PartialEq, Eq)]
pub struct Configuration {
    /// The device is a PAN coordinator.
    pub pan_coordinator: bool,
    /// Hardware address decoding is enabled.
    pub address_decoding: bool,
    /// A CRC is appended in TX and checked in RX.
    pub enable_crc: bool,
    /// Frames requesting an acknowledgement are acknowledged automatically.
    pub auto_acknowledge: bool,
    /// Number of preamble bytes, less one (0..=15).
    pub preamble_length: u8,
    /// Synchronisation word, low byte first.
    pub sync_word: [u8; 2],
    /// 16-bit short address, low byte first.
    pub short_address: [u8; 2],
    /// 16-bit PAN identifier, low byte first.
    pub pan_identifier: [u8; 2],
    /// 64-bit IEEE address.
    pub ieee_address: [u8; 8],
    /// 128-bit key used for TX encryption (key 1).
    pub tx_encryption_key: [u8; 16],
    /// 128-bit key used for RX decryption (key 0).
    pub rx_decryption_key: [u8; 16],
}

impl Configuration {
    /// The defaults, which match the IEEE 802.15.4 reset values of the radio.
    pub open spec fn spec_default() -> Configuration {
        Configuration {
            pan_coordinator: false,
            address_decoding: true,
            enable_crc: true,
            auto_acknowledge: false,
            preamble_length: 2,
            sync_word: [0xA7, 0x0F],
            short_address: [0x12, 0x34],
            pan_identifier: [0x12, 0x34],
            ieee_address: [0x12, 0x34, 0x56, 0x78, 0x9A, 0xBC, 0xDE, 0xF0],
            tx_encryption_key: [0u8, 0, 0, 0, 0, 0, 0, 0, 0, 0, 0, 0, 0, 0, 0, 0],
            rx_decryption_key: [0u8, 0, 0, 0, 0, 0, 0, 0, 0, 0, 0, 0, 0, 0, 0, 0],
        }
    }
}

/// Builds a [`Configuration`], starting from the defaults.
pub struct ConfigurationBuilder {
    value: Configuration,
}

impl View for ConfigurationBuilder {
    type V = Configuration;

    closed spec fn view(&self) -> Configuration {
        self.value
    }
}

impl Default for ConfigurationBuilder {
    fn default() -> (r: ConfigurationBuilder)
        ensures
            r@ == Configuration::spec_default(),
    {
        ConfigurationBuilder {
            value: Configuration {
                pan_coordinator: false,
                address_decoding: true,
                enable_crc: true,
                auto_acknowledge: false,
                preamble_length: 2,
                sync_word: [0xA7, 0x0F],
                short_address: [0x12, 0x34],
                pan_identifier: [0x12, 0x34],
                ieee_address: [0x12, 0x34, 0x56, 0x78, 0x9A, 0xBC, 0xDE, 0xF0],
                tx_encryption_key: [0u8, 0, 0, 0, 0, 0, 0, 0, 0, 0, 0, 0, 0, 0, 0, 0],
                rx_decryption_key: [0u8, 0, 0, 0, 0, 0, 0, 0, 0, 0, 0, 0, 0, 0, 0, 0],
            },
        }
    }
}

impl ConfigurationBuilder {
    /// Sets `pan_coordinator`.
    pub fn pan_coordinator(self, value: bool) -> (r: ConfigurationBuilder)
        ensures
            r@ == (Configuration { pan_coordinator: value, ..self@ }),
    {
        let mut r = self;
        r.value.pan_coordinator = value;
        r
    }

    /// Sets `address_decoding`.
    pub fn address_decoding(self, value: bool) -> (r: ConfigurationBuilder)
        ensures
            r@ == (Configuration { address_decoding: value, ..self@ }),
    {
        let mut r = self;
        r.value.address_decoding = value;
        r
    }

    /// Sets `enable_crc`.
    pub fn enable_crc(self, value: bool) -> (r: ConfigurationBuilder)
        ensures
            r@ == (Configuration { enable_crc: value, ..self@ }),
    {
        let mut r = self;
        r.value.enable_crc = value;
        r
    }

    /// Sets `auto_acknowledge`.
    pub fn auto_acknowledge(self, value: bool) -> (r: ConfigurationBuilder)
        ensures
            r@ == (Configuration { auto_acknowledge: value, ..self@ }),
    {
        let mut r = self;
        r.value.auto_acknowledge = value;
        r
    }

    /// Sets `preamble_length`.
    pub fn preamble_length(self, value: u8) -> (r: ConfigurationBuilder)
        ensures
            r@ == (Configuration { preamble_length: value, ..self@ }),
    {
        let mut r = self;
        r.value.preamble_length = value;
        r
    }

    /// Sets `sync_word`.
    pub fn sync_word(self, value: [u8; 2]) -> (r: ConfigurationBuilder)
        ensures
            r@ == (Configuration { sync_word: value, ..self@ }),
    {
        let mut r = self;
        r.value.sync_word = value;
        r
    }

    /// Sets `short_address`.
    pub fn short_address(self, value: [u8; 2]) -> (r: ConfigurationBuilder)
        ensures
            r@ == (Configuration { short_address: value, ..self@ }),
    {
        let mut r = self;
        r.value.short_address = value;
        r
    }

    /// Sets `pan_identifier`.
    pub fn pan_identifier(self, value: [u8; 2]) -> (r: ConfigurationBuilder)
        ensures
            r@ == (Configuration { pan_identifier: value, ..self@ }),
    {
        let mut r = self;
        r.value.pan_identifier = value;
        r
    }

    /// Sets `ieee_address`.
    pub fn ieee_address(self, value: [u8; 8]) -> (r: ConfigurationBuilder)
        ensures
            r@ == (Configuration { ieee_address: value, ..self@ }),
    {
        let mut r = self;
        r.value.ieee_address = value;
        r
    }

    /// Sets `tx_encryption_key`.
    pub fn tx_encryption_key(self, value: [u8; 16]) -> (r: ConfigurationBuilder)
        ensures
            r@ == (Configuration { tx_encryption_key: value, ..self@ }),
    {
        let mut r = self;
        r.value.tx_encryption_key = value;
        r
    }

    /// Sets `rx_decryption_key`.
    pub fn rx_decryption_key(self, value: [u8; 16]) -> (r: ConfigurationBuilder)
        ensures
            r@ == (Configuration { rx_decryption_key: value, ..self@ }),
    {
        let mut r = self;
        r.value.rx_decryption_key = value;
        r
    }

    /// The configuration. Every combination of values is accepted here; the
    /// registers they feed check their ranges when the radio is configured.
    pub fn build(&self) -> (r: Result<Configuration, FieldError>)
        ensures
            r == Ok::<Configuration, FieldError>(self@),
    {
        Ok(self.value)
    }
}

} // verus!
