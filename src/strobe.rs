//! Single-byte command strobes.

use vstd::prelude::*;

verus! {

/// Single-byte instructions understood by the radio.
#[derive(Clone, Copy, Debug, PartialEq, Eq, Structural)]
pub enum Strobe {
    /// SNOP: no operation; only reads out the status byte.
    ReadStatus,
    /// SXOSCON: turn on the crystal oscillator.
    XOSCOn,
    /// STXCAL: enable and calibrate the frequency synthesizer for TX.
    CalibrateFrequency,
    /// SRXON: enable RX.
    EnableRx,
    /// STXON: enable TX after calibration.
    EnableTx,
    /// STXONCCA: enable TX if clear channel assessment reports a clear channel.
    EnableTxCCA,
    /// SRFOFF: disable RX, TX and the frequency synthesizer.
    DisableRxTx,
    /// SXOSCOFF: turn off the crystal oscillator and RF.
    XOSCOff,
    /// SFLUSHRX: flush the RX FIFO and reset the demodulator.
    FlushRx,
    /// SFLUSHTX: flush the TX FIFO.
    FlushTx,
    /// SACK: send an acknowledge frame with the pending field cleared.
    Ack,
    /// SACKPEND: send an acknowledge frame with the pending field set.
    AckPend,
    /// SRXDEC: start RX FIFO in-line decryption or authentication.
    RxDecryption,
    /// STXENC: start TX FIFO in-line encryption or authentication.
    TxEncryption,
    /// SAES: stand-alone AES encryption.
    AesEncryption,
    /// Write to the TX FIFO.
    TxFifo,
    /// Read from the RX FIFO.
    RxFifo,
}

impl Strobe {
    /// The command byte of each strobe.
    pub open spec fn spec_opcode(self) -> u8 {
        match self {
            Strobe::ReadStatus => 0x00,
            Strobe::XOSCOn => 0x01,
            Strobe::CalibrateFrequency => 0x02,
            Strobe::EnableRx => 0x03,
            Strobe::EnableTx => 0x04,
            Strobe::EnableTxCCA => 0x05,
            Strobe::DisableRxTx => 0x06,
            Strobe::XOSCOff => 0x07,
            Strobe::FlushRx => 0x08,
            Strobe::FlushTx => 0x09,
            Strobe::Ack => 0x0A,
            Strobe::AckPend => 0x0B,
            Strobe::RxDecryption => 0x0C,
            Strobe::TxEncryption => 0x0D,
            Strobe::AesEncryption => 0x0E,
            Strobe::TxFifo => 0x3E,
            Strobe::RxFifo => 0x3F,
        }
    }

    /// The command byte sent on the bus for this strobe.
    pub fn opcode(self) -> (r: u8)
        ensures
            r == self.spec_opcode(),
    {
        match self {
            Strobe::ReadStatus => 0x00,
            Strobe::XOSCOn => 0x01,
            Strobe::CalibrateFrequency => 0x02,
            Strobe::EnableRx => 0x03,
            Strobe::EnableTx => 0x04,
            Strobe::EnableTxCCA => 0x05,
            Strobe::DisableRxTx => 0x06,
            Strobe::XOSCOff => 0x07,
            Strobe::FlushRx => 0x08,
            Strobe::FlushTx => 0x09,
            Strobe::Ack => 0x0A,
            Strobe::AckPend => 0x0B,
            Strobe::RxDecryption => 0x0C,
            Strobe::TxEncryption => 0x0D,
            Strobe::AesEncryption => 0x0E,
            Strobe::TxFifo => 0x3E,
            Strobe::RxFifo => 0x3F,
        }
    }
}

/// Distinct strobes have distinct command bytes, and every command byte lies
/// in 0x00..=0x0E or is one of the two FIFO bytes 0x3E and 0x3F.
pub proof fn lemma_opcode_injective(a: Strobe, b: Strobe)
    ensures
        a.spec_opcode() == b.spec_opcode() <==> a == b,
        a.spec_opcode() <= 0x0E || a.spec_opcode() == 0x3E || a.spec_opcode() == 0x3F,
{
}

} // verus!
