//! The bytes exchanged with the radio in one bus transaction.
//!
//! Every transaction is a full-duplex transfer: the radio answers each byte
//! sent, and its first answer is always the status byte. The functions here
//! build what is sent and take apart what comes back. Length checks happen
//! here, before any byte exists to be sent.

use vstd::prelude::*;

use crate::error::RadioError;
use crate::ram::{ram_address, Ram};
use crate::register::manufacturer_id::{LowerManufacturerID, UpperManufacturerID};
use crate::register::Register;
use crate::status::RadioStatus;
use crate::strobe::Strobe;

verus! {

/// The largest payload the TX FIFO takes in one write.
pub const MAX_FRAME_LENGTH: usize = 128;

/// `n` zero bytes.
pub open spec fn zeros(n: nat) -> Seq<u8> {
    Seq::new(n, |_i: int| 0u8)
}

/// The bytes that write `data` into the sector `ram`: its write address, then the data.
pub open spec fn ram_write_bytes(ram: Ram, data: Seq<u8>) -> Seq<u8> {
    let address = ram_address(ram.spec_offset(), false);
    seq![address.0, address.1] + data
}

/// The bytes that read the sector `ram`: its read address, then one placeholder
/// byte for each byte of the sector.
pub open spec fn ram_read_bytes(ram: Ram) -> Seq<u8> {
    let address = ram_address(ram.spec_offset(), true);
    seq![address.0, address.1] + zeros(ram.spec_length() as nat)
}

/// The bytes that write `data` into the TX FIFO.
pub open spec fn fifo_write_bytes(data: Seq<u8>) -> Seq<u8> {
    seq![Strobe::TxFifo.spec_opcode()] + data
}

/// The bytes that read `n` bytes from the RX FIFO.
pub open spec fn fifo_read_bytes(n: nat) -> Seq<u8> {
    seq![Strobe::RxFifo.spec_opcode()] + zeros(n)
}

/// The number of RX FIFO bytes that a receive into a buffer of `len` bytes reads.
pub open spec fn receive_length(len: usize) -> usize {
    if len < MAX_FRAME_LENGTH {
        len
    } else {
        MAX_FRAME_LENGTH
    }
}

/// The status carried by the first byte of a reply.
pub open spec fn reply_status(reply: Seq<u8>) -> RadioStatus
    recommends
        reply.len() > 0,
{
    RadioStatus::spec_from_byte(reply[0])
}

/// `prefix` followed by `data`.
pub(crate) fn prefixed(prefix: Vec<u8>, data: &[u8]) -> (r: Vec<u8>)
    ensures
        r@ == prefix@ + data@,
{
    let mut frame = prefix;
    let mut i: usize = 0;
    while i < data.len()
        invariant
            i <= data@.len(),
            frame@ == prefix@ + data@.subrange(0, i as int),
        decreases data@.len() - i,
    {
        frame.push(data[i]);
        i += 1;
        assert(data@.subrange(0, i as int) =~= data@.subrange(0, i - 1) + seq![data@[i - 1]]);
    }
    assert(data@.subrange(0, data@.len() as int) =~= data@);
    frame
}

/// `prefix` followed by `n` zero bytes.
fn zero_padded(prefix: Vec<u8>, n: usize) -> (r: Vec<u8>)
    ensures
        r@ == prefix@ + zeros(n as nat),
{
    let mut frame = prefix;
    let mut i: usize = 0;
    while i < n
        invariant
            i <= n,
            frame@ == prefix@ + zeros(i as nat),
        decreases n - i,
    {
        frame.push(0u8);
        i += 1;
        assert(zeros(i as nat) =~= zeros((i - 1) as nat) + seq![0u8]);
    }
    frame
}

/// The bytes that read `register`: its address, then two placeholder bytes.
pub fn register_read_frame<R: Register>(register: &R) -> (r: [u8; 3])
    ensures
        r@ == seq![R::spec_address(), 0u8, 0u8],
{
    let r = [register.read_address(), 0u8, 0u8];
    assert(r@ =~= seq![R::spec_address(), 0u8, 0u8]);
    r
}

/// The bytes that write `data` into `ram`, provided `data` is exactly as long
/// as the sector.
pub fn ram_write_frame<SPIE, GPIOE>(ram: Ram, data: &[u8]) -> (r: Result<
    Vec<u8>,
    RadioError<SPIE, GPIOE>,
>)
    ensures
        data@.len() == ram.spec_length() ==> (r matches Ok(frame) && frame@ == ram_write_bytes(
            ram,
            data@,
        )),
        data@.len() != ram.spec_length() ==> r == Err::<Vec<u8>, RadioError<SPIE, GPIOE>>(
            RadioError::InvalidBufferLenth { expected: ram.spec_length(), found: data@.len() as usize },
        ),
{
    if data.len() != ram.length() {
        return Err(RadioError::InvalidBufferLenth { expected: ram.length(), found: data.len() });
    }
    let address = ram.write_address();
    Ok(prefixed(vec![address.0, address.1], data))
}

/// The bytes that read `ram` into a buffer of `len` bytes, provided `len` is
/// exactly the sector's length.
pub fn ram_read_frame<SPIE, GPIOE>(ram: Ram, len: usize) -> (r: Result<
    Vec<u8>,
    RadioError<SPIE, GPIOE>,
>)
    ensures
        len == ram.spec_length() ==> (r matches Ok(frame) && frame@ == ram_read_bytes(ram)),
        len != ram.spec_length() ==> r == Err::<Vec<u8>, RadioError<SPIE, GPIOE>>(
            RadioError::InvalidBufferLenth { expected: ram.spec_length(), found: len },
        ),
{
    if len != ram.length() {
        return Err(RadioError::InvalidBufferLenth { expected: ram.length(), found: len });
    }
    let address = ram.read_address();
    Ok(zero_padded(vec![address.0, address.1], len))
}

/// Copies the sector's bytes out of the reply to a RAM read (which follow
/// the status byte and the address byte) and returns the status.
pub fn ram_read_payload(reply: &[u8], out: &mut [u8]) -> (r: RadioStatus)
    requires
        reply@.len() == old(out)@.len() + 2,
    ensures
        final(out)@ == reply@.subrange(2, reply@.len() as int),
        r == reply_status(reply@),
{
    let total = reply.len();
    let mut i: usize = 0;
    while i < out.len()
        invariant
            total == reply@.len(),
            reply@.len() == out@.len() + 2,
            i <= out@.len(),
            forall|k: int| 0 <= k < i ==> out@[k] == reply@[k + 2],
        decreases out@.len() - i,
    {
        out[i] = reply[i + 2];
        i += 1;
    }
    assert(out@ =~= reply@.subrange(2, reply@.len() as int));
    RadioStatus::from_byte(reply[0])
}

/// The bytes that write `data` into the TX FIFO, provided it holds at most
/// 128 bytes.
pub fn tx_fifo_frame<SPIE, GPIOE>(data: &[u8]) -> (r: Result<Vec<u8>, RadioError<SPIE, GPIOE>>)
    ensures
        data@.len() <= MAX_FRAME_LENGTH ==> (r matches Ok(frame) && frame@ == fifo_write_bytes(
            data@,
        )),
        data@.len() > MAX_FRAME_LENGTH ==> r == Err::<Vec<u8>, RadioError<SPIE, GPIOE>>(
            RadioError::InvalidBufferLenth { expected: MAX_FRAME_LENGTH, found: data@.len() as usize },
        ),
{
    if data.len() > MAX_FRAME_LENGTH {
        return Err(RadioError::InvalidBufferLenth { expected: MAX_FRAME_LENGTH, found: data.len() });
    }
    Ok(prefixed(vec![Strobe::TxFifo.opcode()], data))
}

/// The bytes that read the RX FIFO into a buffer of `len` bytes: at most
/// 128 bytes are read, and the reply is one status byte longer.
pub fn rx_fifo_frame(len: usize) -> (r: Vec<u8>)
    ensures
        r@ == fifo_read_bytes(receive_length(len) as nat),
{
    let n = if len < MAX_FRAME_LENGTH {
        len
    } else {
        MAX_FRAME_LENGTH
    };
    zero_padded(vec![Strobe::RxFifo.opcode()], n)
}

/// Copies the bytes that follow the status byte of an RX FIFO reply to the
/// front of `out`, leaving the rest of `out` as it was, and returns the status.
pub fn rx_fifo_payload(reply: &[u8], out: &mut [u8]) -> (r: RadioStatus)
    requires
        reply@.len() == receive_length(old(out)@.len() as usize) + 1,
    ensures
        final(out)@ == reply@.subrange(1, reply@.len() as int) + old(out)@.subrange(
            reply@.len() - 1,
            old(out)@.len() as int,
        ),
        r == reply_status(reply@),
{
    let n = reply.len() - 1;
    let mut i: usize = 0;
    while i < n
        invariant
            n == reply@.len() - 1,
            n <= out@.len(),
            out@.len() == old(out)@.len(),
            i <= n,
            forall|k: int| 0 <= k < i ==> out@[k] == reply@[k + 1],
            forall|k: int| n <= k < out@.len() ==> out@[k] == old(out)@[k],
        decreases n - i,
    {
        out[i] = reply[i + 1];
        i += 1;
    }
    assert(out@ =~= reply@.subrange(1, reply@.len() as int) + old(out)@.subrange(
        reply@.len() - 1,
        old(out)@.len() as int,
    ));
    RadioStatus::from_byte(reply[0])
}

/// The part number: the upper register's twelve bits above the lower
/// register's four bits.
pub fn part_number(lower: &LowerManufacturerID, upper: &UpperManufacturerID) -> (r: u16)
    ensures
        r == (upper.part_num << 4u16) | (lower.part_num as u16),
        lower.valid() && upper.valid() ==> r == upper.part_num * 16 + lower.part_num,
{
    let (high, low) = (upper.part_num, lower.part_num);
    assert(high <= 0xFFF && low <= 0xF ==> (high << 4u16) | (low as u16) == high * 16 + low)
        by (bit_vector);
    (high << 4u16) | (low as u16)
}

} // verus!
