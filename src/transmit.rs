//! Sending a payload of any length.
//!
//! The run flushes the TX FIFO, then splits the payload into chunks of at
//! most 128 bytes. Every chunk but the last is written to the TX FIFO,
//! transmitted, and followed by a wait for the frame-start line to go high
//! (giving up after a bounded number of polls). The last chunk is written and
//! transmitted by a strobe whose status is the run's result. A payload whose
//! length is a multiple of 128 ends with a full chunk: no empty FIFO write is
//! ever sent, and an empty payload sends no FIFO write at all.

use vstd::prelude::*;

use crate::error::RadioError;
use crate::frame::{fifo_write_bytes, MAX_FRAME_LENGTH};
use crate::session::{
    first_byte, first_byte_of, is_transfer, is_write, reply_bytes, reply_of, BusEvent, BusOp,
    Step,
};
use crate::status::RadioStatus;
use crate::strobe::Strobe;

verus! {

/// Interval between two polls of the frame-start line.
pub const FRAME_START_POLL_US: u32 = 100;

/// Number of polls after which a chunk is taken to have failed to go out.
pub const MAX_FRAME_START_POLLS: u32 = 1000;

/// The number of chunks a payload of `len` bytes is sent in.
pub open spec fn chunk_count(len: nat) -> nat {
    (len + 127) / 128
}

/// Where chunk `i` of a payload of `len` bytes starts.
pub open spec fn chunk_start(i: nat) -> nat {
    128 * i
}

/// Where chunk `i` of a payload of `len` bytes ends.
pub open spec fn chunk_end(len: nat, i: nat) -> nat {
    if 128 * (i + 1) < len {
        128 * (i + 1)
    } else {
        len
    }
}

/// Chunk `i` of `data`.
pub open spec fn chunk(data: Seq<u8>, i: nat) -> Seq<u8> {
    data.subrange(chunk_start(i) as int, chunk_end(data.len(), i) as int)
}

/// The strobe that starts a transmission, gated by clear channel assessment or not.
pub open spec fn tx_strobe(cca: bool) -> Strobe {
    if cca {
        Strobe::EnableTxCCA
    } else {
        Strobe::EnableTx
    }
}

/// The chunks of a payload follow each other without gap or overlap, cover
/// the whole payload, and each holds between 1 and 128 bytes.
pub proof fn lemma_chunks(len: nat, i: nat)
    requires
        i < chunk_count(len),
    ensures
        chunk_start(i) < chunk_end(len, i) <= len,
        chunk_end(len, i) - chunk_start(i) <= 128,
        i + 1 < chunk_count(len) ==> chunk_end(len, i) == chunk_start(i + 1),
        i + 1 == chunk_count(len) ==> chunk_end(len, i) == len,
        chunk_start(0) == 0,
{
    assert(128 * i < len) by (nonlinear_arith)
        requires
            i < (len + 127) / 128,
    ;
    assert(i + 1 == (len + 127) / 128 ==> len <= 128 * (i + 1)) by (nonlinear_arith);
    assert(i + 1 < (len + 127) / 128 ==> 128 * (i + 1) < len) by (nonlinear_arith);
}

/// Where a send run stands: the operation it last asked for.
#[derive(Clone, Copy, Debug, PartialEq, Eq, Structural)]
pub enum SendPhase {
    /// Nothing asked for yet.
    Start,
    /// The TX FIFO is being flushed.
    Flushed,
    /// Chunk `i`, not the last, is being written.
    ChunkWritten(usize),
    /// Chunk `i` is being transmitted.
    ChunkStarted(usize),
    /// The frame-start line is being read, after this many earlier polls, while chunk `i` goes out.
    Waiting(usize, u32),
    /// The run waits before reading the line again.
    PollDelay(usize, u32),
    /// The last chunk is being written.
    FinalWritten,
    /// The last chunk is being transmitted.
    Transmitting,
    /// The run has produced its result.
    Finished,
}

/// A send run in progress.
pub struct SendSession {
    data: Vec<u8>,
    cca: bool,
    phase: SendPhase,
}

/// The bytes that write `data[start..end]` into the TX FIFO.
fn fifo_chunk_frame(data: &Vec<u8>, start: usize, end: usize) -> (r: Vec<u8>)
    requires
        start <= end <= data@.len(),
    ensures
        r@ == fifo_write_bytes(data@.subrange(start as int, end as int)),
{
    let mut frame = vec![Strobe::TxFifo.opcode()];
    let mut i: usize = start;
    while i < end
        invariant
            start <= i <= end <= data@.len(),
            frame@ == seq![Strobe::TxFifo.spec_opcode()] + data@.subrange(start as int, i as int),
        decreases end - i,
    {
        frame.push(data[i]);
        i += 1;
        assert(data@.subrange(start as int, i as int) =~= data@.subrange(start as int, i - 1)
            + seq![data@[i - 1]]);
    }
    frame
}

impl SendSession {
    /// The payload being sent.
    pub closed spec fn data(&self) -> Seq<u8> {
        self.data@
    }

    /// Whether transmissions are gated by clear channel assessment.
    pub closed spec fn cca(&self) -> bool {
        self.cca
    }

    /// Where the run stands.
    pub closed spec fn phase(&self) -> SendPhase {
        self.phase
    }

    /// Chunk indices and poll counts stay within their bounds.
    pub closed spec fn wf(&self) -> bool {
        match self.phase {
            SendPhase::ChunkWritten(i) => i + 1 < chunk_count(self.data@.len()),
            SendPhase::ChunkStarted(i) => i + 1 < chunk_count(self.data@.len()),
            SendPhase::Waiting(i, polls) => i + 1 < chunk_count(self.data@.len()) && polls
                <= MAX_FRAME_START_POLLS,
            SendPhase::PollDelay(i, polls) => i + 1 < chunk_count(self.data@.len()) && polls
                < MAX_FRAME_START_POLLS,
            _ => true,
        }
    }

    /// Starts a run that sends `data`.
    pub fn new(data: &[u8], cca: bool) -> (r: SendSession)
        ensures
            r.wf(),
            r.data() == data@,
            r.cca() == cca,
            r.phase() == SendPhase::Start,
    {
        let mut copy: Vec<u8> = Vec::new();
        let mut i: usize = 0;
        while i < data.len()
            invariant
                i <= data@.len(),
                copy@ == data@.subrange(0, i as int),
            decreases data@.len() - i,
        {
            copy.push(data[i]);
            i += 1;
            assert(data@.subrange(0, i as int) =~= data@.subrange(0, i - 1) + seq![data@[i - 1]]);
        }
        assert(data@.subrange(0, data@.len() as int) =~= data@);
        SendSession { data: copy, cca, phase: SendPhase::Start }
    }

    fn tx_opcode(&self) -> (r: u8)
        ensures
            r == tx_strobe(self.cca).spec_opcode(),
    {
        if self.cca {
            Strobe::EnableTxCCA.opcode()
        } else {
            Strobe::EnableTx.opcode()
        }
    }

    /// Writes chunk `i`, as the last chunk if it is one.
    fn write_chunk<T>(&mut self, i: usize) -> (r: Step<T>)
        requires
            (i as nat) < chunk_count(old(self).data@.len()),
        ensures
            final(self).data@ == old(self).data@,
            final(self).cca == old(self).cca,
            is_write(r, fifo_write_bytes(chunk(old(self).data@, i as nat))),
            (i as nat) + 1 < chunk_count(old(self).data@.len()) ==> final(self).phase
                == SendPhase::ChunkWritten(i),
            (i as nat) + 1 == chunk_count(old(self).data@.len()) ==> final(self).phase
                == SendPhase::FinalWritten,
    {
        proof {
            lemma_chunks(self.data@.len(), i as nat);
        }
        let len = self.data.len();
        let start = i * MAX_FRAME_LENGTH;
        let end = if len - start > MAX_FRAME_LENGTH {
            start + MAX_FRAME_LENGTH
        } else {
            len
        };
        if end < len {
            self.phase = SendPhase::ChunkWritten(i);
        } else {
            self.phase = SendPhase::FinalWritten;
        }
        Step::Perform(BusOp::Write(fifo_chunk_frame(&self.data, start, end)))
    }

    /// Takes the outcome of the operation last asked for and returns the next
    /// one, or the run's result.
    pub fn next<SPIE, GPIOE>(&mut self, event: BusEvent) -> (r: Step<
        Result<RadioStatus, RadioError<SPIE, GPIOE>>,
    >)
        requires
            old(self).wf(),
            old(self).phase() != SendPhase::Finished,
        ensures
            final(self).wf(),
            final(self).data() == old(self).data(),
            final(self).cca() == old(self).cca(),
            match old(self).phase() {
                SendPhase::Start => final(self).phase() == SendPhase::Flushed && is_transfer(
                    r,
                    seq![Strobe::FlushTx.spec_opcode()],
                ),
                SendPhase::Flushed => if chunk_count(old(self).data().len()) == 0 {
                    final(self).phase() == SendPhase::Transmitting && is_transfer(
                        r,
                        seq![tx_strobe(old(self).cca()).spec_opcode()],
                    )
                } else {
                    is_write(r, fifo_write_bytes(chunk(old(self).data(), 0)))
                        && if chunk_count(old(self).data().len()) == 1 {
                        final(self).phase() == SendPhase::FinalWritten
                    } else {
                        final(self).phase() == SendPhase::ChunkWritten(0)
                    }
                },
                SendPhase::ChunkWritten(i) => final(self).phase() == SendPhase::ChunkStarted(i)
                    && is_write(r, seq![tx_strobe(old(self).cca()).spec_opcode()]),
                SendPhase::ChunkStarted(i) => final(self).phase() == SendPhase::Waiting(i, 0) && (
                r matches Step::Perform(BusOp::ReadFrameStart)),
                SendPhase::Waiting(i, polls) => if event matches BusEvent::FrameStart(true) {
                    is_write(r, fifo_write_bytes(chunk(old(self).data(), (i + 1) as nat)))
                        && if i + 2 == chunk_count(old(self).data().len()) {
                        final(self).phase() == SendPhase::FinalWritten
                    } else {
                        final(self).phase() == SendPhase::ChunkWritten((i + 1) as usize)
                    }
                } else if polls >= MAX_FRAME_START_POLLS {
                    final(self).phase() == SendPhase::Finished && r == Step::<
                        Result<RadioStatus, RadioError<SPIE, GPIOE>>,
                    >::Finished(Err(RadioError::Timeout))
                } else {
                    final(self).phase() == SendPhase::PollDelay(i, polls) && (r matches Step::Perform(
                        BusOp::Delay(us),
                    ) && us == FRAME_START_POLL_US)
                },
                SendPhase::PollDelay(i, polls) => final(self).phase() == SendPhase::Waiting(
                    i,
                    (polls + 1) as u32,
                ) && (r matches Step::Perform(BusOp::ReadFrameStart)),
                SendPhase::FinalWritten => final(self).phase() == SendPhase::Transmitting
                    && is_transfer(r, seq![tx_strobe(old(self).cca()).spec_opcode()]),
                SendPhase::Transmitting => final(self).phase() == SendPhase::Finished && r
                    == Step::<Result<RadioStatus, RadioError<SPIE, GPIOE>>>::Finished(
                    Ok(RadioStatus::spec_from_byte(first_byte(reply_of(event)))),
                ),
                SendPhase::Finished => false,
            },
    {
        let level = match event {
            BusEvent::FrameStart(high) => high,
            _ => false,
        };
        let reply = reply_bytes(event);
        match self.phase {
            SendPhase::Start => {
                self.phase = SendPhase::Flushed;
                let frame = vec![Strobe::FlushTx.opcode()];
                assert(frame@ =~= seq![Strobe::FlushTx.spec_opcode()]);
                Step::Perform(BusOp::Transfer(frame))
            },
            SendPhase::Flushed => {
                if self.data.len() == 0 {
                    self.phase = SendPhase::Transmitting;
                    let frame = vec![self.tx_opcode()];
                    assert(frame@ =~= seq![tx_strobe(self.cca).spec_opcode()]);
                    Step::Perform(BusOp::Transfer(frame))
                } else {
                    self.write_chunk(0)
                }
            },
            SendPhase::ChunkWritten(i) => {
                self.phase = SendPhase::ChunkStarted(i);
                let frame = vec![self.tx_opcode()];
                assert(frame@ =~= seq![tx_strobe(self.cca).spec_opcode()]);
                Step::Perform(BusOp::Write(frame))
            },
            SendPhase::ChunkStarted(i) => {
                self.phase = SendPhase::Waiting(i, 0);
                Step::Perform(BusOp::ReadFrameStart)
            },
            SendPhase::Waiting(i, polls) => {
                if level {
                    let _len = self.data.len();
                    proof {
                        lemma_chunks(self.data@.len(), i as nat);
                    }
                    self.write_chunk(i + 1)
                } else if polls >= MAX_FRAME_START_POLLS {
                    self.phase = SendPhase::Finished;
                    Step::Finished(Err(RadioError::Timeout))
                } else {
                    self.phase = SendPhase::PollDelay(i, polls);
                    Step::Perform(BusOp::Delay(FRAME_START_POLL_US))
                }
            },
            SendPhase::PollDelay(i, polls) => {
                self.phase = SendPhase::Waiting(i, polls + 1);
                Step::Perform(BusOp::ReadFrameStart)
            },
            SendPhase::FinalWritten => {
                self.phase = SendPhase::Transmitting;
                let frame = vec![self.tx_opcode()];
                assert(frame@ =~= seq![tx_strobe(self.cca).spec_opcode()]);
                Step::Perform(BusOp::Transfer(frame))
            },
            SendPhase::Transmitting => {
                self.phase = SendPhase::Finished;
                Step::Finished(Ok(RadioStatus::from_byte(first_byte_of(&reply))))
            },
            SendPhase::Finished => Step::Finished(Err(RadioError::Timeout)),
        }
    }

    /// Whether the run has produced its result.
    pub fn is_finished(&self) -> (r: bool)
        ensures
            r == (self.phase() == SendPhase::Finished),
    {
        self.phase == SendPhase::Finished
    }
}

} // verus!
