//! A storage device as an array of blocks.

use vstd::prelude::*;

use crate::block::{flat, flatten, split, Block, BlockCount, BlockIdx};
use crate::fault::Fault;
use crate::storage::{
    Action, Conversation, Device, Exchange, Operation, Outcome, Progress, ScsiError, ScsiHandler,
    Step, Transfer,
};
use crate::wire::{Read10Command, Write10Command};

verus! {

/// The block count of a command for `n` blocks: what sixteen bits hold of it.
pub open spec fn announced(n: nat) -> u16 {
    (n % 0x1_0000) as u16
}

/// The command that reads into `blocks` from `start` on.
pub open spec fn reading(blocks: Seq<Block>, start: BlockIdx) -> Conversation {
    let cmd = Read10Command {
        block_address: start.0,
        block_size: 512,
        transfer_blocks: announced(blocks.len()),
    };
    Conversation::start(Operation::Read10, cmd.frame(), flat(blocks))
}

/// The command that writes `blocks` from `start` on.
pub open spec fn writing(blocks: Seq<Block>, start: BlockIdx) -> Conversation {
    let cmd = Write10Command {
        block_address: start.0,
        block_size: 512,
        transfer_blocks: announced(blocks.len()),
    };
    Conversation::start(Operation::Write10, cmd.frame(), flat(blocks))
}

/// Whether `x` is a command on whole blocks.
pub open spec fn on_blocks(x: Conversation) -> bool {
    &&& x.wf()
    &&& x.op == Operation::Read10 || x.op == Operation::Write10
    &&& x.data.len() % 512 == 0
}

/// An access to blocks under way.
struct BlockExchange {
    exchange: Exchange,
}

impl BlockExchange {
    /// An access to blocks is a command on whole blocks.
    #[verifier::type_invariant]
    spec fn fits(self) -> bool {
        on_blocks(self.exchange@)
    }
}

/// A storage device whose blocks are read and written in runs, one run at a time.
pub struct SdmmcScsi {
    scsi: ScsiHandler,
    access: Option<BlockExchange>,
}

/// A storage device as an array of blocks, as a mathematical value.
pub struct Disk {
    pub device: Device,
    /// The access that has begun and is not over. No other one can begin before it is, nor can the
    /// number of blocks be asked for.
    pub in_flight: Option<Conversation>,
}

impl View for SdmmcScsi {
    type V = Disk;

    closed spec fn view(&self) -> Disk {
        Disk {
            device: self.scsi@,
            in_flight: match self.access {
                Some(access) => Some(access.exchange@),
                None => None,
            },
        }
    }
}

/// Where an access to blocks stands after a transfer.
pub enum Access {
    /// There is another transfer to make.
    Continue,
    /// It is over. `blocks` are the blocks as they were read, or as they were to be written.
    Done { result: Result<(), ScsiError>, blocks: Vec<Block> },
    /// The device broke the protocol.
    Halt(Fault),
}

/// Where an access to blocks stands after a transfer, as a mathematical value.
pub enum AccessStep {
    Continue,
    /// `bytes` are those of the blocks, one block after the other.
    Done { result: Result<(), ScsiError>, bytes: Seq<u8> },
    Halt(Fault),
}

impl View for Access {
    type V = AccessStep;

    open spec fn view(&self) -> AccessStep {
        match self {
            Access::Continue => AccessStep::Continue,
            Access::Done { result, blocks } => AccessStep::Done {
                result: *result,
                bytes: flat(blocks@),
            },
            Access::Halt(f) => AccessStep::Halt(*f),
        }
    }
}

impl Disk {
    /// The disk once the access `x` has begun.
    pub open spec fn begun(self, x: Conversation) -> Disk {
        Disk { in_flight: Some(x), ..self }
    }

    /// The disk without an access in flight.
    pub open spec fn idle(self) -> Disk {
        Disk { in_flight: None, ..self }
    }

    /// Whether an access is in flight, and `t` can come of its transfer under way.
    pub open spec fn expects(self, t: Outcome) -> bool {
        self.in_flight matches Some(x) && x.expects(t)
    }

    /// The disk, and where its access in flight stands, after the transfer under way of that access
    /// has come to `t`. The status of a command that went through is dropped.
    pub open spec fn step(self, t: Outcome) -> (Disk, AccessStep)
        recommends
            self.in_flight is Some,
    {
        let (device, step) = self.device.step(self.in_flight->Some_0, t);
        match step {
            Step::Continue(y) => (Disk { device, in_flight: Some(y) }, AccessStep::Continue),
            Step::Halt(f) => (Disk { device, in_flight: None }, AccessStep::Halt(f)),
            Step::Done { reply: Err(e), data } => (
                Disk { device, in_flight: None },
                AccessStep::Done { result: Err(e), bytes: data },
            ),
            Step::Done { reply: Ok(_), data } => (
                Disk { device, in_flight: None },
                AccessStep::Done { result: Ok(()), bytes: data },
            ),
        }
    }
}

/// What sixteen bits hold of `n`.
fn low_half(n: usize) -> (r: u16)
    ensures
        r == announced(n as nat),
{
    assert(n as u16 == n % 0x1_0000) by (bit_vector);
    #[verifier::truncate]
    (n as u16)
}

impl SdmmcScsi {
    /// The blocks of a storage device.
    pub fn new(scsi: ScsiHandler) -> (s: SdmmcScsi)
        ensures
            s@ == (Disk { device: scsi@, in_flight: None }),
    {
        SdmmcScsi { scsi, access: None }
    }

    /// Whether an access has begun that is not over.
    pub fn in_flight(&self) -> (b: bool)
        ensures
            b == self@.in_flight is Some,
    {
        self.access.is_some()
    }

    /// Starts to read into `blocks` from `start_block_idx` on.
    pub fn read(&mut self, blocks: &[Block], start_block_idx: BlockIdx)
        requires
            old(self)@.in_flight is None,
        ensures
            final(self)@ == old(self)@.begun(reading(blocks@, start_block_idx)),
    {
        let num_blocks: usize = blocks.len();
        let exchange = self.scsi.read_10(
            flatten(blocks),
            start_block_idx.0,
            low_half(num_blocks),
        );
        self.access = Some(BlockExchange { exchange });
    }

    /// Starts to write `blocks` from `start_block_idx` on, provided that they have as many bytes
    /// as there are blocks.
    pub fn write(&mut self, blocks: &[Block], start_block_idx: BlockIdx) -> (r: Result<(), Fault>)
        requires
            old(self)@.in_flight is None,
        ensures
            r is Ok <==> flat(blocks@).len() == announced(blocks@.len()),
            r is Ok ==> final(self)@ == old(self)@.begun(writing(blocks@, start_block_idx)),
            r matches Err(f) ==> f == Fault::DataLength && final(self)@ == old(self)@,
    {
        let num_blocks: usize = blocks.len();
        let data = flatten(blocks);
        let count: u16 = low_half(num_blocks);
        if data.len() != count as usize {
            return Err(Fault::DataLength);
        }
        let exchange = self.scsi.write_10(data, start_block_idx.0, count);
        self.access = Some(BlockExchange { exchange });
        Ok(())
    }

    /// The transfer to make now, if an access is in flight.
    pub fn action(&self) -> (a: Option<Action>)
        ensures
            a is Some <==> self@.in_flight is Some,
            a matches Some(a) ==> a@ == self@.in_flight->Some_0.pending(),
    {
        match &self.access {
            Some(access) => Some(access.exchange.action()),
            None => None,
        }
    }

    /// Takes the access in flight on after its transfer under way has come to `transfer`.
    pub fn advance(&mut self, transfer: Transfer) -> (p: Access)
        requires
            old(self)@.expects(transfer@),
        ensures
            (final(self)@, p@) == old(self)@.step(transfer@),
    {
        let access = self.access.take().unwrap();
        proof {
            use_type_invariant(&access);
        }
        match self.scsi.advance(access.exchange, transfer) {
            Progress::Continue(exchange) => {
                self.access = Some(BlockExchange { exchange });
                Access::Continue
            },
            Progress::Halt(fault) => Access::Halt(fault),
            Progress::Done { reply, data } => {
                let result = match reply {
                    Ok(_) => Ok(()),
                    Err(e) => Err(e),
                };
                Access::Done { result, blocks: split(&data) }
            },
        }
    }

    /// Gives up the access in flight, if there is one: nothing more comes of it, and another one
    /// can begin.
    pub fn abandon(&mut self)
        ensures
            final(self)@ == old(self)@.idle(),
    {
        self.access = None;
    }

    /// The number of blocks that the device gives itself: its last block address, 0 before it is
    /// brought up.
    pub fn num_blocks(&self) -> (r: Result<BlockCount, ScsiError>)
        requires
            self@.in_flight is None,
        ensures
            r == Ok::<BlockCount, ScsiError>(BlockCount(self@.device.size)),
    {
        Ok(BlockCount(self.scsi.size()))
    }
}

} // verus!
