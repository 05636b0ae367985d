//! Commands to a storage device, transfer by transfer.
//!
//! Every command is an exchange of two or three bulk transfers: the command frame goes out, the
//! data of the command follow in one direction or the other where it has any, and a status comes
//! back. The functions here say which transfer is next and what to make of its outcome; whoever
//! calls them makes the transfers.

use vstd::prelude::*;

use crate::block::BLOCK_SIZE;
use crate::fault::Fault;
use crate::msc::MscHandler;
use crate::wire::{
    be32_at, zeros, CommandStatusWrapper, Frame, InquiryCommand, InquiryResponse, Read10Command,
    ReadCapacityCommand, ReadCapacityResponse, TestUnitReady, Write10Command, CSW_LEN,
};

verus! {

/// Why a command failed.
#[derive(Clone, Copy, PartialEq, Eq, Structural, Debug)]
pub enum ScsiError {
    /// A transfer failed.
    UsbError,
}

/// Bytes that an inquiry asks for.
pub const INQUIRY_LEN: usize = 36;

/// Bytes that the answer to a capacity command has.
pub const CAPACITY_LEN: usize = 8;

/// The commands.
#[derive(Clone, Copy, PartialEq, Eq, Structural, Debug)]
pub enum Operation {
    Inquiry,
    TestUnitReady,
    ReadCapacity10,
    Read10,
    Write10,
}

/// The transfer of an exchange that is under way.
#[derive(Clone, Copy, PartialEq, Eq, Structural, Debug)]
pub enum Stage {
    /// The command frame goes out.
    Command,
    /// The data of the command, in or out.
    Data,
    /// The status comes in.
    Status,
}

/// What the transport is to do.
pub enum Action {
    /// Send these bytes to the bulk out endpoint, without a packet of length zero after them.
    Send(Vec<u8>),
    /// Fill this buffer from the bulk in endpoint.
    Receive(Vec<u8>),
}

/// An action as a mathematical value.
pub enum Transport {
    Send(Seq<u8>),
    Receive(Seq<u8>),
}

impl View for Action {
    type V = Transport;

    open spec fn view(&self) -> Transport {
        match self {
            Action::Send(bytes) => Transport::Send(bytes@),
            Action::Receive(buffer) => Transport::Receive(buffer@),
        }
    }
}

/// What came of an action.
pub struct Transfer {
    /// Whether the transfer went through.
    pub ok: bool,
    /// After `Action::Receive`, the buffer as the transfer left it, whether or not it went through.
    pub data: Vec<u8>,
}

/// The outcome of a transfer as a mathematical value.
pub struct Outcome {
    pub ok: bool,
    pub data: Seq<u8>,
}

impl View for Transfer {
    type V = Outcome;

    open spec fn view(&self) -> Outcome {
        Outcome { ok: self.ok, data: self.data@ }
    }
}

/// What a command that went through gives back.
#[derive(Clone, Copy, PartialEq, Eq, Structural, Debug)]
pub enum Reply {
    Inquiry(InquiryResponse),
    Capacity(ReadCapacityResponse),
    Status(CommandStatusWrapper),
}

/// A command under way.
pub struct Exchange {
    op: Operation,
    stage: Stage,
    frame: Frame,
    data: Vec<u8>,
}

/// A command under way as a mathematical value.
#[verifier::ext_equal]
pub struct Conversation {
    pub op: Operation,
    pub stage: Stage,
    /// The command frame.
    pub frame: Seq<u8>,
    /// The data to send, or the buffer for the data to receive.
    pub data: Seq<u8>,
}

impl View for Exchange {
    type V = Conversation;

    closed spec fn view(&self) -> Conversation {
        Conversation { op: self.op, stage: self.stage, frame: self.frame@, data: self.data@ }
    }
}

impl Conversation {
    /// A command of which nothing has been transferred.
    pub open spec fn start(op: Operation, frame: Seq<u8>, data: Seq<u8>) -> Conversation {
        Conversation { op, stage: Stage::Command, frame, data }
    }

    /// Whether the stage and the buffer fit the command. A capacity whose status is awaited has
    /// the right block length.
    pub open spec fn wf(self) -> bool {
        &&& self.frame.len() == 31
        &&& match self.op {
            Operation::Inquiry => self.data.len() == INQUIRY_LEN,
            Operation::TestUnitReady => self.data.len() == 0 && self.stage != Stage::Data,
            Operation::ReadCapacity10 => self.data.len() == CAPACITY_LEN && (self.stage
                == Stage::Status ==> be32_at(self.data, 4) == BLOCK_SIZE),
            Operation::Read10 | Operation::Write10 => true,
        }
    }

    /// The transfer under way.
    pub open spec fn pending(self) -> Transport {
        match self.stage {
            Stage::Command => Transport::Send(self.frame),
            Stage::Data => if self.op == Operation::Write10 {
                Transport::Send(self.data)
            } else {
                Transport::Receive(self.data)
            },
            Stage::Status => Transport::Receive(zeros(CSW_LEN as nat)),
        }
    }

    /// Whether `t` can come of the transfer under way: a buffer keeps its length.
    pub open spec fn expects(self, t: Outcome) -> bool {
        self.pending() matches Transport::Receive(buffer) ==> t.data.len() == buffer.len()
    }

    /// The data buffer after the transfer under way: received data replace it, whether or not the
    /// transfer went through.
    pub open spec fn data_after(self, t: Outcome) -> Seq<u8> {
        if self.stage == Stage::Data && self.op != Operation::Write10 {
            t.data
        } else {
            self.data
        }
    }

    /// What the command gives back when its status comes in as `status`.
    pub open spec fn reply(self, status: Seq<u8>) -> Reply {
        match self.op {
            Operation::Inquiry => Reply::Inquiry(InquiryResponse::parsed(self.data)),
            Operation::ReadCapacity10 => Reply::Capacity(ReadCapacityResponse::parsed(self.data)),
            _ => Reply::Status(CommandStatusWrapper::parsed(status)),
        }
    }
}

/// Where a command stands after a transfer.
pub enum Progress {
    /// There is another transfer to make.
    Continue(Exchange),
    /// The command is over. `data` is its buffer.
    Done { reply: Result<Reply, ScsiError>, data: Vec<u8> },
    /// The device broke the protocol.
    Halt(Fault),
}

/// Where a command stands after a transfer, as a mathematical value.
pub enum Step {
    Continue(Conversation),
    Done { reply: Result<Reply, ScsiError>, data: Seq<u8> },
    Halt(Fault),
}

impl View for Progress {
    type V = Step;

    open spec fn view(&self) -> Step {
        match self {
            Progress::Continue(x) => Step::Continue(x@),
            Progress::Done { reply, data } => Step::Done { reply: *reply, data: data@ },
            Progress::Halt(f) => Step::Halt(*f),
        }
    }
}

/// A storage device that takes SCSI commands.
pub struct ScsiHandler {
    msc: MscHandler,
    inquiry: InquiryResponse,
    size: u32,
}

/// What is known of a storage device.
pub struct Device {
    pub msc: MscHandler,
    /// The answer to the last inquiry that went through.
    pub inquiry: InquiryResponse,
    /// The last block address that the device gave.
    pub size: u32,
}

impl View for ScsiHandler {
    type V = Device;

    closed spec fn view(&self) -> Device {
        Device { msc: self.msc, inquiry: self.inquiry, size: self.size }
    }
}

impl Device {
    /// What is known once the command `x` has gone through.
    pub open spec fn learned(self, x: Conversation) -> Device {
        match x.op {
            Operation::Inquiry => Device { inquiry: InquiryResponse::parsed(x.data), ..self },
            Operation::ReadCapacity10 => Device {
                size: ReadCapacityResponse::parsed(x.data).logical_block_address,
                ..self
            },
            _ => self,
        }
    }

    /// What is known, and where the command `x` stands, after its transfer under way has come to
    /// `t`.
    pub open spec fn step(self, x: Conversation, t: Outcome) -> (Device, Step) {
        let data = x.data_after(t);
        if !t.ok {
            (self, Step::Done { reply: Err(ScsiError::UsbError), data })
        } else {
            match x.stage {
                Stage::Command => {
                    let stage = if x.op == Operation::TestUnitReady {
                        Stage::Status
                    } else {
                        Stage::Data
                    };
                    (self, Step::Continue(Conversation { stage, ..x }))
                },
                Stage::Data => if x.op == Operation::ReadCapacity10 && be32_at(data, 4)
                    != BLOCK_SIZE {
                    (self, Step::Halt(Fault::BlockLength))
                } else {
                    (self, Step::Continue(Conversation { stage: Stage::Status, data, ..x }))
                },
                Stage::Status => if !CommandStatusWrapper::signed(t.data) {
                    (self, Step::Halt(Fault::MalformedStatus))
                } else {
                    (self.learned(x), Step::Done { reply: Ok(x.reply(t.data)), data })
                },
            }
        }
    }
}

/// A buffer of `n` zero bytes.
fn zeroed(n: usize) -> (v: Vec<u8>)
    ensures
        v@ == zeros(n as nat),
{
    let mut v: Vec<u8> = Vec::new();
    while v.len() < n
        invariant
            v@.len() <= n,
            v@ == zeros(v@.len()),
        decreases n - v@.len(),
    {
        v.push(0);
    }
    v
}

/// A copy of `bytes`.
fn copied(bytes: &[u8]) -> (v: Vec<u8>)
    ensures
        v@ == bytes@,
{
    let mut v: Vec<u8> = Vec::new();
    v.extend_from_slice(bytes);
    v
}

impl Exchange {
    /// A command under way is well formed.
    #[verifier::type_invariant]
    spec fn fits(self) -> bool {
        self@.wf()
    }

    /// The transfer to make now.
    pub fn action(&self) -> (a: Action)
        ensures
            a@ == self@.pending(),
    {
        match self.stage {
            Stage::Command => Action::Send(copied(self.frame.as_slice())),
            Stage::Data => if self.op == Operation::Write10 {
                Action::Send(copied(&self.data))
            } else {
                Action::Receive(copied(&self.data))
            },
            Stage::Status => Action::Receive(zeroed(CSW_LEN)),
        }
    }
}

impl ScsiHandler {
    /// A storage device of which nothing is known yet.
    pub fn new(msc_handler: MscHandler) -> (h: ScsiHandler)
        ensures
            h@ == (Device { msc: msc_handler, inquiry: InquiryResponse::blank(), size: 0 }),
    {
        ScsiHandler { msc: msc_handler, inquiry: InquiryResponse::default(), size: 0 }
    }

    /// Reads the status of a command from the bytes that came in.
    pub fn get_csw(buffer: &[u8]) -> (r: Result<CommandStatusWrapper, Fault>)
        requires
            buffer@.len() == CSW_LEN,
        ensures
            CommandStatusWrapper::signed(buffer@) ==> r == Ok::<CommandStatusWrapper, Fault>(
                CommandStatusWrapper::parsed(buffer@),
            ),
            !CommandStatusWrapper::signed(buffer@) ==> r == Err::<CommandStatusWrapper, Fault>(
                Fault::MalformedStatus,
            ),
    {
        match CommandStatusWrapper::pull_from_buffer(buffer) {
            Ok(csw) => Ok(csw),
            Err(_) => Err(Fault::MalformedStatus),
        }
    }

    /// Starts an inquiry for 36 bytes.
    pub fn inquiry(&self) -> (x: Exchange)
        ensures
            x@ == Conversation::start(
                Operation::Inquiry,
                (InquiryCommand { allocation_length: 36 }).frame(),
                zeros(36),
            ),
            x@.wf(),
    {
        let mut frame: Frame = [0u8;31];
        let cmd = InquiryCommand { allocation_length: INQUIRY_LEN as u8 };
        let wrapper = cmd.wrapper();
        wrapper.push_to_buffer(&mut frame).expect("CBW buffer must be at least 15 bytes");
        cmd.push_to_buffer(&mut frame).expect("CDB buffer must be large enough for SCSI command");
        assert(frame@ =~= cmd.frame());
        Exchange {
            op: Operation::Inquiry,
            stage: Stage::Command,
            frame,
            data: zeroed(INQUIRY_LEN),
        }
    }

    /// Starts a test whether the device is ready.
    pub fn test_unit_ready(&self) -> (x: Exchange)
        ensures
            x@ == Conversation::start(
                Operation::TestUnitReady,
                (TestUnitReady {  }).frame(),
                Seq::empty(),
            ),
            x@.wf(),
    {
        let mut frame: Frame = [0u8;31];
        let cmd = TestUnitReady {  };
        let wrapper = cmd.wrapper();
        wrapper.push_to_buffer(&mut frame).expect("CBW buffer must be at least 15 bytes");
        cmd.push_to_buffer(&mut frame).expect("CDB buffer must be large enough for SCSI command");
        assert(frame@ =~= cmd.frame());
        Exchange {
            op: Operation::TestUnitReady,
            stage: Stage::Command,
            frame,
            data: Vec::new(),
        }
    }

    /// Starts a question for the capacity of the device.
    pub fn read_capacity_10(&self) -> (x: Exchange)
        ensures
            x@ == Conversation::start(
                Operation::ReadCapacity10,
                (ReadCapacityCommand {  }).frame(),
                zeros(8),
            ),
            x@.wf(),
    {
        let mut frame: Frame = [0u8;31];
        let cmd = ReadCapacityCommand {  };
        let wrapper = cmd.wrapper();
        wrapper.push_to_buffer(&mut frame).expect("CBW buffer must be at least 15 bytes");
        cmd.push_to_buffer(&mut frame).expect("CDB buffer must be large enough for SCSI command");
        assert(frame@ =~= cmd.frame());
        Exchange {
            op: Operation::ReadCapacity10,
            stage: Stage::Command,
            frame,
            data: zeroed(CAPACITY_LEN),
        }
    }

    /// Starts to read `blocks` blocks from `block_address` on into `data`.
    pub fn read_10(&self, data: Vec<u8>, block_address: u32, blocks: u16) -> (x: Exchange)
        requires
            data@.len() >= blocks,
        ensures
            x@ == Conversation::start(
                Operation::Read10,
                (Read10Command {
                    block_address,
                    block_size: 512,
                    transfer_blocks: blocks,
                }).frame(),
                data@,
            ),
            x@.wf(),
    {
        let mut frame: Frame = [0u8;31];
        let cmd = Read10Command {
            block_address,
            block_size: BLOCK_SIZE as u32,
            transfer_blocks: blocks,
        };
        let wrapper = cmd.wrapper();
        wrapper.push_to_buffer(&mut frame).expect("CBW buffer must be at least 15 bytes");
        cmd.push_to_buffer(&mut frame).expect("CDB buffer must be large enough for SCSI command");
        assert(frame@ =~= cmd.frame());
        Exchange { op: Operation::Read10, stage: Stage::Command, frame, data }
    }

    /// Starts to write `data` to `blocks` blocks from `block_address` on. There must be as many
    /// bytes as blocks.
    pub fn write_10(&self, data: Vec<u8>, block_address: u32, blocks: u16) -> (x: Exchange)
        requires
            data@.len() == blocks,
        ensures
            x@ == Conversation::start(
                Operation::Write10,
                (Write10Command {
                    block_address,
                    block_size: 512,
                    transfer_blocks: blocks,
                }).frame(),
                data@,
            ),
            x@.wf(),
    {
        let mut frame: Frame = [0u8;31];
        let cmd = Write10Command {
            block_address,
            block_size: BLOCK_SIZE as u32,
            transfer_blocks: blocks,
        };
        let wrapper = cmd.wrapper();
        wrapper.push_to_buffer(&mut frame).expect("CBW buffer must be at least 15 bytes");
        cmd.push_to_buffer(&mut frame).expect("CDB buffer must be large enough for SCSI command");
        assert(frame@ =~= cmd.frame());
        Exchange { op: Operation::Write10, stage: Stage::Command, frame, data }
    }

    /// Takes a command on after its transfer under way has come to `transfer`.
    pub fn advance(&mut self, exchange: Exchange, transfer: Transfer) -> (p: Progress)
        requires
            exchange@.expects(transfer@),
        ensures
            (final(self)@, p@) == old(self)@.step(exchange@, transfer@),
            p matches Progress::Continue(x) ==> x@.wf(),
    {
        proof {
            use_type_invariant(&exchange);
        }
        let Exchange { op, stage, frame, data } = exchange;
        let received = stage == Stage::Data && op != Operation::Write10;
        if !transfer.ok {
            let data = if received {
                transfer.data
            } else {
                data
            };
            return Progress::Done { reply: Err(ScsiError::UsbError), data };
        }
        match stage {
            Stage::Command => {
                let stage = if op == Operation::TestUnitReady {
                    Stage::Status
                } else {
                    Stage::Data
                };
                Progress::Continue(Exchange { op, stage, frame, data })
            },
            Stage::Data => {
                let data = if received {
                    transfer.data
                } else {
                    data
                };
                if op == Operation::ReadCapacity10 {
                    let capacity = ReadCapacityResponse::pull_from_buffer(&data).expect(
                        "Device returned invalid Capacity data",
                    );
                    if capacity.block_length != BLOCK_SIZE as u32 {
                        return Progress::Halt(Fault::BlockLength);
                    }
                }
                Progress::Continue(Exchange { op, stage: Stage::Status, frame, data })
            },
            Stage::Status => {
                let csw = match ScsiHandler::get_csw(&transfer.data) {
                    Ok(csw) => csw,
                    Err(fault) => {
                        return Progress::Halt(fault);
                    },
                };
                let reply = match op {
                    Operation::Inquiry => {
                        self.inquiry = InquiryResponse::pull_from_buffer(&data).expect(
                            "Device returned invalid Inquiry data",
                        );
                        Reply::Inquiry(self.inquiry)
                    },
                    Operation::ReadCapacity10 => {
                        let capacity = ReadCapacityResponse::pull_from_buffer(&data).expect(
                            "Device returned invalid Capacity data",
                        );
                        self.size = capacity.logical_block_address;
                        Reply::Capacity(capacity)
                    },
                    _ => Reply::Status(csw),
                };
                Progress::Done { reply: Ok(reply), data }
            },
        }
    }

    /// The last block address that the device gave, 0 before it gave one.
    pub fn size(&self) -> (n: u32)
        ensures
            n == self@.size,
    {
        self.size
    }

    /// Starts to bring the device up: an inquiry, a test whether it is ready, and a question for
    /// its capacity.
    pub fn init(&self) -> (i: Init)
        ensures
            i@ == bring_up(Operation::Inquiry),
            i@.wf(),
    {
        Init { exchange: self.inquiry() }
    }

    /// Takes the bringing up on after its transfer under way has come to `transfer`.
    pub fn advance_init(&mut self, init: Init, transfer: Transfer) -> (p: InitProgress)
        requires
            init@.expects(transfer@),
        ensures
            (final(self)@, p@) == old(self)@.init_step(init@, transfer@),
            p matches InitProgress::Continue(i) ==> i@.wf(),
    {
        let op = init.exchange.op;
        match self.advance(init.exchange, transfer) {
            Progress::Continue(exchange) => InitProgress::Continue(Init { exchange }),
            Progress::Halt(fault) => InitProgress::Halt(fault),
            Progress::Done { reply: Err(e), .. } => InitProgress::Done(Err(e)),
            Progress::Done { reply: Ok(_), .. } => match op {
                Operation::Inquiry => InitProgress::Continue(
                    Init { exchange: self.test_unit_ready() },
                ),
                Operation::TestUnitReady => InitProgress::Continue(
                    Init { exchange: self.read_capacity_10() },
                ),
                _ => InitProgress::Done(Ok(())),
            },
        }
    }
}

/// The commands that bring a device up.
pub open spec fn bring_up(op: Operation) -> Conversation {
    match op {
        Operation::Inquiry => Conversation::start(
            op,
            (InquiryCommand { allocation_length: 36 }).frame(),
            zeros(36),
        ),
        Operation::TestUnitReady => Conversation::start(
            op,
            (TestUnitReady {  }).frame(),
            Seq::empty(),
        ),
        _ => Conversation::start(op, (ReadCapacityCommand {  }).frame(), zeros(8)),
    }
}

/// The bringing up of a device, under way.
pub struct Init {
    exchange: Exchange,
}

impl View for Init {
    type V = Conversation;

    closed spec fn view(&self) -> Conversation {
        self.exchange@
    }
}

impl Init {
    /// The transfer to make now.
    pub fn action(&self) -> (a: Action)
        ensures
            a@ == self@.pending(),
    {
        self.exchange.action()
    }
}

/// Where the bringing up of a device stands after a transfer.
pub enum InitProgress {
    /// There is another transfer to make.
    Continue(Init),
    /// It is over.
    Done(Result<(), ScsiError>),
    /// The device broke the protocol.
    Halt(Fault),
}

/// Where the bringing up of a device stands after a transfer, as a mathematical value.
pub enum InitStep {
    Continue(Conversation),
    Done(Result<(), ScsiError>),
    Halt(Fault),
}

impl View for InitProgress {
    type V = InitStep;

    open spec fn view(&self) -> InitStep {
        match self {
            InitProgress::Continue(i) => InitStep::Continue(i@),
            InitProgress::Done(r) => InitStep::Done(*r),
            InitProgress::Halt(f) => InitStep::Halt(*f),
        }
    }
}

impl Device {
    /// What is known, and where the bringing up of the device stands, after the transfer under way
    /// of its command `x` has come to `t`. A command that went through is followed by the next one.
    pub open spec fn init_step(self, x: Conversation, t: Outcome) -> (Device, InitStep) {
        let (next, step) = self.step(x, t);
        match step {
            Step::Continue(y) => (next, InitStep::Continue(y)),
            Step::Halt(f) => (next, InitStep::Halt(f)),
            Step::Done { reply: Err(e), .. } => (next, InitStep::Done(Err(e))),
            Step::Done { reply: Ok(_), .. } => match x.op {
                Operation::Inquiry => (
                    next,
                    InitStep::Continue(bring_up(Operation::TestUnitReady)),
                ),
                Operation::TestUnitReady => (
                    next,
                    InitStep::Continue(bring_up(Operation::ReadCapacity10)),
                ),
                _ => (next, InitStep::Done(Ok(()))),
            },
        }
    }
}

} // verus!
