//! The SCSI structures that travel over the two bulk endpoints.
//!
//! The `scsi` crate lays the structures out in bytes and reads them back. The types here hold
//! their fields as plain values, and the methods that hand them to that crate state the layout.

use scsi::ScsiError as CodecError;
use vstd::prelude::*;

verus! {

/// A command as it is sent: a command block wrapper of 15 bytes, then the command block, then
/// zeros.
pub type Frame = [u8; 31];

/// Length in bytes of a command status wrapper.
pub const CSW_LEN: usize = 13;

/// The number whose four bytes stand at `at`, least significant first.
pub open spec fn le32_at(s: Seq<u8>, at: int) -> int {
    s[at] + 0x100 * s[at + 1] + 0x1_0000 * s[at + 2] + 0x100_0000 * s[at + 3]
}

/// The number whose four bytes stand at `at`, most significant first.
pub open spec fn be32_at(s: Seq<u8>, at: int) -> int {
    0x100_0000 * s[at] + 0x1_0000 * s[at + 1] + 0x100 * s[at + 2] + s[at + 3]
}

/// The number whose two bytes stand at `at`, most significant first.
pub open spec fn be16_at(s: Seq<u8>, at: int) -> int {
    0x100 * s[at] + s[at + 1]
}

/// The four bytes of `v`, least significant first.
pub open spec fn le32(v: u32) -> Seq<u8> {
    seq![
        (v % 0x100) as u8,
        (v / 0x100 % 0x100) as u8,
        (v / 0x1_0000 % 0x100) as u8,
        (v / 0x100_0000) as u8,
    ]
}

/// The four bytes of `v`, most significant first.
pub open spec fn be32(v: u32) -> Seq<u8> {
    seq![
        (v / 0x100_0000) as u8,
        (v / 0x1_0000 % 0x100) as u8,
        (v / 0x100 % 0x100) as u8,
        (v % 0x100) as u8,
    ]
}

/// The two bytes of `v`, most significant first.
pub open spec fn be16(v: u16) -> Seq<u8> {
    seq![(v / 0x100) as u8, (v % 0x100) as u8]
}

/// `n` zero bytes.
pub open spec fn zeros(n: nat) -> Seq<u8> {
    Seq::new(n, |i: int| 0u8)
}

/// The error type of the `scsi` crate. Nothing here looks inside it.
#[verifier::external_type_specification]
#[verifier::external_body]
pub struct ExCodecError(CodecError);

/// Which way the data of a command flows.
#[derive(Clone, Copy, PartialEq, Eq, Structural, Debug)]
pub enum Direction {
    /// From the device to the host.
    IN,
    /// From the host to the device.
    OUT,
    /// The command has no data stage.
    NONE,
}

/// The fields that precede every command.
#[derive(Clone, Copy, PartialEq, Eq, Structural, Debug)]
pub struct CommandBlockWrapper {
    pub tag: u32,
    pub data_transfer_length: u32,
    pub flags: u8,
    pub lun: u8,
    pub cb_length: u8,
    pub direction: Direction,
}

/// The wrapper of a command that moves `length` bytes in direction `direction` and whose command
/// block claims `cb_length` bytes: tag 0, logical unit 0, and the top flag bit for data that
/// flows in.
pub open spec fn wrapper_for(
    length: int,
    direction: Direction,
    cb_length: u8,
) -> CommandBlockWrapper {
    CommandBlockWrapper {
        tag: 0,
        data_transfer_length: length as u32,
        flags: if direction == Direction::IN {
            0x80
        } else {
            0
        },
        lun: 0,
        cb_length,
        direction,
    }
}

impl CommandBlockWrapper {
    /// The wrapper in bytes: the signature `USBC`, tag and transfer length, each four bytes with
    /// the least significant first, then flags, logical unit and command block length.
    pub open spec fn bytes(self) -> Seq<u8> {
        le32(0x4342_5355) + le32(self.tag) + le32(self.data_transfer_length) + seq![
            self.flags,
            self.lun,
            self.cb_length,
        ]
    }

    /// Calls `push_to_buffer` of the `scsi` crate's `CommandBlockWrapper`, which writes the 15
    /// bytes of the wrapper at the start of the buffer, leaves the rest and returns 15.
    #[verifier::external_body]
    pub(crate) fn push_to_buffer(&self, buffer: &mut Frame) -> (r: Result<usize, CodecError>)
        ensures
            r is Ok,
            r->Ok_0 == 15,
            final(buffer)@ == self.bytes() + old(buffer)@.skip(15),
    {
        let w = scsi::scsi::commands::CommandBlockWrapper {
            tag: self.tag,
            data_transfer_length: self.data_transfer_length,
            flags: self.flags,
            lun: self.lun,
            cb_length: self.cb_length,
            direction: match self.direction {
                Direction::IN => scsi::scsi::commands::Direction::IN,
                Direction::OUT => scsi::scsi::commands::Direction::OUT,
                Direction::NONE => scsi::scsi::commands::Direction::NONE,
            },
        };
        scsi::BufferPushable::push_to_buffer(&w, buffer)
    }
}

/// A whole frame: a wrapper, the command block after it, and zeros up to 31 bytes.
pub open spec fn frame_of(w: CommandBlockWrapper, command_block: Seq<u8>) -> Seq<u8> {
    w.bytes() + command_block + zeros((16 - command_block.len()) as nat)
}

/// Asks the device what it is.
#[derive(Clone, Copy, PartialEq, Eq, Structural, Debug)]
pub struct InquiryCommand {
    /// How many bytes the device may answer with.
    pub allocation_length: u8,
}

impl InquiryCommand {
    pub open spec fn block_wrapper(self) -> CommandBlockWrapper {
        wrapper_for(self.allocation_length as int, Direction::IN, 6)
    }

    pub open spec fn command_block(self) -> Seq<u8> {
        seq![0x12u8, 0, 0, 0, self.allocation_length]
    }

    pub open spec fn frame(self) -> Seq<u8> {
        frame_of(self.block_wrapper(), self.command_block())
    }

    /// Calls `Command::wrapper` of the `scsi` crate's `InquiryCommand`: the wrapper of a command
    /// that reads `allocation_length` bytes, with a command block length of 6.
    #[verifier::external_body]
    pub(crate) fn wrapper(&self) -> (w: CommandBlockWrapper)
        ensures
            w == self.block_wrapper(),
    {
        let cmd = scsi::scsi::commands::InquiryCommand::new(self.allocation_length);
        let w = scsi::scsi::commands::Command::wrapper(&cmd);
        CommandBlockWrapper {
            tag: w.tag,
            data_transfer_length: w.data_transfer_length,
            flags: w.flags,
            lun: w.lun,
            cb_length: w.cb_length,
            direction: match w.direction {
                scsi::scsi::commands::Direction::IN => Direction::IN,
                scsi::scsi::commands::Direction::OUT => Direction::OUT,
                scsi::scsi::commands::Direction::NONE => Direction::NONE,
            },
        }
    }

    /// Calls `push_to_buffer` of the `scsi` crate's `InquiryCommand`, which writes the wrapper and
    /// then the opcode 0x12, three zeros and the allocation length, leaves the rest of the buffer
    /// and returns 20.
    #[verifier::external_body]
    pub(crate) fn push_to_buffer(&self, buffer: &mut Frame) -> (r: Result<usize, CodecError>)
        ensures
            r is Ok,
            r->Ok_0 == 20,
            final(buffer)@ == self.block_wrapper().bytes() + self.command_block() + old(
                buffer,
            )@.skip(20),
    {
        let cmd = scsi::scsi::commands::InquiryCommand::new(self.allocation_length);
        scsi::BufferPushable::push_to_buffer(&cmd, buffer)
    }
}

/// Asks the device whether it is ready.
#[derive(Clone, Copy, PartialEq, Eq, Structural, Debug)]
pub struct TestUnitReady {}

impl TestUnitReady {
    pub open spec fn block_wrapper(self) -> CommandBlockWrapper {
        wrapper_for(0, Direction::NONE, 6)
    }

    pub open spec fn command_block(self) -> Seq<u8> {
        seq![0u8]
    }

    pub open spec fn frame(self) -> Seq<u8> {
        frame_of(self.block_wrapper(), self.command_block())
    }

    /// Calls `Command::wrapper` of the `scsi` crate's `TestUnitReady`: the wrapper of a command
    /// without data, with a command block length of 6.
    #[verifier::external_body]
    pub(crate) fn wrapper(&self) -> (w: CommandBlockWrapper)
        ensures
            w == self.block_wrapper(),
    {
        let w = scsi::scsi::commands::Command::wrapper(&scsi::scsi::commands::TestUnitReady::new());
        CommandBlockWrapper {
            tag: w.tag,
            data_transfer_length: w.data_transfer_length,
            flags: w.flags,
            lun: w.lun,
            cb_length: w.cb_length,
            direction: match w.direction {
                scsi::scsi::commands::Direction::IN => Direction::IN,
                scsi::scsi::commands::Direction::OUT => Direction::OUT,
                scsi::scsi::commands::Direction::NONE => Direction::NONE,
            },
        }
    }

    /// Calls `push_to_buffer` of the `scsi` crate's `TestUnitReady`, which writes the wrapper and
    /// then the opcode 0, leaves the rest of the buffer and returns 16.
    #[verifier::external_body]
    pub(crate) fn push_to_buffer(&self, buffer: &mut Frame) -> (r: Result<usize, CodecError>)
        ensures
            r is Ok,
            r->Ok_0 == 16,
            final(buffer)@ == self.block_wrapper().bytes() + self.command_block() + old(
                buffer,
            )@.skip(16),
    {
        scsi::BufferPushable::push_to_buffer(&scsi::scsi::commands::TestUnitReady::new(), buffer)
    }
}

/// Asks the device for its last block address and its block length.
#[derive(Clone, Copy, PartialEq, Eq, Structural, Debug)]
pub struct ReadCapacityCommand {}

impl ReadCapacityCommand {
    pub open spec fn block_wrapper(self) -> CommandBlockWrapper {
        wrapper_for(8, Direction::IN, 16)
    }

    pub open spec fn command_block(self) -> Seq<u8> {
        seq![0x25u8]
    }

    pub open spec fn frame(self) -> Seq<u8> {
        frame_of(self.block_wrapper(), self.command_block())
    }

    /// Calls `Command::wrapper` of the `scsi` crate's `ReadCapacityCommand`: the wrapper of a
    /// command that reads 8 bytes, with a command block length of 16.
    #[verifier::external_body]
    pub(crate) fn wrapper(&self) -> (w: CommandBlockWrapper)
        ensures
            w == self.block_wrapper(),
    {
        let cmd = scsi::scsi::commands::ReadCapacityCommand::new();
        let w = scsi::scsi::commands::Command::wrapper(&cmd);
        CommandBlockWrapper {
            tag: w.tag,
            data_transfer_length: w.data_transfer_length,
            flags: w.flags,
            lun: w.lun,
            cb_length: w.cb_length,
            direction: match w.direction {
                scsi::scsi::commands::Direction::IN => Direction::IN,
                scsi::scsi::commands::Direction::OUT => Direction::OUT,
                scsi::scsi::commands::Direction::NONE => Direction::NONE,
            },
        }
    }

    /// Calls `push_to_buffer` of the `scsi` crate's `ReadCapacityCommand`, which writes the wrapper
    /// and then the opcode 0x25, leaves the rest of the buffer and returns 16.
    #[verifier::external_body]
    pub(crate) fn push_to_buffer(&self, buffer: &mut Frame) -> (r: Result<usize, CodecError>)
        ensures
            r is Ok,
            r->Ok_0 == 16,
            final(buffer)@ == self.block_wrapper().bytes() + self.command_block() + old(
                buffer,
            )@.skip(16),
    {
        let cmd = scsi::scsi::commands::ReadCapacityCommand::new();
        scsi::BufferPushable::push_to_buffer(&cmd, buffer)
    }
}

/// Reads whole blocks from the device.
#[derive(Clone, Copy, PartialEq, Eq, Structural, Debug)]
pub struct Read10Command {
    /// The first block.
    pub block_address: u32,
    /// Bytes in a block.
    pub block_size: u32,
    /// How many blocks.
    pub transfer_blocks: u16,
}

impl Read10Command {
    pub open spec fn block_wrapper(self) -> CommandBlockWrapper {
        wrapper_for(self.transfer_blocks * self.block_size, Direction::IN, 10)
    }

    pub open spec fn command_block(self) -> Seq<u8> {
        seq![0x28u8, 0] + be32(self.block_address) + seq![0u8] + be16(self.transfer_blocks)
            + seq![0u8]
    }

    pub open spec fn frame(self) -> Seq<u8> {
        frame_of(self.block_wrapper(), self.command_block())
    }

    /// Calls `Command::wrapper` of the `scsi` crate's `Read10Command`: the wrapper of a command
    /// that reads `transfer_blocks * block_size` bytes, with a command block length of 10. The
    /// product is a `u32` there.
    #[verifier::external_body]
    pub(crate) fn wrapper(&self) -> (w: CommandBlockWrapper)
        requires
            self.transfer_blocks * self.block_size <= u32::MAX,
        ensures
            w == self.block_wrapper(),
    {
        let (block_address, block_size) = (self.block_address, self.block_size);
        let transfer_blocks = self.transfer_blocks;
        let w = scsi::scsi::commands::Command::wrapper(
            &scsi::scsi::commands::Read10Command { block_address, block_size, transfer_blocks });
        let direction = match w.direction {
            scsi::scsi::commands::Direction::IN => Direction::IN,
            scsi::scsi::commands::Direction::OUT => Direction::OUT,
            scsi::scsi::commands::Direction::NONE => Direction::NONE,
        };
        let (tag, data_transfer_length, flags) = (w.tag, w.data_transfer_length, w.flags);
        let (lun, cb_length) = (w.lun, w.cb_length);
        CommandBlockWrapper { tag, data_transfer_length, flags, lun, cb_length, direction }
    }

    /// Calls `push_to_buffer` of the `scsi` crate's `Read10Command`, which writes the wrapper and
    /// then the opcode 0x28, a zero, the block address, a zero, the block count and a zero, both
    /// numbers with the most significant byte first. It leaves the rest of the buffer and returns
    /// 25.
    #[verifier::external_body]
    pub(crate) fn push_to_buffer(&self, buffer: &mut Frame) -> (r: Result<usize, CodecError>)
        requires
            self.transfer_blocks * self.block_size <= u32::MAX,
        ensures
            r is Ok,
            r->Ok_0 == 25,
            final(buffer)@ == self.block_wrapper().bytes() + self.command_block() + old(
                buffer,
            )@.skip(25),
    {
        let cmd = scsi::scsi::commands::Read10Command {
            block_address: self.block_address,
            block_size: self.block_size,
            transfer_blocks: self.transfer_blocks,
        };
        scsi::BufferPushable::push_to_buffer(&cmd, buffer)
    }
}

/// Writes whole blocks to the device.
#[derive(Clone, Copy, PartialEq, Eq, Structural, Debug)]
pub struct Write10Command {
    /// The first block.
    pub block_address: u32,
    /// Bytes in a block.
    pub block_size: u32,
    /// How many blocks.
    pub transfer_blocks: u16,
}

impl Write10Command {
    pub open spec fn block_wrapper(self) -> CommandBlockWrapper {
        wrapper_for(self.transfer_blocks * self.block_size, Direction::OUT, 10)
    }

    pub open spec fn command_block(self) -> Seq<u8> {
        seq![0x2au8, 0] + be32(self.block_address) + seq![0u8] + be16(self.transfer_blocks)
            + seq![0u8]
    }

    pub open spec fn frame(self) -> Seq<u8> {
        frame_of(self.block_wrapper(), self.command_block())
    }

    /// Calls `Command::wrapper` of the `scsi` crate's `Write10Command`: the wrapper of a command
    /// that writes `transfer_blocks * block_size` bytes, with a command block length of 10. The
    /// product is a `u32` there.
    #[verifier::external_body]
    pub(crate) fn wrapper(&self) -> (w: CommandBlockWrapper)
        requires
            self.transfer_blocks * self.block_size <= u32::MAX,
        ensures
            w == self.block_wrapper(),
    {
        let (block_address, block_size) = (self.block_address, self.block_size);
        let transfer_blocks = self.transfer_blocks;
        let w = scsi::scsi::commands::Command::wrapper(
            &scsi::scsi::commands::Write10Command { block_address, block_size, transfer_blocks });
        let direction = match w.direction {
            scsi::scsi::commands::Direction::IN => Direction::IN,
            scsi::scsi::commands::Direction::OUT => Direction::OUT,
            scsi::scsi::commands::Direction::NONE => Direction::NONE,
        };
        let (tag, data_transfer_length, flags) = (w.tag, w.data_transfer_length, w.flags);
        let (lun, cb_length) = (w.lun, w.cb_length);
        CommandBlockWrapper { tag, data_transfer_length, flags, lun, cb_length, direction }
    }

    /// Calls `push_to_buffer` of the `scsi` crate's `Write10Command`, which writes the wrapper and
    /// then the opcode 0x2a, a zero, the block address, a zero, the block count and a zero, both
    /// numbers with the most significant byte first. It leaves the rest of the buffer and returns
    /// 25.
    #[verifier::external_body]
    pub(crate) fn push_to_buffer(&self, buffer: &mut Frame) -> (r: Result<usize, CodecError>)
        requires
            self.transfer_blocks * self.block_size <= u32::MAX,
        ensures
            r is Ok,
            r->Ok_0 == 25,
            final(buffer)@ == self.block_wrapper().bytes() + self.command_block() + old(
                buffer,
            )@.skip(25),
    {
        let cmd = scsi::scsi::commands::Write10Command {
            block_address: self.block_address,
            block_size: self.block_size,
            transfer_blocks: self.transfer_blocks,
        };
        scsi::BufferPushable::push_to_buffer(&cmd, buffer)
    }
}

/// What the device reports at the end of every command.
#[derive(Clone, Copy, PartialEq, Eq, Structural, Debug)]
pub struct CommandStatusWrapper {
    pub tag: u32,
    pub data_residue: u32,
    pub status: u8,
}

impl CommandStatusWrapper {
    /// Whether `bytes` start with the signature `USBS`.
    pub open spec fn signed(bytes: Seq<u8>) -> bool {
        le32_at(bytes, 0) == 0x5342_5355
    }

    /// The fields as they stand in `bytes`.
    pub open spec fn parsed(bytes: Seq<u8>) -> CommandStatusWrapper {
        CommandStatusWrapper {
            tag: le32_at(bytes, 4) as u32,
            data_residue: le32_at(bytes, 8) as u32,
            status: bytes[12],
        }
    }

    /// Calls `pull_from_buffer` of the `scsi` crate's `CommandStatusWrapper`, which fails exactly
    /// where the signature is wrong, and otherwise reads tag and residue, least significant byte
    /// first, and the status byte. It panics on fewer than 13 bytes.
    #[verifier::external_body]
    pub(crate) fn pull_from_buffer(buffer: &[u8]) -> (r: Result<
        CommandStatusWrapper,
        CodecError,
    >)
        requires
            buffer@.len() >= 13,
        ensures
            r is Ok <==> CommandStatusWrapper::signed(buffer@),
            r is Ok ==> r->Ok_0 == CommandStatusWrapper::parsed(buffer@),
    {
        let w: scsi::scsi::commands::CommandStatusWrapper = scsi::BufferPullable::pull_from_buffer(
            buffer,
        )?;
        Ok(
            CommandStatusWrapper { tag: w.tag, data_residue: w.data_residue, status: w.status },
        )
    }
}

/// What the device answers to an inquiry.
#[derive(Clone, Copy, PartialEq, Eq, Structural, Debug)]
pub struct InquiryResponse {
    pub device_qualifier: u8,
    pub device_type: u8,
    pub removable_flags: u8,
    pub spc_version: u8,
    pub response_format: u8,
}

impl InquiryResponse {
    /// The fields as they stand in `bytes`: the first byte holds the qualifier in its upper three
    /// bits and the device type in its lower five.
    pub open spec fn parsed(bytes: Seq<u8>) -> InquiryResponse {
        InquiryResponse {
            device_qualifier: bytes[0] & 0xe0,
            device_type: bytes[0] & 0x1f,
            removable_flags: bytes[1],
            spc_version: bytes[2],
            response_format: bytes[3],
        }
    }

    /// The response before any inquiry.
    pub open spec fn blank() -> InquiryResponse {
        InquiryResponse {
            device_qualifier: 0,
            device_type: 0,
            removable_flags: 0,
            spc_version: 0,
            response_format: 0,
        }
    }

    /// Calls `default` of the `scsi` crate's `InquiryResponse`, whose derived implementation sets
    /// every field to 0.
    #[verifier::external_body]
    fn derived_default() -> (r: InquiryResponse)
        ensures
            r == InquiryResponse::blank(),
    {
        let i = scsi::scsi::commands::InquiryResponse::default();
        InquiryResponse {
            device_qualifier: i.device_qualifier,
            device_type: i.device_type,
            removable_flags: i.removable_flags,
            spc_version: i.spc_version,
            response_format: i.response_format,
        }
    }

    /// Calls `pull_from_buffer` of the `scsi` crate's `InquiryResponse`, which reads the first four
    /// bytes and always succeeds. It panics on fewer than 4 bytes.
    #[verifier::external_body]
    pub(crate) fn pull_from_buffer(buffer: &[u8]) -> (r: Result<InquiryResponse, CodecError>)
        requires
            buffer@.len() >= 4,
        ensures
            r is Ok,
            r->Ok_0 == InquiryResponse::parsed(buffer@),
    {
        let i: scsi::scsi::commands::InquiryResponse = scsi::BufferPullable::pull_from_buffer(
            buffer,
        )?;
        Ok(
            InquiryResponse {
                device_qualifier: i.device_qualifier,
                device_type: i.device_type,
                removable_flags: i.removable_flags,
                spc_version: i.spc_version,
                response_format: i.response_format,
            },
        )
    }
}

impl Default for InquiryResponse {
    fn default() -> (r: InquiryResponse)
        ensures
            r == InquiryResponse::blank(),
    {
        InquiryResponse::derived_default()
    }
}

/// What the device answers when asked for its capacity.
#[derive(Clone, Copy, PartialEq, Eq, Structural, Debug)]
pub struct ReadCapacityResponse {
    /// The address of the last block.
    pub logical_block_address: u32,
    /// Bytes in a block.
    pub block_length: u32,
}

impl ReadCapacityResponse {
    /// The fields as they stand in `bytes`.
    pub open spec fn parsed(bytes: Seq<u8>) -> ReadCapacityResponse {
        ReadCapacityResponse {
            logical_block_address: be32_at(bytes, 0) as u32,
            block_length: be32_at(bytes, 4) as u32,
        }
    }

    /// Calls `pull_from_buffer` of the `scsi` crate's `ReadCapacityResponse`, which reads two
    /// numbers of four bytes, most significant byte first, and always succeeds. It panics on fewer
    /// than 8 bytes.
    #[verifier::external_body]
    pub(crate) fn pull_from_buffer(buffer: &[u8]) -> (r: Result<
        ReadCapacityResponse,
        CodecError,
    >)
        requires
            buffer@.len() >= 8,
        ensures
            r is Ok,
            r->Ok_0 == ReadCapacityResponse::parsed(buffer@),
    {
        let c: scsi::scsi::commands::ReadCapacityResponse = scsi::BufferPullable::pull_from_buffer(
            buffer,
        )?;
        Ok(
            ReadCapacityResponse {
                logical_block_address: c.logical_block_address,
                block_length: c.block_length,
            },
        )
    }
}

} // verus!
