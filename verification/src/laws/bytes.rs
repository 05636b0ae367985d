//! The bytes of commands, answers and blocks, one by one.

use vstd::prelude::*;

use crate::block::{flat, Block, BlockIdx};
use crate::laws::lemma_digits;
use crate::sdmmc::{announced, reading, writing};
use crate::storage::{bring_up, Conversation, Operation, Stage, Transport};
use crate::wire::{
    zeros, CommandStatusWrapper, InquiryCommand, InquiryResponse, Read10Command,
    ReadCapacityCommand, ReadCapacityResponse, TestUnitReady, Write10Command,
};

verus! {

/// A buffer of zeros has the length that was asked for, and nothing but zeros in it.
pub proof fn law_zeros(n: nat)
    ensures
        zeros(n).len() == n,
        forall|i: int| 0 <= i < n ==> #[trigger] zeros(n)[i] == 0,
{
}

/// The frame of an inquiry, byte for byte.
pub proof fn law_inquiry_bytes(c: InquiryCommand)
    ensures
        c.frame() == seq![
            0x55u8, 0x53, 0x42, 0x43, 0, 0, 0, 0, c.allocation_length, 0, 0, 0, 0x80, 0, 6, 0x12,
            0, 0, 0, c.allocation_length, 0, 0, 0, 0, 0, 0, 0, 0, 0, 0, 0,
        ],
{
    assert(c.frame() =~= seq![
        0x55u8, 0x53, 0x42, 0x43, 0, 0, 0, 0, c.allocation_length, 0, 0, 0, 0x80, 0, 6, 0x12,
        0, 0, 0, c.allocation_length, 0, 0, 0, 0, 0, 0, 0, 0, 0, 0, 0,
    ]);
}

/// The frame of a test whether the device is ready, byte for byte.
pub proof fn law_test_unit_ready_bytes(c: TestUnitReady)
    ensures
        c.frame() == seq![
            0x55u8, 0x53, 0x42, 0x43, 0, 0, 0, 0, 0, 0, 0, 0, 0, 0, 6, 0,
            0, 0, 0, 0, 0, 0, 0, 0, 0, 0, 0, 0, 0, 0, 0,
        ],
{
    assert(c.frame() =~= seq![
        0x55u8, 0x53, 0x42, 0x43, 0, 0, 0, 0, 0, 0, 0, 0, 0, 0, 6, 0,
        0, 0, 0, 0, 0, 0, 0, 0, 0, 0, 0, 0, 0, 0, 0,
    ]);
}

/// The frame of a question for the capacity, byte for byte.
pub proof fn law_read_capacity_bytes(c: ReadCapacityCommand)
    ensures
        c.frame() == seq![
            0x55u8, 0x53, 0x42, 0x43, 0, 0, 0, 0, 8, 0, 0, 0, 0x80, 0, 16, 0x25,
            0, 0, 0, 0, 0, 0, 0, 0, 0, 0, 0, 0, 0, 0, 0,
        ],
{
    assert(c.frame() =~= seq![
        0x55u8, 0x53, 0x42, 0x43, 0, 0, 0, 0, 8, 0, 0, 0, 0x80, 0, 16, 0x25,
        0, 0, 0, 0, 0, 0, 0, 0, 0, 0, 0, 0, 0, 0, 0,
    ]);
}

/// The frame of a read, byte for byte: signature, no tag, the bytes to transfer, the flag of data
/// that come in, no logical unit, ten bytes of command, the opcode, the first block, the number of
/// blocks, and zeros.
pub proof fn law_read_bytes(c: Read10Command)
    requires
        c.transfer_blocks * c.block_size <= u32::MAX,
    ensures
        ({
            let f = c.frame();
            &&& f.len() == 31
            &&& f[0] == 0x55 && f[1] == 0x53 && f[2] == 0x42 && f[3] == 0x43
            &&& f[4] == 0 && f[5] == 0 && f[6] == 0 && f[7] == 0
            &&& f[8] + 0x100 * f[9] + 0x1_0000 * f[10] + 0x100_0000 * f[11] == c.transfer_blocks
                * c.block_size
            &&& f[12] == 0x80 && f[13] == 0 && f[14] == 10 && f[15] == 0x28 && f[16] == 0
            &&& 0x100_0000 * f[17] + 0x1_0000 * f[18] + 0x100 * f[19] + f[20] == c.block_address
            &&& f[21] == 0
            &&& 0x100 * f[22] + f[23] == c.transfer_blocks
            &&& forall|i: int| 24 <= i < 31 ==> #[trigger] f[i] == 0
        }),
{
    lemma_digits((c.transfer_blocks * c.block_size) as u32);
    lemma_digits(c.block_address);
}

/// The frame of a write, byte for byte: as that of a read, but for the flag and the opcode.
pub proof fn law_write_bytes(c: Write10Command)
    requires
        c.transfer_blocks * c.block_size <= u32::MAX,
    ensures
        ({
            let f = c.frame();
            &&& f.len() == 31
            &&& f[0] == 0x55 && f[1] == 0x53 && f[2] == 0x42 && f[3] == 0x43
            &&& f[4] == 0 && f[5] == 0 && f[6] == 0 && f[7] == 0
            &&& f[8] + 0x100 * f[9] + 0x1_0000 * f[10] + 0x100_0000 * f[11] == c.transfer_blocks
                * c.block_size
            &&& f[12] == 0 && f[13] == 0 && f[14] == 10 && f[15] == 0x2a && f[16] == 0
            &&& 0x100_0000 * f[17] + 0x1_0000 * f[18] + 0x100 * f[19] + f[20] == c.block_address
            &&& f[21] == 0
            &&& 0x100 * f[22] + f[23] == c.transfer_blocks
            &&& forall|i: int| 24 <= i < 31 ==> #[trigger] f[i] == 0
        }),
{
    lemma_digits((c.transfer_blocks * c.block_size) as u32);
    lemma_digits(c.block_address);
}

/// A status is taken exactly if it starts with the four letters of its signature. Its tag and its
/// residue stand in the next eight bytes, least significant byte first, and the status after them.
pub proof fn law_status_bytes(b: Seq<u8>)
    ensures
        CommandStatusWrapper::signed(b) <==> b[0] == 0x55 && b[1] == 0x53 && b[2] == 0x42 && b[3]
            == 0x53,
        CommandStatusWrapper::parsed(b).tag == b[4] + 0x100 * b[5] + 0x1_0000 * b[6] + 0x100_0000
            * b[7],
        CommandStatusWrapper::parsed(b).data_residue == b[8] + 0x100 * b[9] + 0x1_0000 * b[10]
            + 0x100_0000 * b[11],
        CommandStatusWrapper::parsed(b).status == b[12],
{
}

/// The answer to an inquiry, from the first four of its bytes.
pub proof fn law_inquiry_answer_bytes(b: Seq<u8>)
    ensures
        InquiryResponse::parsed(b).device_qualifier == b[0] - b[0] % 0x20,
        InquiryResponse::parsed(b).device_type == b[0] % 0x20,
        InquiryResponse::parsed(b).removable_flags == b[1],
        InquiryResponse::parsed(b).spc_version == b[2],
        InquiryResponse::parsed(b).response_format == b[3],
{
    let v = b[0];
    assert(v & 0xe0 == v - v % 0x20 && v & 0x1f == v % 0x20) by (bit_vector);
}

/// Before any inquiry everything is 0.
pub proof fn law_blank_inquiry()
    ensures
        InquiryResponse::blank().device_qualifier == 0,
        InquiryResponse::blank().device_type == 0,
        InquiryResponse::blank().removable_flags == 0,
        InquiryResponse::blank().spc_version == 0,
        InquiryResponse::blank().response_format == 0,
{
}

/// The answer to a question for the capacity: two numbers, most significant byte first.
pub proof fn law_capacity_answer_bytes(b: Seq<u8>)
    ensures
        ReadCapacityResponse::parsed(b).logical_block_address == 0x100_0000 * b[0] + 0x1_0000 * b[1]
            + 0x100 * b[2] + b[3],
        ReadCapacityResponse::parsed(b).block_length == 0x100_0000 * b[4] + 0x1_0000 * b[5] + 0x100
            * b[6] + b[7],
{
}

/// A command starts with the frame and the data that it was given, and its frame goes out first.
pub proof fn law_start_keeps_what_it_was_given(op: Operation, frame: Seq<u8>, data: Seq<u8>)
    ensures
        Conversation::start(op, frame, data).op == op,
        Conversation::start(op, frame, data).stage == Stage::Command,
        Conversation::start(op, frame, data).frame == frame,
        Conversation::start(op, frame, data).data == data,
        Conversation::start(op, frame, data).pending() == Transport::Send(frame),
{
}

/// The three commands that bring a device up: what each sends first, and the buffer of zeros for
/// its answer.
pub proof fn law_bring_up_bytes(op: Operation)
    requires
        op == Operation::Inquiry || op == Operation::TestUnitReady || op
            == Operation::ReadCapacity10,
    ensures
        bring_up(op).op == op,
        bring_up(op).stage == Stage::Command,
        bring_up(op).pending() == Transport::Send(
            if op == Operation::Inquiry {
                seq![
                    0x55u8, 0x53, 0x42, 0x43, 0, 0, 0, 0, 36, 0, 0, 0, 0x80, 0, 6, 0x12,
                    0, 0, 0, 36, 0, 0, 0, 0, 0, 0, 0, 0, 0, 0, 0,
                ]
            } else if op == Operation::TestUnitReady {
                seq![
                    0x55u8, 0x53, 0x42, 0x43, 0, 0, 0, 0, 0, 0, 0, 0, 0, 0, 6, 0,
                    0, 0, 0, 0, 0, 0, 0, 0, 0, 0, 0, 0, 0, 0, 0,
                ]
            } else {
                seq![
                    0x55u8, 0x53, 0x42, 0x43, 0, 0, 0, 0, 8, 0, 0, 0, 0x80, 0, 16, 0x25,
                    0, 0, 0, 0, 0, 0, 0, 0, 0, 0, 0, 0, 0, 0, 0,
                ]
            },
        ),
        bring_up(op).data.len() == (if op == Operation::Inquiry {
            36int
        } else if op == Operation::TestUnitReady {
            0
        } else {
            8
        }),
        forall|i: int| 0 <= i < bring_up(op).data.len() ==> #[trigger] bring_up(op).data[i] == 0,
{
    law_inquiry_bytes(InquiryCommand { allocation_length: 36 });
    law_test_unit_ready_bytes(TestUnitReady {  });
    law_read_capacity_bytes(ReadCapacityCommand {  });
}

/// Byte `j` of block `k` is byte `512 * k + j` of the run of blocks, and the run has no other
/// bytes.
pub proof fn law_bytes_of_blocks(blocks: Seq<Block>, k: int, j: int)
    requires
        0 <= k < blocks.len(),
        0 <= j < 512,
    ensures
        flat(blocks).len() == 512 * blocks.len(),
        flat(blocks)[512 * k + j] == blocks[k].contents@[j],
{
    let i = 512 * k + j;
    assert(i / 512 == k && i % 512 == j);
}

/// Block `k` of a run holds the 512 bytes of the run from `512 * k` on.
pub proof fn law_blocks_of_bytes(blocks: Seq<Block>, bytes: Seq<u8>, k: int)
    requires
        flat(blocks) == bytes,
        0 <= k < blocks.len(),
    ensures
        bytes.len() == 512 * blocks.len(),
        blocks[k].contents@ == bytes.subrange(512 * k, 512 * k + 512),
{
    assert forall|j: int| 0 <= j < 512 implies blocks[k].contents@[j] == bytes.subrange(
        512 * k,
        512 * k + 512,
    )[j] by {
        law_bytes_of_blocks(blocks, k, j);
    }
    law_bytes_of_blocks(blocks, k, 0);
    assert(blocks[k].contents@ =~= bytes.subrange(512 * k, 512 * k + 512));
}

/// The block count that a command announces is the number of blocks less the largest multiple of
/// 65536 in it.
pub proof fn law_announced(n: nat, times: nat)
    requires
        0x1_0000 * times <= n < 0x1_0000 * (times + 1),
    ensures
        announced(n) == n - 0x1_0000 * times,
{
}

/// A read of blocks: the bytes that it sends first, and the buffer that the data come into.
pub proof fn law_read_of_blocks(blocks: Seq<Block>, start: BlockIdx)
    ensures
        ({
            let x = reading(blocks, start);
            let f = x.frame;
            let n = blocks.len() % 0x1_0000;
            &&& x.op == Operation::Read10
            &&& x.stage == Stage::Command
            &&& x.pending() == Transport::Send(f)
            &&& f.len() == 31
            &&& f[0] == 0x55 && f[1] == 0x53 && f[2] == 0x42 && f[3] == 0x43
            &&& f[4] == 0 && f[5] == 0 && f[6] == 0 && f[7] == 0
            &&& f[8] + 0x100 * f[9] + 0x1_0000 * f[10] + 0x100_0000 * f[11] == 512 * n
            &&& f[12] == 0x80 && f[13] == 0 && f[14] == 10 && f[15] == 0x28 && f[16] == 0
            &&& 0x100_0000 * f[17] + 0x1_0000 * f[18] + 0x100 * f[19] + f[20] == start.0
            &&& f[21] == 0
            &&& 0x100 * f[22] + f[23] == n
            &&& forall|i: int| 24 <= i < 31 ==> #[trigger] f[i] == 0
            &&& x.data.len() == 512 * blocks.len()
            &&& forall|k: int, j: int|
                0 <= k < blocks.len() && 0 <= j < 512 ==> x.data[512 * k + j]
                    == #[trigger] blocks[k].contents@[j]
        }),
{
    let c = Read10Command {
        block_address: start.0,
        block_size: 512,
        transfer_blocks: announced(blocks.len()),
    };
    assert(c.transfer_blocks * c.block_size == 512 * c.transfer_blocks) by (nonlinear_arith)
        requires
            c.block_size == 512,
    ;
    law_read_bytes(c);
    let x = reading(blocks, start);
    assert(x.frame == c.frame());
    assert forall|k: int, j: int| 0 <= k < blocks.len() && 0 <= j < 512 implies x.data[512 * k + j]
        == #[trigger] blocks[k].contents@[j] by {
        law_bytes_of_blocks(blocks, k, j);
    }
}

/// A write of blocks: the bytes that it sends first, and the data that follow.
pub proof fn law_write_of_blocks(blocks: Seq<Block>, start: BlockIdx)
    ensures
        ({
            let x = writing(blocks, start);
            let f = x.frame;
            let n = blocks.len() % 0x1_0000;
            &&& x.op == Operation::Write10
            &&& x.stage == Stage::Command
            &&& x.pending() == Transport::Send(f)
            &&& f.len() == 31
            &&& f[0] == 0x55 && f[1] == 0x53 && f[2] == 0x42 && f[3] == 0x43
            &&& f[4] == 0 && f[5] == 0 && f[6] == 0 && f[7] == 0
            &&& f[8] + 0x100 * f[9] + 0x1_0000 * f[10] + 0x100_0000 * f[11] == 512 * n
            &&& f[12] == 0 && f[13] == 0 && f[14] == 10 && f[15] == 0x2a && f[16] == 0
            &&& 0x100_0000 * f[17] + 0x1_0000 * f[18] + 0x100 * f[19] + f[20] == start.0
            &&& f[21] == 0
            &&& 0x100 * f[22] + f[23] == n
            &&& forall|i: int| 24 <= i < 31 ==> #[trigger] f[i] == 0
            &&& x.data.len() == 512 * blocks.len()
            &&& forall|k: int, j: int|
                0 <= k < blocks.len() && 0 <= j < 512 ==> x.data[512 * k + j]
                    == #[trigger] blocks[k].contents@[j]
        }),
{
    let c = Write10Command {
        block_address: start.0,
        block_size: 512,
        transfer_blocks: announced(blocks.len()),
    };
    assert(c.transfer_blocks * c.block_size == 512 * c.transfer_blocks) by (nonlinear_arith)
        requires
            c.block_size == 512,
    ;
    law_write_bytes(c);
    let x = writing(blocks, start);
    assert(x.frame == c.frame());
    assert forall|k: int, j: int| 0 <= k < blocks.len() && 0 <= j < 512 implies x.data[512 * k + j]
        == #[trigger] blocks[k].contents@[j] by {
        law_bytes_of_blocks(blocks, k, j);
    }
}

} // verus!
