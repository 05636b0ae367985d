//! What comes of every transfer of a command.

use vstd::prelude::*;

use crate::block::{flat, Block, BlockIdx};
use crate::fault::Fault;
use crate::laws::bytes::{
    law_blocks_of_bytes, law_bring_up_bytes, law_capacity_answer_bytes, law_inquiry_answer_bytes,
    law_status_bytes,
};
use crate::sdmmc::{reading, Access, AccessStep, Disk};
use crate::storage::{
    bring_up, Action, Conversation, Device, InitProgress, InitStep, Operation, Outcome, Progress,
    Reply, ScsiError, Stage, Step, Transfer, Transport,
};

verus! {

/// The bytes of an action are the bytes that are sent, or the buffer that is filled.
pub proof fn law_action_shows_its_bytes(a: Action)
    ensures
        a matches Action::Send(bytes) ==> a@ == Transport::Send(bytes@),
        a matches Action::Receive(buffer) ==> a@ == Transport::Receive(buffer@),
{
}

/// The outcome of a transfer is whether it went through, and what it left in the buffer.
pub proof fn law_transfer_shows_its_bytes(t: Transfer)
    ensures
        t@.ok == t.ok,
        t@.data == t.data@,
{
}

/// Where a command stands is what the caller is told.
pub proof fn law_progress_shows_all(p: Progress, i: InitProgress)
    ensures
        p matches Progress::Continue(x) ==> p@ == Step::Continue(x@),
        p matches Progress::Done { reply, data } ==> p@ == (Step::Done { reply, data: data@ }),
        p matches Progress::Halt(f) ==> p@ == Step::Halt(f),
        i matches InitProgress::Continue(x) ==> i@ == InitStep::Continue(x@),
        i matches InitProgress::Done(r) ==> i@ == InitStep::Done(r),
        i matches InitProgress::Halt(f) ==> i@ == InitStep::Halt(f),
{
}

/// Where an access to blocks stands is what the caller is told, block for block.
pub proof fn law_access_shows_all(a: Access)
    ensures
        a is Continue <==> a@ is Continue,
        a matches Access::Halt(f) ==> a@ == AccessStep::Halt(f),
        a matches Access::Done { result, blocks } ==> {
            &&& a@ matches AccessStep::Done { result: r, bytes }
            &&& r == result
            &&& bytes.len() == 512 * blocks@.len()
            &&& forall|k: int|
                0 <= k < blocks@.len() ==> (#[trigger] blocks@[k]).contents@ == bytes.subrange(
                    512 * k,
                    512 * k + 512,
                )
        },
{
    if let Access::Done { result, blocks } = a {
        let bytes = flat(blocks@);
        assert forall|k: int| 0 <= k < blocks@.len() implies (#[trigger] blocks@[k]).contents@
            == bytes.subrange(512 * k, 512 * k + 512) by {
            law_blocks_of_bytes(blocks@, bytes, k);
        }
    }
}

/// What each stage of a command transfers: its frame goes out, the data of a write go out and those
/// of any other command come into its buffer, and thirteen bytes of status come in.
pub proof fn law_what_is_transferred(x: Conversation)
    ensures
        x.stage == Stage::Command ==> x.pending() == Transport::Send(x.frame),
        x.stage == Stage::Data && x.op == Operation::Write10 ==> x.pending() == Transport::Send(
            x.data,
        ),
        x.stage == Stage::Data && x.op != Operation::Write10 ==> x.pending() == Transport::Receive(
            x.data,
        ),
        x.stage == Stage::Status ==> (x.pending() matches Transport::Receive(b) && b.len() == 13
            && (forall|i: int| 0 <= i < 13 ==> #[trigger] b[i] == 0)),
{
}

/// A transfer that fails ends the command with `UsbError`. What came in stays in the buffer, and
/// nothing is learned.
pub proof fn law_failed_transfer(d: Device, x: Conversation, t: Outcome)
    requires
        !t.ok,
    ensures
        d.step(x, t).0 == d,
        d.step(x, t).1 == (Step::Done {
            reply: Err::<Reply, ScsiError>(ScsiError::UsbError),
            data: if x.stage == Stage::Data && x.op != Operation::Write10 {
                t.data
            } else {
                x.data
            },
        }),
{
}

/// Once the frame is sent the same command goes on, with its status if it has no data, and with
/// them otherwise.
pub proof fn law_frame_sent(d: Device, x: Conversation, t: Outcome)
    requires
        t.ok,
        x.stage == Stage::Command,
    ensures
        d.step(x, t).0 == d,
        d.step(x, t).1 matches Step::Continue(y) && y.op == x.op && y.frame == x.frame && y.data
            == x.data && y.stage == (if x.op == Operation::TestUnitReady {
            Stage::Status
        } else {
            Stage::Data
        }),
{
}

/// Once the data are through the same command goes on with its status, and the data of any command
/// but a write are those that came in. Only a capacity with blocks that are not of 512 bytes stops
/// it.
pub proof fn law_data_moved(d: Device, x: Conversation, t: Outcome)
    requires
        t.ok,
        x.stage == Stage::Data,
    ensures
        d.step(x, t).0 == d,
        ({
            let data = if x.op == Operation::Write10 {
                x.data
            } else {
                t.data
            };
            if x.op == Operation::ReadCapacity10 && 0x100_0000 * data[4] + 0x1_0000 * data[5]
                + 0x100 * data[6] + data[7] != 512 {
                d.step(x, t).1 == Step::Halt(Fault::BlockLength)
            } else {
                d.step(x, t).1 matches Step::Continue(y) && y.op == x.op && y.frame == x.frame
                    && y.data == data && y.stage == Stage::Status
            }
        }),
{
}

/// A status without its signature stops the driver, and nothing is learned.
pub proof fn law_unsigned_status(d: Device, x: Conversation, t: Outcome)
    requires
        t.ok,
        x.stage == Stage::Status,
        !(t.data[0] == 0x55 && t.data[1] == 0x53 && t.data[2] == 0x42 && t.data[3] == 0x53),
    ensures
        d.step(x, t).0 == d,
        d.step(x, t).1 == Step::Halt(Fault::MalformedStatus),
{
    law_status_bytes(t.data);
}

/// The signed status of an inquiry: the reply is what the first four bytes of the data say, it is
/// what is known of the device from then on, and nothing else changes.
pub proof fn law_inquiry_goes_through(d: Device, x: Conversation, t: Outcome)
    requires
        t.ok,
        x.stage == Stage::Status,
        x.op == Operation::Inquiry,
        t.data[0] == 0x55 && t.data[1] == 0x53 && t.data[2] == 0x42 && t.data[3] == 0x53,
    ensures
        ({
            let (next, step) = d.step(x, t);
            let i = next.inquiry;
            &&& step == (Step::Done { reply: Ok(Reply::Inquiry(i)), data: x.data })
            &&& i.device_qualifier == x.data[0] - x.data[0] % 0x20
            &&& i.device_type == x.data[0] % 0x20
            &&& i.removable_flags == x.data[1]
            &&& i.spc_version == x.data[2]
            &&& i.response_format == x.data[3]
            &&& next.msc == d.msc
            &&& next.size == d.size
        }),
{
    law_status_bytes(t.data);
    law_inquiry_answer_bytes(x.data);
}

/// The signed status of a question for the capacity: the reply holds the two numbers of the data,
/// the first of them is the size that is known of the device from then on, and nothing else
/// changes.
pub proof fn law_capacity_goes_through(d: Device, x: Conversation, t: Outcome)
    requires
        t.ok,
        x.stage == Stage::Status,
        x.op == Operation::ReadCapacity10,
        t.data[0] == 0x55 && t.data[1] == 0x53 && t.data[2] == 0x42 && t.data[3] == 0x53,
    ensures
        ({
            let (next, step) = d.step(x, t);
            &&& step matches Step::Done { reply: Ok(Reply::Capacity(c)), data }
            &&& data == x.data
            &&& c.logical_block_address == 0x100_0000 * x.data[0] + 0x1_0000 * x.data[1] + 0x100
                * x.data[2] + x.data[3]
            &&& c.block_length == 0x100_0000 * x.data[4] + 0x1_0000 * x.data[5] + 0x100 * x.data[6]
                + x.data[7]
            &&& next.size == c.logical_block_address
            &&& next.msc == d.msc
            &&& next.inquiry == d.inquiry
        }),
{
    law_status_bytes(t.data);
    law_capacity_answer_bytes(x.data);
}

/// The signed status of any other command: the reply is that status, and nothing is learned.
pub proof fn law_command_goes_through(d: Device, x: Conversation, t: Outcome)
    requires
        t.ok,
        x.stage == Stage::Status,
        x.op != Operation::Inquiry,
        x.op != Operation::ReadCapacity10,
        t.data[0] == 0x55 && t.data[1] == 0x53 && t.data[2] == 0x42 && t.data[3] == 0x53,
    ensures
        d.step(x, t).0 == d,
        ({
            let step = d.step(x, t).1;
            &&& step matches Step::Done { reply: Ok(Reply::Status(s)), data }
            &&& data == x.data
            &&& s.tag == t.data[4] + 0x100 * t.data[5] + 0x1_0000 * t.data[6] + 0x100_0000
                * t.data[7]
            &&& s.data_residue == t.data[8] + 0x100 * t.data[9] + 0x1_0000 * t.data[10]
                + 0x100_0000 * t.data[11]
            &&& s.status == t.data[12]
        }),
{
    law_status_bytes(t.data);
}

/// While a command of bringing a device up is not over, bringing it up is where that command is: it
/// goes on, fails and stops with it, and what is known is what the command leaves.
pub proof fn law_init_follows_its_command(d: Device, x: Conversation, t: Outcome)
    ensures
        d.init_step(x, t).0 == d.step(x, t).0,
        d.step(x, t).1 matches Step::Continue(y) ==> d.init_step(x, t).1 == InitStep::Continue(y),
        d.step(x, t).1 matches Step::Halt(f) ==> d.init_step(x, t).1 == InitStep::Halt(f),
        d.step(x, t).1 matches Step::Done { reply, .. } ==> (reply matches Err(e) ==> d.init_step(
            x,
            t,
        ).1 == InitStep::Done(Err(e))),
{
}

/// Each command of bringing a device up is followed by the next once it has gone through: the
/// inquiry by the test whether the device is ready, and that by the question for the capacity. With
/// the answer to that the device is up.
pub proof fn law_init_goes_on_to_the_next(d: Device, x: Conversation, t: Outcome)
    requires
        d.step(x, t).1 matches Step::Done { reply: Ok(_), .. },
    ensures
        x.op == Operation::Inquiry ==> (d.init_step(x, t).1 matches InitStep::Continue(y) && y.op
            == Operation::TestUnitReady && y.stage == Stage::Command && y.data.len() == 0 && y.frame
            == seq![
            0x55u8, 0x53, 0x42, 0x43, 0, 0, 0, 0, 0, 0, 0, 0, 0, 0, 6, 0,
            0, 0, 0, 0, 0, 0, 0, 0, 0, 0, 0, 0, 0, 0, 0,
        ]),
        x.op == Operation::TestUnitReady ==> (d.init_step(x, t).1 matches InitStep::Continue(y)
            && y.op == Operation::ReadCapacity10 && y.stage == Stage::Command && y.data == seq![
            0u8, 0, 0, 0, 0, 0, 0, 0,
        ] && y.frame == seq![
            0x55u8, 0x53, 0x42, 0x43, 0, 0, 0, 0, 8, 0, 0, 0, 0x80, 0, 16, 0x25,
            0, 0, 0, 0, 0, 0, 0, 0, 0, 0, 0, 0, 0, 0, 0,
        ]),
        x.op == Operation::ReadCapacity10 ==> d.init_step(x, t).1 == InitStep::Done(
            Ok::<(), ScsiError>(()),
        ),
{
    law_bring_up_bytes(Operation::TestUnitReady);
    law_bring_up_bytes(Operation::ReadCapacity10);
    assert(bring_up(Operation::ReadCapacity10).data =~= seq![0u8, 0, 0, 0, 0, 0, 0, 0]);
}

/// An access that has begun is in flight, one that is given up is not, and the device stays as it
/// was.
pub proof fn law_begun_and_idle(d: Disk, x: Conversation)
    ensures
        d.begun(x).device == d.device,
        d.begun(x).in_flight == Some(x),
        d.idle().device == d.device,
        d.idle().in_flight == None::<Conversation>,
{
}

/// What comes of a transfer of an access to blocks. A failure ends it with `UsbError`; then the
/// frame is followed by the data, the data by the status, and a signed status ends the access with
/// success. Data that come in become the bytes of the blocks, and the device stays as it was.
pub proof fn law_access_transfers(d: Disk, x: Conversation, t: Outcome)
    requires
        d.in_flight == Some(x),
        x.op == Operation::Read10 || x.op == Operation::Write10,
    ensures
        ({
            let (next, step) = d.step(t);
            let data = if x.stage == Stage::Data && x.op == Operation::Read10 {
                t.data
            } else {
                x.data
            };
            &&& next.device == d.device
            &&& !t.ok ==> next.in_flight is None && step == (AccessStep::Done {
                result: Err::<(), ScsiError>(ScsiError::UsbError),
                bytes: data,
            })
            &&& t.ok && x.stage != Stage::Status ==> {
                &&& step == AccessStep::Continue
                &&& next.in_flight matches Some(y)
                &&& y.op == x.op
                &&& y.frame == x.frame
                &&& y.data == data
                &&& y.stage == (if x.stage == Stage::Command {
                    Stage::Data
                } else {
                    Stage::Status
                })
            }
            &&& t.ok && x.stage == Stage::Status ==> {
                &&& next.in_flight is None
                &&& step == (if t.data[0] == 0x55 && t.data[1] == 0x53 && t.data[2] == 0x42
                    && t.data[3] == 0x53 {
                    AccessStep::Done { result: Ok::<(), ScsiError>(()), bytes: x.data }
                } else {
                    AccessStep::Halt(Fault::MalformedStatus)
                })
            }
        }),
{
    law_status_bytes(t.data);
}

/// A read whose data come in gives them back block for block: block `k` of the result holds the 512
/// bytes from `512 * k` on, as they came in.
pub proof fn law_read_fills_the_blocks(
    d: Disk,
    blocks: Seq<Block>,
    start: BlockIdx,
    command: Outcome,
    data: Outcome,
    status: Outcome,
    end: Access,
)
    requires
        command.ok,
        data.ok,
        data.data.len() == 512 * blocks.len(),
        status.ok ==> status.data[0] == 0x55 && status.data[1] == 0x53 && status.data[2] == 0x42
            && status.data[3] == 0x53,
        end@ == d.begun(reading(blocks, start)).step(command).0.step(data).0.step(status).1,
    ensures
        end matches Access::Done { result, blocks: read } && {
            &&& result is Ok <==> status.ok
            &&& read@.len() == blocks.len()
            &&& forall|k: int|
                0 <= k < blocks.len() ==> (#[trigger] read@[k]).contents@ == data.data.subrange(
                    512 * k,
                    512 * k + 512,
                )
        },
{
    let d0 = d.begun(reading(blocks, start));
    let d1 = d0.step(command).0;
    let d2 = d1.step(data).0;
    law_access_transfers(d0, reading(blocks, start), command);
    law_access_transfers(d1, d1.in_flight->Some_0, data);
    law_access_transfers(d2, d2.in_flight->Some_0, status);
    law_access_shows_all(end);
}

} // verus!
