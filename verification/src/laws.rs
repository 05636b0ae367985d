//! What holds of the library as a whole.

pub mod bytes;
pub mod commands;
pub mod descriptors;
pub mod registration;

use vstd::prelude::*;

use crate::block::{flat, Block, BlockIdx, BLOCK_SIZE};
use crate::descriptor::{
    endpoint_fields, endpoints_from, endpoints_in, interface_at, interfaces_from, interfaces_in,
    next_interface, walk_ends, EndpointDirection, EndpointInfo, EndpointType,
};
use crate::fault::Fault;
use crate::msc::{
    endpoint_search, first_bulk, first_storage, is_bulk, is_storage, lemma_first_bulk,
    lemma_first_storage, selection, Channel, EnumerationInfo, MscHandler, RegisterAction,
    RegisterError, RegisterEvent, RegisterProgress, RegisterStage, Registration, Selection,
};
use crate::sdmmc::{announced, on_blocks, reading, AccessStep, Disk};
use crate::storage::{
    bring_up, Conversation, Device, InitStep, Operation, Outcome, Reply, ScsiError, Stage, Step,
    Transport,
};
use crate::wire::{
    be16, be16_at, be32, be32_at, le32, le32_at, zeros, CommandStatusWrapper, InquiryCommand,
    InquiryResponse, Read10Command, ReadCapacityCommand, ReadCapacityResponse, TestUnitReady,
    Write10Command, CSW_LEN,
};

verus! {

/// What is known, and where the command `x` stands, after the transfers `ts`, as many of them as
/// the command takes.
pub open spec fn run(d: Device, x: Conversation, ts: Seq<Outcome>) -> (Device, Step)
    decreases ts.len(),
{
    if ts.len() == 0 {
        (d, Step::Continue(x))
    } else {
        let (next, step) = d.step(x, ts[0]);
        match step {
            Step::Continue(y) => run(next, y, ts.skip(1)),
            _ => (next, step),
        }
    }
}

/// What is known, and where the bringing up of a device stands, after the transfers `ts`, as many
/// of them as it takes.
pub open spec fn run_init(d: Device, x: Conversation, ts: Seq<Outcome>) -> (Device, InitStep)
    decreases ts.len(),
{
    if ts.len() == 0 {
        (d, InitStep::Continue(x))
    } else {
        let (next, step) = d.init_step(x, ts[0]);
        match step {
            InitStep::Continue(y) => run_init(next, y, ts.skip(1)),
            _ => (next, step),
        }
    }
}

/// Where a registration stands after the events `es`, as many of them as it takes.
pub open spec fn run_register<E>(r: Registration, es: Seq<RegisterEvent<E>>) -> RegisterProgress<E>
    decreases es.len(),
{
    if es.len() == 0 {
        RegisterProgress::Continue(r)
    } else {
        match r.after(es[0]) {
            RegisterProgress::Continue(next) => run_register(next, es.skip(1)),
            p => p,
        }
    }
}

/// How many transfers a command takes.
pub open spec fn transfers(op: Operation) -> nat {
    if op == Operation::TestUnitReady {
        2
    } else {
        3
    }
}

/// A command that is not over after the first `k` transfers goes on from there.
proof fn lemma_run_resumes(d: Device, x: Conversation, ts: Seq<Outcome>, k: int)
    requires
        0 <= k <= ts.len(),
        run(d, x, ts.take(k)).1 is Continue,
    ensures
        ({
            let (n, step) = run(d, x, ts.take(k));
            run(d, x, ts) == run(n, step->Continue_0, ts.skip(k))
        }),
    decreases k,
{
    if k == 0 {
        assert(ts.skip(0) =~= ts);
    } else {
        assert(ts.take(k)[0] == ts[0]);
        assert(ts.take(k).skip(1) =~= ts.skip(1).take(k - 1));
        assert(ts.skip(1).skip(k - 1) =~= ts.skip(k));
        let (n, step) = d.step(x, ts[0]);
        lemma_run_resumes(n, step->Continue_0, ts.skip(1), k - 1);
    }
}

/// Nothing is learned while a command is not over.
proof fn lemma_run_learns_at_end(d: Device, x: Conversation, ts: Seq<Outcome>)
    requires
        run(d, x, ts).1 is Continue,
    ensures
        run(d, x, ts).0 == d,
    decreases ts.len(),
{
    if ts.len() > 0 {
        let (n, step) = d.step(x, ts[0]);
        lemma_run_learns_at_end(n, step->Continue_0, ts.skip(1));
    }
}

/// The transfers of bringing a device up, one more at a time.
proof fn lemma_run_init_extends(d: Device, x: Conversation, ts: Seq<Outcome>, k: int)
    requires
        0 <= k < ts.len(),
        run_init(d, x, ts.take(k)).1 is Continue,
    ensures
        ({
            let (n, step) = run_init(d, x, ts.take(k));
            run_init(d, x, ts.take(k + 1)) == n.init_step(step->Continue_0, ts[k])
        }),
    decreases k,
{
    let more = ts.take(k + 1);
    assert(more[0] == ts[0]);
    if k == 0 {
        assert(more.skip(1).len() == 0);
        reveal_with_fuel(run_init, 2);
    } else {
        assert(ts.take(k)[0] == ts[0]);
        assert(ts.take(k).skip(1) =~= ts.skip(1).take(k - 1));
        assert(more.skip(1) =~= ts.skip(1).take(k));
        let (n, step) = d.init_step(x, ts[0]);
        lemma_run_init_extends(n, step->Continue_0, ts.skip(1), k - 1);
    }
}

/// What comes after the end of bringing a device up is not looked at.
proof fn lemma_run_init_stops(d: Device, x: Conversation, ts: Seq<Outcome>, k: int)
    requires
        0 <= k <= ts.len(),
        !(run_init(d, x, ts.take(k)).1 is Continue),
    ensures
        run_init(d, x, ts) == run_init(d, x, ts.take(k)),
    decreases k,
{
    assert(ts.take(k)[0] == ts[0]);
    assert(ts.take(k).skip(1) =~= ts.skip(1).take(k - 1));
    let (n, step) = d.init_step(x, ts[0]);
    if step is Continue {
        lemma_run_init_stops(n, step->Continue_0, ts.skip(1), k - 1);
    }
}

/// A command keeps its frame and its kind, stays well formed, and moves on by one stage.
pub proof fn law_step_keeps_form(d: Device, x: Conversation, t: Outcome)
    requires
        x.wf(),
        x.expects(t),
    ensures
        d.step(x, t).1 matches Step::Continue(y) ==> {
            &&& y.wf()
            &&& y.op == x.op
            &&& y.frame == x.frame
            &&& y.data.len() == x.data.len()
            &&& x.stage == Stage::Command ==> y.stage == (if x.op == Operation::TestUnitReady {
                Stage::Status
            } else {
                Stage::Data
            })
            &&& x.stage == Stage::Data ==> y.stage == Stage::Status
            &&& x.stage != Stage::Status
        },
{
}

/// The transfers of a command, in order: its frame goes out, its data follow, in or out, where it
/// has any, and its status comes in.
pub proof fn law_exchange_order(d: Device, x: Conversation, t: Outcome)
    requires
        t.ok,
    ensures
        x.stage == Stage::Command ==> x.pending() == Transport::Send(x.frame),
        x.stage == Stage::Command ==> (d.step(x, t).1 matches Step::Continue(y) && y.pending() == (
        if x.op == Operation::TestUnitReady {
            Transport::Receive(zeros(CSW_LEN as nat))
        } else if x.op == Operation::Write10 {
            Transport::Send(x.data)
        } else {
            Transport::Receive(x.data)
        })),
        x.stage == Stage::Data ==> (d.step(x, t).1 matches Step::Continue(y) ==> y.pending()
            == Transport::Receive(zeros(CSW_LEN as nat))),
        x.stage == Stage::Status ==> !(d.step(x, t).1 is Continue),
{
}

/// A command is over after three transfers at most, and after two if it has no data.
pub proof fn law_exchange_is_short(d: Device, x: Conversation, ts: Seq<Outcome>)
    requires
        x.stage == Stage::Command,
        ts.len() >= transfers(x.op),
    ensures
        !(run(d, x, ts).1 is Continue),
{
    reveal_with_fuel(run, 4);
}

/// The first transfer that fails ends a command with `UsbError`, and nothing is learned from it.
pub proof fn law_first_failure_ends(d: Device, x: Conversation, ts: Seq<Outcome>, k: int)
    requires
        x.stage == Stage::Command,
        0 <= k < transfers(x.op),
        k < ts.len(),
        !ts[k].ok,
        run(d, x, ts.take(k)).1 is Continue,
    ensures
        run(d, x, ts).0 == d,
        run(d, x, ts).1 matches Step::Done { reply, .. } && reply == Err::<Reply, ScsiError>(
            ScsiError::UsbError,
        ),
{
    let (n, step) = run(d, x, ts.take(k));
    lemma_run_resumes(d, x, ts, k);
    lemma_run_learns_at_end(d, x, ts.take(k));
    assert(ts.skip(k)[0] == ts[k]);
    assert(n == d);
}

/// A command whose transfers all go through, with data that it accepts and a signed status, gives
/// back the reply to those data, and what it teaches is learned.
pub proof fn law_success(d: Device, x: Conversation, ts: Seq<Outcome>)
    requires
        x.wf(),
        x.stage == Stage::Command,
        ts.len() == transfers(x.op),
        forall|i: int| 0 <= i < ts.len() ==> (#[trigger] ts[i]).ok,
        CommandStatusWrapper::signed(ts.last().data),
        x.op == Operation::ReadCapacity10 ==> be32_at(ts[1].data, 4) == BLOCK_SIZE,
    ensures
        ({
            let data = if x.op == Operation::TestUnitReady || x.op == Operation::Write10 {
                x.data
            } else {
                ts[1].data
            };
            let y = Conversation { data, ..x };
            run(d, x, ts) == (
                d.learned(y),
                Step::Done { reply: Ok(y.reply(ts.last().data)), data },
            )
        }),
{
    reveal_with_fuel(run, 4);
    assert(ts.skip(1)[0] == ts[1]);
    assert(ts.last() == ts[ts.len() - 1]);
    if x.op != Operation::TestUnitReady {
        assert(ts.skip(1).skip(1)[0] == ts[2]);
    }
}

/// A status without its signature stops the driver, whatever the command.
pub proof fn law_unsigned_status_stops(d: Device, x: Conversation, t: Outcome)
    requires
        x.stage == Stage::Status,
        t.ok,
        !CommandStatusWrapper::signed(t.data),
    ensures
        d.step(x, t) == (d, Step::Halt(Fault::MalformedStatus)),
{
}

/// A device with blocks of another length is never taken: nothing is learned of its capacity, and
/// its status is not even asked for.
pub proof fn law_other_block_length_stops(d: Device, x: Conversation, t: Outcome)
    requires
        x.op == Operation::ReadCapacity10,
        x.stage == Stage::Data,
        t.ok,
        be32_at(t.data, 4) != BLOCK_SIZE,
    ensures
        d.step(x, t) == (d, Step::Halt(Fault::BlockLength)),
{
}

/// Only the signed status of an inquiry changes what is known of the device's kind, only that of a
/// capacity command changes its size, and nothing changes its channels.
pub proof fn law_what_is_learned(d: Device, x: Conversation, t: Outcome)
    ensures
        d.step(x, t).0.msc == d.msc,
        d.step(x, t).0.inquiry != d.inquiry ==> x.op == Operation::Inquiry,
        d.step(x, t).0.size != d.size ==> x.op == Operation::ReadCapacity10,
        d.step(x, t).0 != d ==> {
            &&& x.stage == Stage::Status
            &&& t.ok
            &&& CommandStatusWrapper::signed(t.data)
        },
{
}

/// The eight transfers of bringing a device up, in order: each goes out or comes in on its own
/// endpoint, with these bytes or into a buffer of zeros.
pub open spec fn init_transport(k: int) -> Transport {
    if k == 0 {
        Transport::Send((InquiryCommand { allocation_length: 36 }).frame())
    } else if k == 1 {
        Transport::Receive(zeros(36))
    } else if k == 3 {
        Transport::Send((TestUnitReady {  }).frame())
    } else if k == 5 {
        Transport::Send((ReadCapacityCommand {  }).frame())
    } else if k == 6 {
        Transport::Receive(zeros(8))
    } else {
        Transport::Receive(zeros(CSW_LEN as nat))
    }
}

/// Whether the first `n` of the transfers `ts` let bringing a device up go on: they went through,
/// the statuses among them are signed, and the block length is right.
pub open spec fn init_good(ts: Seq<Outcome>, n: int) -> bool {
    &&& forall|i: int| 0 <= i < n ==> (#[trigger] ts[i]).ok
    &&& n > 2 ==> CommandStatusWrapper::signed(ts[2].data)
    &&& n > 4 ==> CommandStatusWrapper::signed(ts[4].data)
    &&& n > 6 ==> be32_at(ts[6].data, 4) == BLOCK_SIZE
    &&& n > 7 ==> CommandStatusWrapper::signed(ts[7].data)
}

/// What is known after the first `n` transfers of bringing a device up.
pub open spec fn init_known(d: Device, ts: Seq<Outcome>, n: int) -> Device {
    Device {
        msc: d.msc,
        inquiry: if n > 2 {
            InquiryResponse::parsed(ts[1].data)
        } else {
            d.inquiry
        },
        size: if n > 7 {
            ReadCapacityResponse::parsed(ts[6].data).logical_block_address
        } else {
            d.size
        },
    }
}

/// The command under way after the first `n` transfers of bringing a device up.
pub open spec fn init_at(ts: Seq<Outcome>, n: int) -> Conversation {
    if n == 0 {
        bring_up(Operation::Inquiry)
    } else if n == 1 {
        Conversation { stage: Stage::Data, ..bring_up(Operation::Inquiry) }
    } else if n == 2 {
        Conversation { stage: Stage::Status, data: ts[1].data, ..bring_up(Operation::Inquiry) }
    } else if n == 3 {
        bring_up(Operation::TestUnitReady)
    } else if n == 4 {
        Conversation { stage: Stage::Status, ..bring_up(Operation::TestUnitReady) }
    } else if n == 5 {
        bring_up(Operation::ReadCapacity10)
    } else if n == 6 {
        Conversation { stage: Stage::Data, ..bring_up(Operation::ReadCapacity10) }
    } else {
        Conversation {
            stage: Stage::Status,
            data: ts[6].data,
            ..bring_up(Operation::ReadCapacity10)
        }
    }
}

/// Where bringing a device up stands after `n` good transfers.
proof fn lemma_init_prefix(d: Device, ts: Seq<Outcome>, n: int)
    requires
        0 <= n <= 7,
        n <= ts.len(),
        init_good(ts, n),
    ensures
        run_init(d, bring_up(Operation::Inquiry), ts.take(n)) == (
            init_known(d, ts, n),
            InitStep::Continue(init_at(ts, n)),
        ),
    decreases n,
{
    if n > 0 {
        assert(ts[n - 1].ok);
        lemma_init_prefix(d, ts, n - 1);
        lemma_run_init_extends(d, bring_up(Operation::Inquiry), ts, n - 1);
    }
}

/// As long as the transfers are good, bringing a device up goes through its eight transfers in
/// their order, and what each command teaches is known once its status is in.
pub proof fn law_init_order(d: Device, ts: Seq<Outcome>)
    requires
        ts.len() <= 7,
        init_good(ts, ts.len() as int),
    ensures
        run_init(d, bring_up(Operation::Inquiry), ts).0 == init_known(d, ts, ts.len() as int),
        run_init(d, bring_up(Operation::Inquiry), ts).1 matches InitStep::Continue(x) && x.pending()
            == init_transport(ts.len() as int),
{
    let n = ts.len() as int;
    assert(ts.take(n) =~= ts);
    lemma_init_prefix(d, ts, n);
}

/// Bringing a device up succeeds exactly where eight transfers go through, the three statuses are
/// signed, and the device has blocks of the right length. Then its inquiry data and its last block
/// address are those that it gave.
pub proof fn law_init_succeeds(d: Device, ts: Seq<Outcome>)
    ensures
        run_init(d, bring_up(Operation::Inquiry), ts).1 == InitStep::Done(Ok(())) <==> ts.len()
            >= 8 && init_good(ts, 8),
        ts.len() >= 8 && init_good(ts, 8) ==> run_init(
            d,
            bring_up(Operation::Inquiry),
            ts,
        ).0 == (Device {
            msc: d.msc,
            inquiry: InquiryResponse::parsed(ts[1].data),
            size: ReadCapacityResponse::parsed(ts[6].data).logical_block_address,
        }),
{
    lemma_init_outcome(d, ts, 0);
}

/// Bringing a device up fails with `UsbError` exactly where a transfer fails that it comes to. What
/// the commands before taught stays known.
pub proof fn law_init_fails(d: Device, ts: Seq<Outcome>)
    ensures
        run_init(d, bring_up(Operation::Inquiry), ts).1 == InitStep::Done(Err(ScsiError::UsbError))
            <==> exists|k: int|
            0 <= k < 8 && k < ts.len() && !(#[trigger] ts[k]).ok && init_good(ts, k),
        forall|k: int|
            0 <= k < 8 && k < ts.len() && !(#[trigger] ts[k]).ok && init_good(ts, k) ==> run_init(
                d,
                bring_up(Operation::Inquiry),
                ts,
            ).0 == init_known(d, ts, k),
{
    lemma_init_outcome(d, ts, 0);
    assert forall|k: int|
        0 <= k < 8 && k < ts.len() && !(#[trigger] ts[k]).ok && init_good(ts, k) implies run_init(
        d,
        bring_up(Operation::Inquiry),
        ts,
    ) == (init_known(d, ts, k), InitStep::Done(Err(ScsiError::UsbError))) by {
        lemma_init_prefix(d, ts, k);
        lemma_run_init_extends(d, bring_up(Operation::Inquiry), ts, k);
        lemma_run_init_stops(d, bring_up(Operation::Inquiry), ts, k + 1);
    }
}

/// What bringing a device up comes to, when the first `n` transfers are good.
proof fn lemma_init_outcome(d: Device, ts: Seq<Outcome>, n: int)
    requires
        0 <= n <= 7,
        n <= ts.len(),
        init_good(ts, n),
    ensures
        ({
            let (known, step) = run_init(d, bring_up(Operation::Inquiry), ts);
            if ts.len() >= 8 && init_good(ts, 8) {
                known == init_known(d, ts, 8) && step == InitStep::Done(Ok(()))
            } else {
                ||| step is Continue
                ||| step is Halt
                ||| exists|k: int|
                    0 <= k < 8 && k < ts.len() && !(#[trigger] ts[k]).ok && init_good(ts, k) && (
                    known,
                    step,
                ) == (init_known(d, ts, k), InitStep::Done(Err(ScsiError::UsbError)))
            }
        }),
    decreases 8 - n,
{
    let start = bring_up(Operation::Inquiry);
    lemma_init_prefix(d, ts, n);
    if n == ts.len() {
        assert(ts.take(n) =~= ts);
    } else {
        lemma_run_init_extends(d, start, ts, n);
        if init_good(ts, n + 1) {
            if n < 7 {
                lemma_init_outcome(d, ts, n + 1);
            } else {
                lemma_run_init_stops(d, start, ts, 8);
            }
        } else {
            lemma_run_init_stops(d, start, ts, n + 1);
            assert(!(ts.len() >= 8 && init_good(ts, 8)));
            if ts[n].ok {
                assert(run_init(d, start, ts).1 is Halt);
            }
        }
    }
}

/// Bringing a device up stops where a transfer that it comes to goes through and brings a status
/// without its signature, or a block length that is not the right one.
pub proof fn law_init_stops(d: Device, ts: Seq<Outcome>, k: int)
    requires
        0 <= k < 8,
        k < ts.len(),
        init_good(ts, k),
        ts[k].ok,
        !init_good(ts, k + 1),
    ensures
        run_init(d, bring_up(Operation::Inquiry), ts) == (
            init_known(d, ts, k),
            InitStep::Halt(
                if k == 6 {
                    Fault::BlockLength
                } else {
                    Fault::MalformedStatus
                },
            ),
        ),
{
    lemma_init_prefix(d, ts, k);
    lemma_run_init_extends(d, bring_up(Operation::Inquiry), ts, k);
    lemma_run_init_stops(d, bring_up(Operation::Inquiry), ts, k + 1);
}

/// The bytes of a number read back as that number.
pub proof fn law_numbers_read_back(v: u32, w: u16, rest: Seq<u8>)
    ensures
        le32_at(le32(v) + rest, 0) == v,
        be32_at(be32(v) + rest, 0) == v,
        be16_at(be16(w) + rest, 0) == w,
{
    lemma_digits(v);
}

/// The digits of a number in base 256.
proof fn lemma_digits(v: u32)
    ensures
        v == v % 0x100 + 0x100 * (v / 0x100 % 0x100) + 0x1_0000 * (v / 0x1_0000 % 0x100)
            + 0x100_0000 * (v / 0x100_0000),
        v / 0x100_0000 < 0x100,
{
    assert(v == v % 0x100 + 0x100 * (v / 0x100 % 0x100) + 0x1_0000 * (v / 0x1_0000 % 0x100)
        + 0x100_0000 * (v / 0x100_0000) && v / 0x100_0000 < 0x100) by (bit_vector);
}

/// Every frame has 31 bytes and starts with the signature of a command block wrapper and tag 0.
pub proof fn law_frames_are_framed(
    i: InquiryCommand,
    t: TestUnitReady,
    c: ReadCapacityCommand,
    r: Read10Command,
    w: Write10Command,
)
    ensures
        forall|f: Seq<u8>|
            f == i.frame() || f == t.frame() || f == c.frame() || f == r.frame() || f == w.frame()
                ==> {
                &&& #[trigger] f.len() == 31
                &&& le32_at(f, 0) == 0x4342_5355
                &&& le32_at(f, 4) == 0
            },
{
    lemma_digits(0x4342_5355);
    lemma_digits(0);
}

/// The frame of a read tells what to read: the bytes to transfer, the first block and the number of
/// blocks.
pub proof fn law_read_frame(c: Read10Command)
    requires
        c.transfer_blocks * c.block_size <= u32::MAX,
    ensures
        le32_at(c.frame(), 8) == c.transfer_blocks * c.block_size,
        c.frame()[12] == 0x80,
        c.frame()[15] == 0x28,
        be32_at(c.frame(), 17) == c.block_address,
        be16_at(c.frame(), 22) == c.transfer_blocks,
{
    lemma_digits((c.transfer_blocks * c.block_size) as u32);
    lemma_digits(c.block_address);
}

/// The frame of a write tells what to write: the bytes to transfer, the first block and the number
/// of blocks.
pub proof fn law_write_frame(c: Write10Command)
    requires
        c.transfer_blocks * c.block_size <= u32::MAX,
    ensures
        le32_at(c.frame(), 8) == c.transfer_blocks * c.block_size,
        c.frame()[12] == 0,
        c.frame()[15] == 0x2a,
        be32_at(c.frame(), 17) == c.block_address,
        be16_at(c.frame(), 22) == c.transfer_blocks,
{
    lemma_digits((c.transfer_blocks * c.block_size) as u32);
    lemma_digits(c.block_address);
}

/// Two reads of blocks have the same frame only if they read the same blocks.
pub proof fn law_read_frames_differ(a: Read10Command, b: Read10Command)
    requires
        a.block_size == b.block_size,
        a.frame() == b.frame(),
    ensures
        a == b,
{
    lemma_digits(a.block_address);
    lemma_digits(b.block_address);
    assert(be32_at(a.frame(), 17) == a.block_address);
    assert(be32_at(b.frame(), 17) == b.block_address);
    assert(be16_at(a.frame(), 22) == a.transfer_blocks);
    assert(be16_at(b.frame(), 22) == b.transfer_blocks);
}

/// The two parts of the first byte of an inquiry answer make up that byte.
pub proof fn law_inquiry_first_byte(bytes: Seq<u8>)
    ensures
        InquiryResponse::parsed(bytes).device_qualifier | InquiryResponse::parsed(
            bytes,
        ).device_type == bytes[0],
{
    let b = bytes[0];
    assert((b & 0xe0) | (b & 0x1f) == b) by (bit_vector);
}

/// Runs of blocks with the same bytes are the same run.
pub proof fn law_bytes_determine_blocks(a: Seq<Block>, b: Seq<Block>)
    requires
        flat(a) == flat(b),
    ensures
        a.len() == b.len(),
        forall|k: int| 0 <= k < a.len() ==> (#[trigger] a[k]).contents@ == b[k].contents@,
{
    assert(flat(a).len() == 512 * a.len());
    assert(flat(b).len() == 512 * b.len());
    assert forall|k: int| 0 <= k < a.len() implies (#[trigger] a[k]).contents@
        == b[k].contents@ by {
        assert forall|j: int| 0 <= j < 512 implies a[k].contents@[j] == b[k].contents@[j] by {
            let i = 512 * k + j;
            assert(i / 512 == k && i % 512 == j);
            assert(flat(a)[i] == a[k].contents@[j]);
            assert(flat(b)[i] == b[k].contents@[j]);
        }
        assert(a[k].contents@ =~= b[k].contents@);
    }
}

/// A read of fewer than 65536 blocks announces as many bytes as its buffer has.
pub proof fn law_read_announces_its_buffer(blocks: Seq<Block>, start: BlockIdx)
    requires
        blocks.len() < 0x1_0000,
    ensures
        le32_at(reading(blocks, start).frame, 8) == flat(blocks).len(),
        be32_at(reading(blocks, start).frame, 17) == start.0,
        be16_at(reading(blocks, start).frame, 22) == blocks.len(),
{
    law_read_frame(
        Read10Command {
            block_address: start.0,
            block_size: 512,
            transfer_blocks: announced(blocks.len()),
        },
    );
}

/// A run of blocks has as many bytes as its command announces blocks only if it is empty, so no
/// write of blocks goes ahead.
pub proof fn law_only_empty_writes_go_ahead(blocks: Seq<Block>)
    ensures
        flat(blocks).len() == announced(blocks.len()) <==> blocks.len() == 0,
{
}

/// A read of blocks sends its frame, takes the data into a buffer with the bytes of the blocks, and
/// takes a status. Once the data came in it gives them back, whether or not the status comes in,
/// and it succeeds exactly if that does. It is in flight all the while, and not after that.
pub proof fn law_read_gives_back_data(
    d: Disk,
    blocks: Seq<Block>,
    start: BlockIdx,
    command: Outcome,
    data: Outcome,
    status: Outcome,
)
    requires
        d.in_flight is None,
        command.ok,
        data.ok,
        status.ok ==> CommandStatusWrapper::signed(status.data),
    ensures
        ({
            let x = reading(blocks, start);
            let y = Conversation { stage: Stage::Data, ..x };
            let z = Conversation { stage: Stage::Status, data: data.data, ..x };
            &&& x.pending() == Transport::Send(x.frame)
            &&& d.begun(x).step(command) == (d.begun(y), AccessStep::Continue)
            &&& y.pending() == Transport::Receive(flat(blocks))
            &&& d.begun(y).step(data) == (d.begun(z), AccessStep::Continue)
            &&& z.pending() == Transport::Receive(zeros(CSW_LEN as nat))
            &&& d.begun(z).step(status) == (
                d,
                AccessStep::Done {
                    result: if status.ok {
                        Ok(())
                    } else {
                        Err(ScsiError::UsbError)
                    },
                    bytes: data.data,
                },
            )
        }),
{
}

/// An access to blocks of which a transfer fails is over with `UsbError`, and another one can
/// begin. The blocks hold what came in, if the transfer that failed was that of the data, and else
/// what they held before it.
pub proof fn law_access_failure(d: Disk, x: Conversation, t: Outcome)
    requires
        !t.ok,
    ensures
        d.begun(x).step(t) == (
            d.idle(),
            AccessStep::Done {
                result: Err(ScsiError::UsbError),
                bytes: if x.pending() is Receive && x.stage == Stage::Data {
                    t.data
                } else {
                    x.data
                },
            },
        ),
{
}

/// An access to blocks never changes what is known of the device.
pub proof fn law_access_teaches_nothing(d: Disk, x: Conversation, t: Outcome)
    requires
        on_blocks(x),
    ensures
        d.begun(x).step(t).0.device == d.device,
{
}

/// The disk after the transfers `ts` of its access in flight, as many of them as the access takes.
pub open spec fn run_access(d: Disk, ts: Seq<Outcome>) -> Disk
    decreases ts.len(),
{
    if ts.len() == 0 || d.in_flight is None {
        d
    } else {
        run_access(d.step(ts[0]).0, ts.skip(1))
    }
}

/// An access to blocks that has begun has the disk to itself until it is over: whatever comes of
/// its transfers, what is in flight is that access and no other, at the stage that its transfers
/// have brought it to. It is over after three transfers at most.
pub proof fn law_one_access_at_a_time(d: Disk, x: Conversation, ts: Seq<Outcome>)
    requires
        on_blocks(x),
        x.stage == Stage::Command,
    ensures
        run_access(d.begun(x), ts).in_flight matches Some(y) ==> {
            &&& y.op == x.op
            &&& y.frame == x.frame
            &&& ts.len() == 0 ==> y == x
            &&& ts.len() == 1 ==> y == (Conversation { stage: Stage::Data, ..x })
            &&& ts.len() == 2 ==> y.stage == Stage::Status
            &&& ts.len() < 3
        },
{
    reveal_with_fuel(run_access, 4);
}

/// A transfer leaves an access to blocks in flight exactly if there is another transfer to make.
pub proof fn law_in_flight_until_over(d: Disk, t: Outcome)
    requires
        d.in_flight is Some,
    ensures
        d.step(t).0.in_flight is Some <==> d.step(t).1 is Continue,
{
}

/// The endpoints that a device is used through are bulk endpoints, one that brings data and another
/// one that takes them.
pub proof fn law_selected_endpoints(buffer: Seq<u8>)
    ensures
        selection(buffer) matches Selection::Endpoints { bulk_in, bulk_out } ==> {
            &&& bulk_in.ep_type == EndpointType::Bulk
            &&& bulk_out.ep_type == EndpointType::Bulk
            &&& bulk_in.addr & 0x80 != 0
            &&& bulk_out.addr & 0x80 == 0
            &&& bulk_in.addr != bulk_out.addr
        },
{
    let interfaces = interfaces_in(buffer);
    let i = interfaces[first_storage(interfaces) as int];
    let endpoints = endpoints_in(i.num_endpoints, i.buffer);
    lemma_first_bulk(endpoints, EndpointDirection::In);
    lemma_first_bulk(endpoints, EndpointDirection::Out);
}

/// The endpoints that a device is used through belong to one mass storage interface, the first, and
/// each is the first bulk endpoint of its direction there.
pub proof fn law_selection_takes_the_first(buffer: Seq<u8>)
    ensures
        selection(buffer) is Endpoints ==> {
            let interfaces = interfaces_in(buffer);
            let k = first_storage(interfaces) as int;
            &&& k < interfaces.len()
            &&& is_storage(interfaces[k])
            &&& forall|j: int| 0 <= j < k ==> !is_storage(#[trigger] interfaces[j])
            &&& endpoint_search(interfaces[k], EndpointDirection::In) is Found
            &&& endpoint_search(interfaces[k], EndpointDirection::Out) is Found
        },
{
    lemma_first_storage(interfaces_in(buffer));
}

/// A device that offers one mass storage interface and no more than a bulk endpoint of each
/// direction, in either order, is used through those two.
pub proof fn law_plain_device_is_selected(buffer: Seq<u8>, in_at: int, out_at: int)
    requires
        buffer.len() == 23,
        buffer[0] == 9 && buffer[1] == 4 && buffer[4] == 2,
        buffer[5] == 0x08 && buffer[6] == 0x06 && buffer[7] == 0x50,
        buffer[9] == 7 && buffer[10] == 5,
        buffer[16] == 7 && buffer[17] == 5,
        (in_at == 9 && out_at == 16) || (in_at == 16 && out_at == 9),
        is_bulk(endpoint_fields(buffer, in_at), EndpointDirection::In),
        is_bulk(endpoint_fields(buffer, out_at), EndpointDirection::Out),
    ensures
        selection(buffer) == (Selection::Endpoints {
            bulk_in: endpoint_fields(buffer, in_at).as_info(),
            bulk_out: endpoint_fields(buffer, out_at).as_info(),
        }),
{
    reveal_with_fuel(next_interface, 4);
    reveal_with_fuel(interfaces_from, 2);
    reveal_with_fuel(first_storage, 2);
    let i = interface_at(buffer, 0, 23);
    assert(interfaces_in(buffer) =~= seq![i]);
    reveal_with_fuel(endpoints_from, 3);
    reveal_with_fuel(walk_ends, 3);
    reveal_with_fuel(first_bulk, 3);
    let first = endpoint_fields(buffer, 9);
    let second = endpoint_fields(buffer, 16);
    assert(endpoint_fields(i.buffer, 0) == first);
    assert(endpoint_fields(i.buffer, 7) == second);
    let endpoints = endpoints_in(2, i.buffer);
    assert(endpoints =~= seq![first, second]);
    assert(endpoints.skip(1) =~= seq![second]);
}

/// The control channel takes no larger packets than the device does, nor than its speed allows.
pub proof fn law_control_packets(info: EnumerationInfo)
    ensures
        info.control_endpoint().max_packet_size <= info.max_packet_size0,
        info.control_endpoint().max_packet_size <= info.speed.largest_packet(),
        info.control_endpoint().max_packet_size == info.max_packet_size0
            || info.control_endpoint().max_packet_size == info.speed.largest_packet(),
{
}

/// The events of registration, one more at a time.
proof fn lemma_run_register_extends<E>(r: Registration, es: Seq<RegisterEvent<E>>, k: int)
    requires
        0 <= k < es.len(),
        run_register(r, es.take(k)) is Continue,
    ensures
        run_register(r, es.take(k + 1)) == run_register(r, es.take(k))->Continue_0.after(es[k]),
    decreases k,
{
    let more = es.take(k + 1);
    assert(more[0] == es[0]);
    if k == 0 {
        assert(more.skip(1).len() == 0);
        reveal_with_fuel(run_register, 2);
    } else {
        assert(es.take(k)[0] == es[0]);
        assert(es.take(k).skip(1) =~= es.skip(1).take(k - 1));
        assert(more.skip(1) =~= es.skip(1).take(k));
        lemma_run_register_extends(r.after(es[0])->Continue_0, es.skip(1), k - 1);
    }
}

/// The five actions of taking a device into service, in order: the control channel is opened, the
/// configuration is read, the configuration is set, the channel that brings data is opened, and the
/// one that takes them is.
pub open spec fn register_action(
    info: EnumerationInfo,
    value: u8,
    bulk_in: EndpointInfo,
    bulk_out: EndpointInfo,
    k: int,
) -> RegisterAction {
    let (device_address, ls_over_fs) = (info.device_address, info.ls_over_fs);
    if k == 0 {
        let endpoint = info.control_endpoint();
        RegisterAction::Alloc { channel: Channel::Control, device_address, endpoint, ls_over_fs }
    } else if k == 1 {
        RegisterAction::ReadConfiguration { buffer_len: 512 }
    } else if k == 2 {
        RegisterAction::SetConfiguration(value)
    } else if k == 3 {
        let endpoint = bulk_in;
        RegisterAction::Alloc { channel: Channel::BulkIn, device_address, endpoint, ls_over_fs }
    } else {
        let endpoint = bulk_out;
        RegisterAction::Alloc { channel: Channel::BulkOut, device_address, endpoint, ls_over_fs }
    }
}

/// A device with the endpoints that are needed is in service after five actions that go through, in
/// their order, with those endpoints and its control endpoint.
pub proof fn law_registration<E>(
    r: Registration,
    es: Seq<RegisterEvent<E>>,
    bulk_in: EndpointInfo,
    bulk_out: EndpointInfo,
)
    requires
        r.stage == RegisterStage::AllocControl,
        es.len() == 5,
        es[0] is Done,
        es[1] is Configuration,
        es[2] is Done,
        es[3] is Done,
        es[4] is Done,
        selection(es[1]->Configuration_0.buffer@) == (Selection::Endpoints { bulk_in, bulk_out }),
    ensures
        forall|k: int|
            0 <= k < 5 ==> (#[trigger] run_register(r, es.take(k)) matches
            RegisterProgress::Continue(next) && next.pending() == register_action(
                r.info,
                es[1]->Configuration_0.configuration_value,
                bulk_in,
                bulk_out,
                k,
            )),
        run_register(r, es) == RegisterProgress::<E>::Registered(
            MscHandler { bulk_in, bulk_out, control: r.info.control_endpoint() },
        ),
{
    assert(run_register(r, es.take(0)) == RegisterProgress::<E>::Continue(r));
    lemma_run_register_extends(r, es, 0);
    lemma_run_register_extends(r, es, 1);
    lemma_run_register_extends(r, es, 2);
    lemma_run_register_extends(r, es, 3);
    lemma_run_register_extends(r, es, 4);
    assert(es.take(5) =~= es);
    assert forall|k: int| 0 <= k < 5 implies (#[trigger] run_register(r, es.take(k)) matches
    RegisterProgress::Continue(next) && next.pending() == register_action(
        r.info,
        es[1]->Configuration_0.configuration_value,
        bulk_in,
        bulk_out,
        k,
    )) by {
        assert(k == 0 || k == 1 || k == 2 || k == 3 || k == 4);
    }
}

/// A device is refused as unsupported exactly where its configuration was read and does not offer
/// the endpoints that are needed, and registration stops exactly where its descriptors cannot be
/// read.
pub proof fn law_registration_refuses<E>(r: Registration, event: RegisterEvent<E>)
    ensures
        r.after(event) == RegisterProgress::<E>::Refused(RegisterError::NoSupportedInterface)
            <==> (event matches RegisterEvent::Configuration(c) && selection(c.buffer@)
            is Unsupported),
        r.after(event) is Halt <==> (event matches RegisterEvent::Configuration(c) && selection(
            c.buffer@,
        ) is Unreadable),
{
}

/// An action of registration that fails ends it with the error that the host reported.
pub proof fn law_registration_reports_failure<E>(r: Registration, e: E)
    ensures
        r.after(RegisterEvent::Failed(e)) == RegisterProgress::Refused(
            RegisterError::HostError(e),
        ),
{
}

/// The configuration of a device is set only after it was found to have the endpoints that are
/// needed.
pub proof fn law_unsupported_is_left_alone<E>(r: Registration, event: RegisterEvent<E>)
    requires
        r.stage == RegisterStage::ReadConfiguration,
        r.expects(event),
        r.after(event) matches RegisterProgress::Continue(next) && next.pending()
            is SetConfiguration,
    ensures
        event matches RegisterEvent::Configuration(c) && selection(c.buffer@) is Endpoints
            && r.after(event)->Continue_0.pending() == RegisterAction::SetConfiguration(
            c.configuration_value,
        ),
{
}

} // verus!
