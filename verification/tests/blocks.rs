use usb_msc_host::block::{flatten, split, Block, BlockCount, BlockIdx, BLOCK_SIZE};
use usb_msc_host::descriptor::{EndpointInfo, EndpointType};
use usb_msc_host::fault::Fault;
use usb_msc_host::msc::MscHandler;
use usb_msc_host::sdmmc::{Access, SdmmcScsi};
use usb_msc_host::storage::{Action, InitProgress, ScsiError, ScsiHandler, Transfer};
use usb_msc_host::timesource::DummyTimesource;

fn endpoint(addr: u8) -> EndpointInfo {
    EndpointInfo { addr, ep_type: EndpointType::Bulk, max_packet_size: 64, interval_ms: 0 }
}

fn handler() -> ScsiHandler {
    ScsiHandler::new(MscHandler {
        bulk_in: endpoint(0x81),
        bulk_out: endpoint(0x02),
        control: EndpointInfo {
            addr: 0,
            ep_type: EndpointType::Control,
            max_packet_size: 64,
            interval_ms: 0,
        },
    })
}

fn signed() -> Vec<u8> {
    vec![0x55, 0x53, 0x42, 0x53, 0, 0, 0, 0, 0, 0, 0, 0, 0]
}

fn block(first: u8) -> Block {
    let mut contents = [0; 512];
    for (i, b) in contents.iter_mut().enumerate() {
        *b = first.wrapping_add(i as u8);
    }
    Block { contents }
}

fn go_on(s: &mut SdmmcScsi, data: Vec<u8>) {
    assert!(matches!(s.advance(Transfer { ok: true, data }), Access::Continue));
}

fn done(s: &mut SdmmcScsi, t: Transfer) -> (Result<(), ScsiError>, Vec<Block>) {
    match s.advance(t) {
        Access::Done { result, blocks } => (result, blocks),
        _ => panic!("the access should be over"),
    }
}

fn sent(s: &SdmmcScsi) -> Vec<u8> {
    match s.action() {
        Some(Action::Send(bytes)) => bytes,
        _ => panic!("something should go out"),
    }
}

fn same(a: &[Block], b: &[Block]) -> bool {
    a.len() == b.len() && a.iter().zip(b).all(|(x, y)| x.contents == y.contents)
}

#[test]
fn block_size_is_that_of_the_file_system() {
    assert_eq!(BLOCK_SIZE, embedded_sdmmc::Block::LEN);
}

#[test]
fn blocks_survive_as_bytes() {
    let blocks = [block(1), block(200)];
    let bytes = flatten(&blocks);
    assert_eq!(bytes.len(), 1024);
    assert_eq!(bytes[0], 1);
    assert_eq!(bytes[511], blocks[0].contents[511]);
    assert_eq!(bytes[512], 200);
    assert_eq!(bytes[1023], blocks[1].contents[511]);
    assert!(same(&split(&bytes), &blocks));
    assert!(flatten(&[]).is_empty());
    assert!(split(&[]).is_empty());
}

#[test]
fn read_gives_back_the_blocks_of_the_device() {
    let mut s = SdmmcScsi::new(handler());
    let device = [block(10), block(20), block(30)];
    s.read(&[block(0), block(0), block(0)], BlockIdx(77));
    let frame = sent(&s);
    assert_eq!(frame[8..12], [0, 6, 0, 0]);
    assert_eq!(frame[15], 0x28);
    assert_eq!(frame[17..21], [0, 0, 0, 77]);
    assert_eq!(frame[22..24], [0, 3]);
    go_on(&mut s, vec![]);
    match s.action() {
        Some(Action::Receive(buffer)) => {
            assert_eq!(buffer, flatten(&[block(0), block(0), block(0)]))
        }
        _ => panic!("a read takes data"),
    }
    go_on(&mut s, flatten(&device));
    let (result, blocks) = done(&mut s, Transfer { ok: true, data: signed() });
    assert_eq!(result, Ok(()));
    assert!(same(&blocks, &device));
}

#[test]
fn read_without_status_fails_with_its_data() {
    let mut s = SdmmcScsi::new(handler());
    s.read(&[block(0)], BlockIdx(1));
    go_on(&mut s, vec![]);
    go_on(&mut s, flatten(&[block(42)]));
    let (result, blocks) = done(&mut s, Transfer { ok: false, data: vec![0; 13] });
    assert_eq!(result, Err(ScsiError::UsbError));
    assert!(same(&blocks, &[block(42)]));
}

#[test]
fn read_that_is_not_accepted_keeps_the_blocks() {
    let mut s = SdmmcScsi::new(handler());
    s.read(&[block(5)], BlockIdx(1));
    let (result, blocks) = done(&mut s, Transfer { ok: false, data: vec![] });
    assert_eq!(result, Err(ScsiError::UsbError));
    assert!(same(&blocks, &[block(5)]));
}

#[test]
fn read_with_broken_status_stops() {
    let mut s = SdmmcScsi::new(handler());
    s.read(&[block(5)], BlockIdx(1));
    go_on(&mut s, vec![]);
    go_on(&mut s, flatten(&[block(6)]));
    let end = s.advance(Transfer { ok: true, data: vec![0; 13] });
    assert!(matches!(end, Access::Halt(Fault::MalformedStatus)));
}

#[test]
fn read_of_too_many_blocks_announces_the_low_half() {
    let mut s = SdmmcScsi::new(handler());
    let blocks = vec![Block { contents: [0; 512] }; 65537];
    s.read(&blocks, BlockIdx(0));
    let frame = sent(&s);
    assert_eq!(frame[8..12], [0, 2, 0, 0]);
    assert_eq!(frame[22..24], [0, 1]);
}

#[test]
fn write_of_blocks_stops() {
    let mut s = SdmmcScsi::new(handler());
    assert!(matches!(s.write(&[block(1)], BlockIdx(0)), Err(Fault::DataLength)));
    assert!(matches!(s.write(&[block(1), block(2)], BlockIdx(9)), Err(Fault::DataLength)));
    assert!(!s.in_flight());
}

#[test]
fn write_of_nothing_goes_through() {
    let mut s = SdmmcScsi::new(handler());
    assert_eq!(s.write(&[], BlockIdx(9)), Ok(()));
    let frame = sent(&s);
    assert_eq!(frame[8..12], [0, 0, 0, 0]);
    assert_eq!(frame[15], 0x2a);
    assert_eq!(frame[17..21], [0, 0, 0, 9]);
    go_on(&mut s, vec![]);
    assert!(sent(&s).is_empty());
    go_on(&mut s, vec![]);
    let (result, blocks) = done(&mut s, Transfer { ok: true, data: signed() });
    assert_eq!(result, Ok(()));
    assert!(blocks.is_empty());
}

#[test]
fn num_blocks_is_the_last_block_address() {
    let mut h = handler();
    let mut init = h.init();
    let mut inquiry = vec![0; 36];
    inquiry[3] = 2;
    let answers = [
        vec![],
        inquiry,
        signed(),
        vec![],
        signed(),
        vec![],
        vec![0, 1, 0, 2, 0, 0, 2, 0],
        signed(),
    ];
    let mut finished = false;
    for data in answers {
        match h.advance_init(init, Transfer { ok: true, data }) {
            InitProgress::Continue(next) => init = next,
            InitProgress::Done(result) => {
                assert_eq!(result, Ok(()));
                finished = true;
                break;
            }
            InitProgress::Halt(_) => panic!("the device is fine"),
        }
    }
    assert!(finished);
    let s = SdmmcScsi::new(h);
    assert_eq!(s.num_blocks(), Ok(BlockCount(0x0001_0002)));
    assert_eq!(SdmmcScsi::new(handler()).num_blocks(), Ok(BlockCount(0)));
}

#[test]
fn the_clock_stands_still() {
    let t = DummyTimesource.get_timestamp();
    assert_eq!((t.year_since_1970, t.zero_indexed_month, t.zero_indexed_day), (0, 0, 0));
    assert_eq!((t.hours, t.minutes, t.seconds), (0, 0, 0));
}

#[test]
fn reading_does_not_change_the_size() {
    let mut s = SdmmcScsi::new(handler());
    s.read(&[block(0)], BlockIdx(1));
    go_on(&mut s, vec![]);
    go_on(&mut s, vec![0xff; 512]);
    let (result, _) = done(&mut s, Transfer { ok: true, data: signed() });
    assert_eq!(result, Ok(()));
    assert_eq!(s.num_blocks(), Ok(BlockCount(0)));
}

#[test]
fn one_access_is_in_flight_at_a_time() {
    let mut s = SdmmcScsi::new(handler());
    assert!(!s.in_flight());
    assert!(s.action().is_none());
    s.read(&[block(0)], BlockIdx(1));
    assert!(s.in_flight());
    go_on(&mut s, vec![]);
    assert!(s.in_flight());
    go_on(&mut s, flatten(&[block(3)]));
    assert!(s.in_flight());
    let _ = done(&mut s, Transfer { ok: true, data: signed() });
    assert!(!s.in_flight());
    s.read(&[block(0)], BlockIdx(1));
    let _ = done(&mut s, Transfer { ok: false, data: vec![] });
    assert!(!s.in_flight());
}

#[test]
fn an_abandoned_access_makes_way() {
    let mut s = SdmmcScsi::new(handler());
    s.read(&[block(0)], BlockIdx(1));
    s.abandon();
    assert!(!s.in_flight());
    assert!(s.action().is_none());
    s.read(&[block(0)], BlockIdx(2));
    assert_eq!(sent(&s)[17..21], [0, 0, 0, 2]);
}

#[test]
fn two_disks_do_not_share_an_access() {
    let mut a = SdmmcScsi::new(handler());
    let mut b = SdmmcScsi::new(handler());
    a.read(&[block(0)], BlockIdx(1));
    b.read(&[block(0)], BlockIdx(1));
    b.abandon();
    assert!(a.in_flight());
    assert!(!b.in_flight());
    go_on(&mut a, vec![]);
    go_on(&mut a, flatten(&[block(7)]));
    let (result, blocks) = done(&mut a, Transfer { ok: true, data: signed() });
    assert_eq!(result, Ok(()));
    assert!(same(&blocks, &[block(7)]));
}
