use scsi::scsi::commands::{CommandStatusWrapper, ReadCapacityResponse};
use scsi::BufferPushable;
use usb_msc_host::descriptor::{EndpointInfo, EndpointType};
use usb_msc_host::fault::Fault;
use usb_msc_host::msc::MscHandler;
use usb_msc_host::storage::{
    Action, Exchange, Init, InitProgress, Progress, Reply, ScsiError, ScsiHandler, Transfer,
};

fn endpoint(addr: u8) -> EndpointInfo {
    EndpointInfo { addr, ep_type: EndpointType::Bulk, max_packet_size: 64, interval_ms: 0 }
}

fn handler() -> ScsiHandler {
    ScsiHandler::new(MscHandler {
        bulk_in: endpoint(0x81),
        bulk_out: endpoint(0x02),
        control: EndpointInfo {
            addr: 0,
            ep_type: EndpointType::Control,
            max_packet_size: 64,
            interval_ms: 0,
        },
    })
}

fn status(tag: u32, data_residue: u32, status: u8) -> Vec<u8> {
    let mut bytes = vec![0; 13];
    CommandStatusWrapper { tag, data_residue, status }.push_to_buffer(&mut bytes[..]).unwrap();
    bytes
}

fn capacity(logical_block_address: u32, block_length: u32) -> Vec<u8> {
    let mut bytes = vec![0; 8];
    ReadCapacityResponse { logical_block_address, block_length }
        .push_to_buffer(&mut bytes[..])
        .unwrap();
    bytes
}

fn inquiry_data() -> Vec<u8> {
    let mut bytes = vec![0; 36];
    bytes[0] = 0xab;
    bytes[1] = 0x80;
    bytes[2] = 4;
    bytes[3] = 2;
    bytes
}

fn ok(data: Vec<u8>) -> Transfer {
    Transfer { ok: true, data }
}

fn failed(data: Vec<u8>) -> Transfer {
    Transfer { ok: false, data }
}

fn go_on(h: &mut ScsiHandler, x: Exchange, t: Transfer) -> Exchange {
    match h.advance(x, t) {
        Progress::Continue(x) => x,
        _ => panic!("the command should go on"),
    }
}

fn done(h: &mut ScsiHandler, x: Exchange, t: Transfer) -> (Result<Reply, ScsiError>, Vec<u8>) {
    match h.advance(x, t) {
        Progress::Done { reply, data } => (reply, data),
        _ => panic!("the command should be over"),
    }
}

fn halted(h: &mut ScsiHandler, x: Exchange, t: Transfer) -> Fault {
    match h.advance(x, t) {
        Progress::Halt(fault) => fault,
        _ => panic!("the driver should stop"),
    }
}

fn buffer(a: Action) -> Vec<u8> {
    match a {
        Action::Receive(buffer) => buffer,
        Action::Send(_) => panic!("something should come in"),
    }
}

fn bytes_out(a: Action) -> Vec<u8> {
    match a {
        Action::Send(bytes) => bytes,
        Action::Receive(_) => panic!("something should go out"),
    }
}

#[test]
fn inquiry_gives_what_the_device_said() {
    let mut h = handler();
    let x = h.inquiry();
    let x = go_on(&mut h, x, ok(vec![]));
    assert_eq!(buffer(x.action()), vec![0; 36]);
    let x = go_on(&mut h, x, ok(inquiry_data()));
    assert_eq!(buffer(x.action()), vec![0; 13]);
    let (reply, data) = done(&mut h, x, ok(status(0, 0, 0)));
    match reply {
        Ok(Reply::Inquiry(i)) => {
            assert_eq!(i.device_qualifier, 0xa0);
            assert_eq!(i.device_type, 0x0b);
            assert_eq!(i.removable_flags, 0x80);
            assert_eq!(i.spc_version, 4);
            assert_eq!(i.response_format, 2);
            assert_eq!(i.device_qualifier | i.device_type, 0xab);
        }
        _ => panic!("an inquiry gives inquiry data"),
    }
    assert_eq!(data, inquiry_data());
}

#[test]
fn default_inquiry_data_are_zero() {
    let i = usb_msc_host::wire::InquiryResponse::default();
    assert_eq!(i.device_qualifier, 0);
    assert_eq!(i.device_type, 0);
    assert_eq!(i.removable_flags, 0);
    assert_eq!(i.spc_version, 0);
    assert_eq!(i.response_format, 0);
}

#[test]
fn test_unit_ready_has_no_data() {
    let mut h = handler();
    let x = h.test_unit_ready();
    let x = go_on(&mut h, x, ok(vec![]));
    assert_eq!(buffer(x.action()), vec![0; 13]);
    let (reply, data) = done(&mut h, x, ok(status(0x0102_0304, 0x0506_0708, 1)));
    match reply {
        Ok(Reply::Status(csw)) => {
            assert_eq!(csw.tag, 0x0102_0304);
            assert_eq!(csw.data_residue, 0x0506_0708);
            assert_eq!(csw.status, 1);
        }
        _ => panic!("a test gives its status"),
    }
    assert!(data.is_empty());
}

#[test]
fn capacity_is_learned_with_its_status() {
    let mut h = handler();
    let x = h.read_capacity_10();
    let x = go_on(&mut h, x, ok(vec![]));
    assert_eq!(buffer(x.action()), vec![0; 8]);
    let x = go_on(&mut h, x, ok(capacity(0x00ab_cdef, 512)));
    assert_eq!(h.size(), 0);
    let (reply, _) = done(&mut h, x, ok(status(0, 0, 0)));
    match reply {
        Ok(Reply::Capacity(c)) => {
            assert_eq!(c.logical_block_address, 0x00ab_cdef);
            assert_eq!(c.block_length, 512);
        }
        _ => panic!("a capacity command gives a capacity"),
    }
    assert_eq!(h.size(), 0x00ab_cdef);
}

#[test]
fn other_block_length_stops_the_driver() {
    let mut h = handler();
    let x = h.read_capacity_10();
    let x = go_on(&mut h, x, ok(vec![]));
    assert_eq!(halted(&mut h, x, ok(capacity(1000, 4096))), Fault::BlockLength);
    assert_eq!(h.size(), 0);
}

#[test]
fn unsigned_status_stops_the_driver() {
    let mut h = handler();
    let x = h.test_unit_ready();
    let x = go_on(&mut h, x, ok(vec![]));
    let mut bad = status(0, 0, 0);
    bad[3] = 0x43;
    assert_eq!(halted(&mut h, x, ok(bad)), Fault::MalformedStatus);
}

#[test]
fn get_csw_reads_the_status() {
    let csw = ScsiHandler::get_csw(&status(7, 9, 2)).unwrap();
    assert_eq!((csw.tag, csw.data_residue, csw.status), (7, 9, 2));
    assert!(matches!(ScsiHandler::get_csw(&[0; 13]), Err(Fault::MalformedStatus)));
}

#[test]
fn every_failed_transfer_is_a_usb_error() {
    for stage in 0..3 {
        let mut h = handler();
        let mut x = h.read_capacity_10();
        let answers = [vec![], capacity(5, 512), status(0, 0, 0)];
        for answer in answers.iter().take(stage) {
            x = go_on(&mut h, x, ok(answer.clone()));
        }
        let (reply, _) = done(&mut h, x, failed(answers[stage].clone()));
        assert_eq!(reply, Err(ScsiError::UsbError));
        assert_eq!(h.size(), 0);
    }
}

#[test]
fn read_fills_the_buffer_that_it_was_given() {
    let mut h = handler();
    let x = h.read_10(vec![7; 512], 3, 1);
    let x = go_on(&mut h, x, ok(vec![]));
    assert_eq!(buffer(x.action()), vec![7; 512]);
    let mut half = vec![9; 256];
    half.extend_from_slice(&[7; 256]);
    let x = go_on(&mut h, x, ok(half.clone()));
    let (reply, data) = done(&mut h, x, failed(vec![0; 13]));
    assert_eq!(reply, Err(ScsiError::UsbError));
    assert_eq!(data, half);
}

#[test]
fn failed_read_keeps_what_came_in() {
    let mut h = handler();
    let x = h.read_10(vec![7; 4], 3, 1);
    let x = go_on(&mut h, x, ok(vec![]));
    let (reply, data) = done(&mut h, x, failed(vec![1, 2, 7, 7]));
    assert_eq!(reply, Err(ScsiError::UsbError));
    assert_eq!(data, vec![1, 2, 7, 7]);
}

#[test]
fn write_sends_its_data_and_gives_the_status() {
    let mut h = handler();
    let x = h.write_10(vec![1, 2, 3], 8, 3);
    let x = go_on(&mut h, x, ok(vec![]));
    assert_eq!(bytes_out(x.action()), vec![1, 2, 3]);
    let x = go_on(&mut h, x, ok(vec![]));
    assert_eq!(buffer(x.action()), vec![0; 13]);
    let (reply, data) = done(&mut h, x, ok(status(0, 4, 0)));
    match reply {
        Ok(Reply::Status(csw)) => assert_eq!(csw.data_residue, 4),
        _ => panic!("a write gives its status"),
    }
    assert_eq!(data, vec![1, 2, 3]);
}

enum End {
    Finished(Result<(), ScsiError>),
    Stopped(Fault),
    Pending(Init),
}

fn bring_up(h: &mut ScsiHandler, transfers: Vec<Transfer>) -> (Vec<Action>, End) {
    let mut init = h.init();
    let mut actions = vec![init.action()];
    for t in transfers {
        match h.advance_init(init, t) {
            InitProgress::Continue(next) => {
                actions.push(next.action());
                init = next;
            }
            InitProgress::Done(result) => return (actions, End::Finished(result)),
            InitProgress::Halt(fault) => return (actions, End::Stopped(fault)),
        }
    }
    (actions, End::Pending(init))
}

fn good_answers() -> Vec<Vec<u8>> {
    vec![
        vec![],
        inquiry_data(),
        status(0, 0, 0),
        vec![],
        status(0, 0, 1),
        vec![],
        capacity(0x1000, 512),
        status(0, 0, 0),
    ]
}

#[test]
fn init_asks_three_things_in_order() {
    let mut h = handler();
    let transfers = good_answers().into_iter().map(ok).collect();
    let (actions, end) = bring_up(&mut h, transfers);
    assert!(matches!(end, End::Finished(Ok(()))));
    assert_eq!(h.size(), 0x1000);
    assert_eq!(actions.len(), 8);
    let mut opcodes = vec![];
    let mut lengths = vec![];
    for action in actions {
        match action {
            Action::Send(bytes) => {
                assert_eq!(bytes.len(), 31);
                opcodes.push(bytes[15]);
            }
            Action::Receive(buffer) => lengths.push(buffer.len()),
        }
    }
    assert_eq!(opcodes, vec![0x12, 0x00, 0x25]);
    assert_eq!(lengths, vec![36, 13, 13, 8, 13]);
}

#[test]
fn init_reports_the_first_failure() {
    for k in 0..8 {
        let mut h = handler();
        let transfers = good_answers()
            .into_iter()
            .enumerate()
            .map(|(i, data)| Transfer { ok: i != k, data })
            .collect();
        let (actions, end) = bring_up(&mut h, transfers);
        assert!(matches!(end, End::Finished(Err(ScsiError::UsbError))));
        assert_eq!(actions.len(), k + 1);
        assert_eq!(h.size(), 0);
    }
}

#[test]
fn init_stops_at_the_first_broken_answer() {
    for (k, bytes, fault) in [
        (2, vec![0; 13], Fault::MalformedStatus),
        (4, vec![0; 13], Fault::MalformedStatus),
        (6, capacity(1, 1024), Fault::BlockLength),
        (7, vec![0; 13], Fault::MalformedStatus),
    ] {
        let mut h = handler();
        let mut answers = good_answers();
        answers[k] = bytes;
        let (actions, end) = bring_up(&mut h, answers.into_iter().map(ok).collect());
        assert!(matches!(end, End::Stopped(f) if f == fault));
        assert_eq!(actions.len(), k + 1);
        assert_eq!(h.size(), 0);
    }
}

#[test]
fn init_waits_for_the_next_transfer() {
    let mut h = handler();
    let (_, end) = bring_up(&mut h, good_answers().into_iter().take(3).map(ok).collect());
    match end {
        End::Pending(init) => assert_eq!(bytes_out(init.action())[15], 0x00),
        _ => panic!("there is more to do"),
    }
}
