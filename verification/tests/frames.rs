use scsi::scsi::commands::{
    InquiryCommand, Read10Command, ReadCapacityCommand, TestUnitReady, Write10Command,
};
use scsi::BufferPullable;
use usb_msc_host::descriptor::{EndpointInfo, EndpointType};
use usb_msc_host::msc::MscHandler;
use usb_msc_host::storage::{Action, Exchange, ScsiHandler};

fn endpoint(addr: u8) -> EndpointInfo {
    EndpointInfo { addr, ep_type: EndpointType::Bulk, max_packet_size: 64, interval_ms: 0 }
}

fn handler() -> ScsiHandler {
    ScsiHandler::new(MscHandler {
        bulk_in: endpoint(0x81),
        bulk_out: endpoint(0x02),
        control: EndpointInfo {
            addr: 0,
            ep_type: EndpointType::Control,
            max_packet_size: 64,
            interval_ms: 0,
        },
    })
}

fn frame(x: &Exchange) -> Vec<u8> {
    match x.action() {
        Action::Send(bytes) => bytes,
        Action::Receive(_) => panic!("a command starts with its frame"),
    }
}

#[test]
fn inquiry_frame_bytes() {
    let expected: [u8; 31] = [
        0x55, 0x53, 0x42, 0x43, 0, 0, 0, 0, 36, 0, 0, 0, 0x80, 0, 6, 0x12, 0, 0, 0, 36, 0, 0, 0, 0,
        0, 0, 0, 0, 0, 0, 0,
    ];
    let sent = frame(&handler().inquiry());
    assert_eq!(sent, expected);
    let back = InquiryCommand::pull_from_buffer(&sent).unwrap();
    assert_eq!(back.allocation_length, 36);
}

#[test]
fn test_unit_ready_frame_bytes() {
    let expected: [u8; 31] = [
        0x55, 0x53, 0x42, 0x43, 0, 0, 0, 0, 0, 0, 0, 0, 0, 0, 6, 0, 0, 0, 0, 0, 0, 0, 0, 0, 0, 0, 0,
        0, 0, 0, 0,
    ];
    let sent = frame(&handler().test_unit_ready());
    assert_eq!(sent, expected);
    assert_eq!(TestUnitReady::pull_from_buffer(&sent).unwrap(), TestUnitReady::new());
}

#[test]
fn read_capacity_frame_bytes() {
    let expected: [u8; 31] = [
        0x55, 0x53, 0x42, 0x43, 0, 0, 0, 0, 8, 0, 0, 0, 0x80, 0, 0x10, 0x25, 0, 0, 0, 0, 0, 0, 0, 0,
        0, 0, 0, 0, 0, 0, 0,
    ];
    let sent = frame(&handler().read_capacity_10());
    assert_eq!(sent, expected);
    assert_eq!(
        ReadCapacityCommand::pull_from_buffer(&sent).unwrap(),
        ReadCapacityCommand::new()
    );
}

#[test]
fn read_frame_bytes() {
    let expected: [u8; 31] = [
        0x55, 0x53, 0x42, 0x43, 0, 0, 0, 0, 0, 0x06, 0, 0, 0x80, 0, 10, 0x28, 0, 0x12, 0x34, 0x56,
        0x78, 0, 0, 3, 0, 0, 0, 0, 0, 0, 0,
    ];
    let sent = frame(&handler().read_10(vec![0; 1536], 0x1234_5678, 3));
    assert_eq!(sent, expected);
    let back = Read10Command::pull_from_buffer(&sent).unwrap();
    assert_eq!(back.block_address, 0x1234_5678);
    assert_eq!(back.block_size, 512);
    assert_eq!(back.transfer_blocks, 3);
}

#[test]
fn read_frame_with_the_largest_count() {
    let sent = frame(&handler().read_10(vec![0; 65535], u32::MAX, u16::MAX));
    assert_eq!(sent[8..12], (65535u32 * 512).to_le_bytes());
    assert_eq!(sent[17..21], [0xff, 0xff, 0xff, 0xff]);
    assert_eq!(sent[22..24], [0xff, 0xff]);
}

#[test]
fn write_frame_bytes() {
    let expected: [u8; 31] = [
        0x55, 0x53, 0x42, 0x43, 0, 0, 0, 0, 0, 0x02, 0, 0, 0, 0, 10, 0x2a, 0, 0, 0, 1, 2, 0, 0, 1,
        0, 0, 0, 0, 0, 0, 0,
    ];
    let sent = frame(&handler().write_10(vec![9], 0x0102, 1));
    assert_eq!(sent, expected);
    let back = Write10Command::pull_from_buffer(&sent).unwrap();
    assert_eq!(back.block_address, 0x0102);
    assert_eq!(back.block_size, 512);
    assert_eq!(back.transfer_blocks, 1);
}

#[test]
fn reads_of_different_blocks_have_different_frames() {
    let h = handler();
    let a = frame(&h.read_10(vec![0; 512], 1, 1));
    assert_ne!(a, frame(&h.read_10(vec![0; 512], 256, 1)));
    assert_ne!(a, frame(&h.read_10(vec![0; 512], 1, 0)));
    assert_ne!(a, frame(&h.write_10(vec![0], 1, 1)));
}
