use usb_msc_host::descriptor::{
    check_interfaces, walk_reach, ConfigurationDescriptor, EndpointDescriptor, EndpointDirection,
    EndpointInfo, EndpointType, InterfaceDescriptor, Speed,
};
use usb_msc_host::fault::Fault;
use usb_msc_host::msc::{
    check_bulk, find_endpoint, pick_endpoint, pick_interface, select, Channel, EnumerationInfo,
    HandlerEvent, MscHandler, RegisterAction, RegisterError, RegisterEvent, RegisterProgress,
    Registration, Search, Selection,
};

const STORAGE: [u8; 9] = [9, 4, 0, 0, 2, 8, 6, 0x50, 0];
const HID: [u8; 18] = [9, 4, 0, 0, 1, 3, 1, 1, 0, 9, 33, 16, 1, 0, 1, 34, 63, 0];
const BULK_IN: [u8; 7] = [7, 5, 0x81, 2, 0x40, 0, 1];
const BULK_OUT: [u8; 7] = [7, 5, 0x02, 2, 0, 2, 3];
const INTERRUPT_IN: [u8; 7] = [7, 5, 0x83, 3, 8, 0, 10];

fn configuration(parts: &[&[u8]]) -> ConfigurationDescriptor {
    let buffer = parts.concat();
    ConfigurationDescriptor {
        len: 9,
        descriptor_type: 2,
        total_len: 9 + buffer.len() as u16,
        num_interfaces: 1,
        configuration_value: 5,
        configuration_name: 0,
        attributes: 0x80,
        max_power: 50,
        buffer,
    }
}

fn interface(num_endpoints: u8, parts: &[&[u8]]) -> InterfaceDescriptor {
    InterfaceDescriptor {
        len: 9,
        descriptor_type: 4,
        interface_number: 0,
        alternate_setting: 0,
        num_endpoints,
        interface_class: 8,
        interface_subclass: 6,
        interface_protocol: 0x50,
        interface_name: 0,
        buffer: parts.concat(),
    }
}

fn bulk(addr: u8, max_packet_size: u16, interval_ms: u8) -> EndpointInfo {
    EndpointInfo { addr, ep_type: EndpointType::Bulk, max_packet_size, interval_ms }
}

fn found() -> Selection {
    Selection::Endpoints { bulk_in: bulk(0x81, 0x40, 1), bulk_out: bulk(0x02, 0x200, 3) }
}

fn info() -> EnumerationInfo {
    EnumerationInfo {
        device_address: 7,
        speed: Speed::Full,
        max_packet_size0: 32,
        ls_over_fs: true,
    }
}

fn go_on(r: Registration, e: RegisterEvent<u8>) -> Registration {
    match r.advance(e) {
        RegisterProgress::Continue(r) => r,
        _ => panic!("there is more to do"),
    }
}

#[test]
fn storage_device_is_selected() {
    assert_eq!(select(&configuration(&[&STORAGE, &BULK_IN, &BULK_OUT])), found());
    assert_eq!(select(&configuration(&[&STORAGE, &BULK_OUT, &BULK_IN])), found());
}

#[test]
fn first_storage_interface_is_selected() {
    let other = [7, 5, 0x84, 2, 1, 0, 0];
    let cfg = configuration(&[
        &HID, &INTERRUPT_IN, &STORAGE, &BULK_IN, &BULK_OUT, &STORAGE, &other, &BULK_OUT,
    ]);
    assert_eq!(select(&cfg), found());
}

#[test]
fn first_bulk_endpoint_of_each_direction_is_selected() {
    let mut three = STORAGE;
    three[4] = 4;
    let other_in = [7, 5, 0x85, 2, 8, 0, 0];
    let cfg = configuration(&[&three, &INTERRUPT_IN, &BULK_IN, &other_in, &BULK_OUT]);
    assert_eq!(select(&cfg), found());
}

#[test]
fn other_devices_are_unsupported() {
    assert_eq!(select(&configuration(&[&HID, &INTERRUPT_IN])), Selection::Unsupported);
    assert_eq!(select(&configuration(&[])), Selection::Unsupported);
    assert_eq!(select(&configuration(&[&STORAGE, &BULK_IN])), Selection::Unsupported);
    assert_eq!(select(&configuration(&[&STORAGE, &BULK_OUT])), Selection::Unsupported);
    assert_eq!(
        select(&configuration(&[&STORAGE, &INTERRUPT_IN, &BULK_OUT])),
        Selection::Unsupported
    );
    for field in 5..8 {
        let mut wrong = STORAGE;
        wrong[field] += 1;
        assert_eq!(
            select(&configuration(&[&wrong, &BULK_IN, &BULK_OUT])),
            Selection::Unsupported
        );
    }
}

#[test]
fn endpoints_that_are_not_counted_are_not_seen() {
    let mut one = STORAGE;
    one[4] = 1;
    assert_eq!(select(&configuration(&[&one, &BULK_IN, &BULK_OUT])), Selection::Unsupported);
}

#[test]
fn broken_descriptors_are_told_apart() {
    let broken = Selection::Unreadable(Fault::BrokenDescriptors);
    assert_eq!(select(&configuration(&[&[1], &STORAGE, &BULK_IN, &BULK_OUT])), broken);
    let mut long = STORAGE;
    long[0] = 200;
    assert_eq!(select(&configuration(&[&long, &BULK_IN, &BULK_OUT])), broken);
    assert!(!check_interfaces(&[1]));
    assert!(check_interfaces(&[2, 7, 0, 1]));
    assert!(check_interfaces(&[9, 4, 1]));
    assert!(check_interfaces(&[]));
}

#[test]
fn endless_descriptors_are_told_apart() {
    let endless = Selection::Unreadable(Fault::EndlessDescriptors);
    let zeros = [0u8; 8];
    assert_eq!(select(&configuration(&[&STORAGE, &zeros, &BULK_IN, &BULK_OUT])), endless);
    assert_eq!(select(&configuration(&[&STORAGE, &BULK_IN, &zeros, &BULK_OUT])), endless);
    assert_eq!(select(&configuration(&[&STORAGE, &BULK_IN, &BULK_OUT, &zeros])), found());
    assert_eq!(walk_reach(&zeros, 0), 0);
    assert_eq!(walk_reach(&zeros, 1), 0);
    assert_eq!(walk_reach(&[0; 6], 1), 1);
    assert_eq!(walk_reach(&[255, 0, 0, 0, 0, 0, 0], 1), 1);
    assert_eq!(walk_reach(&[0, 5, 0, 0, 0, 0, 0], 3), 3);
    assert_eq!(walk_reach(&[&BULK_IN[..], &BULK_OUT[..], &zeros[..]].concat(), 4), 2);
    assert_eq!(walk_reach(&[&BULK_IN[..], &[5, 36, 0, 0, 1], &BULK_OUT[..]].concat(), 2), 2);
}

#[test]
fn interface_is_picked_by_class() {
    let mut other = interface(0, &[]);
    other.interface_protocol = 0x62;
    assert_eq!(pick_interface(&[other, interface(0, &[])]), 1);
    assert_eq!(pick_interface(&[]), 0);
    let mut other = interface(0, &[]);
    other.interface_class = 3;
    assert_eq!(pick_interface(&[other]), 1);
}

#[test]
fn endpoint_search_outcomes() {
    let expected = EndpointDescriptor {
        len: 7,
        descriptor_type: 5,
        endpoint_address: 0x02,
        attributes: 2,
        max_packet_size: 0x200,
        interval: 3,
    };
    let i = interface(2, &[&BULK_IN, &BULK_OUT]);
    assert_eq!(find_endpoint(&i, EndpointDirection::Out), Search::Found(expected));
    let i = interface(1, &[&BULK_IN, &BULK_OUT]);
    assert_eq!(find_endpoint(&i, EndpointDirection::Out), Search::Missing);
    let i = interface(1, &[&[0; 7]]);
    assert_eq!(find_endpoint(&i, EndpointDirection::Out), Search::Endless);
    let i = interface(2, &[&BULK_IN, &[0; 7]]);
    assert_eq!(find_endpoint(&i, EndpointDirection::Out), Search::Endless);
    assert!(matches!(find_endpoint(&i, EndpointDirection::In), Search::Found(_)));
    let i = interface(9, &[&BULK_IN]);
    assert_eq!(find_endpoint(&i, EndpointDirection::Out), Search::Missing);
    let i = interface(1, &[&[5, 36, 0, 0, 1], &BULK_OUT]);
    assert_eq!(find_endpoint(&i, EndpointDirection::Out), Search::Found(expected));
}

#[test]
fn endpoint_is_picked_by_type_and_direction() {
    let bulk_in = EndpointDescriptor {
        len: 7,
        descriptor_type: 5,
        endpoint_address: 0x81,
        attributes: 2,
        max_packet_size: 64,
        interval: 0,
    };
    let bulk_out = EndpointDescriptor { endpoint_address: 2, ..bulk_in };
    let interrupt = EndpointDescriptor { attributes: 3, ..bulk_in };
    let all = [interrupt, bulk_out, bulk_in, bulk_out];
    assert_eq!(pick_endpoint(&all, EndpointDirection::In), 2);
    assert_eq!(pick_endpoint(&all, EndpointDirection::Out), 1);
    assert_eq!(pick_endpoint(&[interrupt], EndpointDirection::In), 1);
    assert_eq!(pick_endpoint(&[], EndpointDirection::In), 0);
}

#[test]
fn bulk_endpoints_are_told_by_type_and_direction() {
    let mut e = EndpointDescriptor {
        len: 7,
        descriptor_type: 5,
        endpoint_address: 0x81,
        attributes: 2,
        max_packet_size: 64,
        interval: 0,
    };
    assert!(check_bulk(&e, EndpointDirection::In));
    assert!(!check_bulk(&e, EndpointDirection::Out));
    e.endpoint_address = 0x7f;
    assert!(check_bulk(&e, EndpointDirection::Out));
    e.attributes = 0xfe;
    assert!(check_bulk(&e, EndpointDirection::Out));
    for attributes in [0, 1, 3] {
        e.attributes = attributes;
        assert!(!check_bulk(&e, EndpointDirection::Out));
    }
}

#[test]
fn registration_opens_three_channels() {
    let r = MscHandler::try_register(info());
    let control = EndpointInfo {
        addr: 0,
        ep_type: EndpointType::Control,
        max_packet_size: 32,
        interval_ms: 0,
    };
    assert_eq!(
        r.action(),
        RegisterAction::Alloc {
            channel: Channel::Control,
            device_address: 7,
            endpoint: control,
            ls_over_fs: true,
        }
    );
    let r = go_on(r, RegisterEvent::Done);
    assert_eq!(r.action(), RegisterAction::ReadConfiguration { buffer_len: 512 });
    let cfg = configuration(&[&STORAGE, &BULK_IN, &BULK_OUT]);
    let r = go_on(r, RegisterEvent::Configuration(cfg));
    assert_eq!(r.action(), RegisterAction::SetConfiguration(5));
    let r = go_on(r, RegisterEvent::Done);
    assert_eq!(
        r.action(),
        RegisterAction::Alloc {
            channel: Channel::BulkIn,
            device_address: 7,
            endpoint: bulk(0x81, 0x40, 1),
            ls_over_fs: true,
        }
    );
    let r = go_on(r, RegisterEvent::Done);
    assert_eq!(
        r.action(),
        RegisterAction::Alloc {
            channel: Channel::BulkOut,
            device_address: 7,
            endpoint: bulk(0x02, 0x200, 3),
            ls_over_fs: true,
        }
    );
    match r.advance(RegisterEvent::<u8>::Done) {
        RegisterProgress::Registered(h) => {
            assert_eq!(h.bulk_in, bulk(0x81, 0x40, 1));
            assert_eq!(h.bulk_out, bulk(0x02, 0x200, 3));
            assert_eq!(h.control, control);
        }
        _ => panic!("the device should be in service"),
    }
}

#[test]
fn registration_passes_errors_on() {
    let mut r = MscHandler::try_register(info());
    for k in 0..5 {
        match r.advance(RegisterEvent::Failed(100 + k as u8)) {
            RegisterProgress::Refused(RegisterError::HostError(e)) => assert_eq!(e, 100 + k as u8),
            _ => panic!("an error ends registration"),
        }
        if k < 4 {
            let event = if k == 1 {
                RegisterEvent::Configuration(configuration(&[&STORAGE, &BULK_IN, &BULK_OUT]))
            } else {
                RegisterEvent::Done
            };
            r = go_on(r, event);
        }
    }
}

#[test]
fn registration_refuses_other_devices() {
    let r = go_on(MscHandler::try_register(info()), RegisterEvent::Done);
    let event: RegisterEvent<u8> = RegisterEvent::Configuration(configuration(&[&HID]));
    assert!(matches!(
        r.advance(event),
        RegisterProgress::Refused(RegisterError::NoSupportedInterface)
    ));
    let event: RegisterEvent<u8> = RegisterEvent::Configuration(configuration(&[&[1]]));
    assert!(matches!(r.advance(event), RegisterProgress::Halt(Fault::BrokenDescriptors)));
}

#[test]
fn control_packets_fit_device_and_speed() {
    for (speed, max_packet_size0, expected) in [
        (Speed::Low, 8, 8),
        (Speed::Low, 64, 8),
        (Speed::Full, 8, 8),
        (Speed::Full, 64, 64),
        (Speed::Full, 255, 64),
        (Speed::High, 255, 64),
        (Speed::High, 0, 0),
    ] {
        let r = MscHandler::try_register(EnumerationInfo { speed, max_packet_size0, ..info() });
        match r.action() {
            RegisterAction::Alloc { endpoint, .. } => {
                assert_eq!(endpoint.max_packet_size, expected)
            }
            _ => panic!("the control channel comes first"),
        }
    }
}

#[test]
fn handler_looks_at_any_device_and_reports_nothing() {
    assert!(MscHandler::static_spec().device_filter.is_none());
    let mut h = MscHandler {
        bulk_in: bulk(0x81, 64, 0),
        bulk_out: bulk(2, 64, 0),
        control: bulk(0, 64, 0),
    };
    let before = h;
    let event: Result<HandlerEvent, u8> = h.wait_for_event();
    assert!(matches!(event, Ok(HandlerEvent::NoChange)));
    assert_eq!(h, before);
}

#[test]
fn other_descriptors_are_passed_over() {
    let association = [8, 11, 0, 1, 8, 6, 0x50, 0];
    let class_specific = [5, 36, 0, 0, 1];
    let cfg = configuration(&[
        &association, &STORAGE, &class_specific, &BULK_IN, &class_specific, &BULK_OUT,
    ]);
    assert_eq!(select(&cfg), found());
    let long = [11, 4, 0, 0, 2, 8, 6, 0x50, 0, 0xaa, 0xbb];
    assert_eq!(select(&configuration(&[&long, &BULK_IN, &BULK_OUT])), found());
}

#[test]
fn odd_lengths_end_the_search_for_interfaces() {
    let overrun = [200, 36, 0, 0, 1];
    assert_eq!(
        select(&configuration(&[&overrun, &STORAGE, &BULK_IN, &BULK_OUT])),
        Selection::Unsupported
    );
    assert_eq!(
        select(&configuration(&[&HID, &[0, 0], &STORAGE, &BULK_IN, &BULK_OUT])),
        Selection::Unsupported
    );
    let mut empty = STORAGE;
    empty[0] = 0;
    assert_eq!(
        select(&configuration(&[&empty, &BULK_IN, &BULK_OUT])),
        Selection::Unreadable(Fault::EndlessDescriptors)
    );
    empty[4] = 0;
    assert_eq!(
        select(&configuration(&[&empty, &BULK_IN, &BULK_OUT])),
        Selection::Unsupported
    );
    assert_eq!(select(&configuration(&[&HID, &STORAGE[..8]])), Selection::Unsupported);
}
