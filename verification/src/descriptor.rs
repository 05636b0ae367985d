//! What a device says of itself: its configuration, interfaces and endpoints.
//!
//! The descriptors are taken apart by the `embassy-usb-host` crate. The types here hold their
//! fields as plain values.

use vstd::prelude::*;

verus! {

/// The speed of a device.
#[derive(Clone, Copy, PartialEq, Eq, Structural, Debug)]
pub enum Speed {
    Low,
    Full,
    High,
}

impl Speed {
    /// The largest packet that the control endpoint of a device takes at this speed.
    pub open spec fn largest_packet(self) -> u16 {
        match self {
            Speed::Low => 8,
            Speed::Full => 64,
            Speed::High => 64,
        }
    }

    /// Calls `Speed::max_packet_size` of the `embassy-usb-driver` crate: 8 at low speed, 64 at full
    /// and at high speed.
    #[verifier::external_body]
    pub(crate) fn max_packet_size(self) -> (n: u16)
        ensures
            n == self.largest_packet(),
    {
        let speed = match self {
            Speed::Low => embassy_usb_driver::Speed::Low,
            Speed::Full => embassy_usb_driver::Speed::Full,
            Speed::High => embassy_usb_driver::Speed::High,
        };
        speed.max_packet_size()
    }
}

/// How an endpoint transfers.
#[derive(Clone, Copy, PartialEq, Eq, Structural, Debug)]
pub enum EndpointType {
    Control,
    Isochronous,
    Bulk,
    Interrupt,
}

/// Which way an endpoint transfers, seen from the host.
#[derive(Clone, Copy, PartialEq, Eq, Structural, Debug)]
pub enum EndpointDirection {
    Out,
    In,
}

/// What a channel to an endpoint is made from.
#[derive(Clone, Copy, PartialEq, Eq, Structural, Debug)]
pub struct EndpointInfo {
    pub addr: u8,
    pub ep_type: EndpointType,
    pub max_packet_size: u16,
    pub interval_ms: u8,
}

/// An endpoint descriptor.
#[derive(Clone, Copy, PartialEq, Eq, Structural, Debug)]
pub struct EndpointDescriptor {
    pub len: u8,
    pub descriptor_type: u8,
    pub endpoint_address: u8,
    pub attributes: u8,
    pub max_packet_size: u16,
    pub interval: u8,
}

impl EndpointDescriptor {
    /// The transfer type: the lowest two bits of the attributes.
    pub open spec fn transfer_type(self) -> EndpointType {
        let bits = self.attributes & 0x03;
        if bits == 0 {
            EndpointType::Control
        } else if bits == 1 {
            EndpointType::Isochronous
        } else if bits == 2 {
            EndpointType::Bulk
        } else {
            EndpointType::Interrupt
        }
    }

    /// The direction: the top bit of the address.
    pub open spec fn direction(self) -> EndpointDirection {
        if self.endpoint_address & 0x80 == 0 {
            EndpointDirection::Out
        } else {
            EndpointDirection::In
        }
    }

    /// What a channel to this endpoint is made from.
    pub open spec fn as_info(self) -> EndpointInfo {
        EndpointInfo {
            addr: self.endpoint_address,
            ep_type: self.transfer_type(),
            max_packet_size: self.max_packet_size,
            interval_ms: self.interval,
        }
    }

    /// Calls `EndpointDescriptor::ep_type` of the `embassy-usb-host` crate, which tells the type
    /// from the lowest two bits of the attributes.
    #[verifier::external_body]
    pub(crate) fn ep_type(&self) -> (t: EndpointType)
        ensures
            t == self.transfer_type(),
    {
        let (len, descriptor_type) = (self.len, self.descriptor_type);
        let (endpoint_address, attributes) = (self.endpoint_address, self.attributes);
        let (max_packet_size, interval) = (self.max_packet_size, self.interval);
        let d = embassy_usb_host::descriptor::EndpointDescriptor {
            len, descriptor_type, endpoint_address, attributes, max_packet_size, interval };
        match d.ep_type() {
            embassy_usb_driver::EndpointType::Control => EndpointType::Control,
            embassy_usb_driver::EndpointType::Isochronous => EndpointType::Isochronous,
            embassy_usb_driver::EndpointType::Bulk => EndpointType::Bulk,
            embassy_usb_driver::EndpointType::Interrupt => EndpointType::Interrupt,
        }
    }

    /// Calls `EndpointDescriptor::ep_dir` of the `embassy-usb-host` crate, which tells the
    /// direction from the top bit of the address.
    #[verifier::external_body]
    pub(crate) fn ep_dir(&self) -> (d: EndpointDirection)
        ensures
            d == self.direction(),
    {
        let (len, descriptor_type) = (self.len, self.descriptor_type);
        let (endpoint_address, attributes) = (self.endpoint_address, self.attributes);
        let (max_packet_size, interval) = (self.max_packet_size, self.interval);
        let d = embassy_usb_host::descriptor::EndpointDescriptor {
            len, descriptor_type, endpoint_address, attributes, max_packet_size, interval };
        match d.ep_dir() {
            embassy_usb_driver::Direction::Out => EndpointDirection::Out,
            embassy_usb_driver::Direction::In => EndpointDirection::In,
        }
    }

    /// Calls the `embassy-usb-host` crate's conversion of an `EndpointDescriptor` into an
    /// `EndpointInfo`: address, packet size and interval are taken over, and the type is that of
    /// `ep_type`.
    #[verifier::external_body]
    pub(crate) fn info(&self) -> (i: EndpointInfo)
        ensures
            i == self.as_info(),
    {
        let (len, descriptor_type) = (self.len, self.descriptor_type);
        let (endpoint_address, attributes) = (self.endpoint_address, self.attributes);
        let (max_packet_size, interval) = (self.max_packet_size, self.interval);
        let i = embassy_usb_driver::EndpointInfo::from(
            embassy_usb_host::descriptor::EndpointDescriptor {
                len, descriptor_type, endpoint_address, attributes, max_packet_size, interval });
        let ep_type = match i.ep_type {
            embassy_usb_driver::EndpointType::Control => EndpointType::Control,
            embassy_usb_driver::EndpointType::Isochronous => EndpointType::Isochronous,
            embassy_usb_driver::EndpointType::Bulk => EndpointType::Bulk,
            embassy_usb_driver::EndpointType::Interrupt => EndpointType::Interrupt,
        };
        let (addr, max_packet_size) = (i.addr.into(), i.max_packet_size);
        EndpointInfo { addr, ep_type, max_packet_size, interval_ms: i.interval_ms }
    }
}

/// An interface descriptor and the descriptors that belong to it.
pub struct InterfaceDescriptor {
    pub len: u8,
    pub descriptor_type: u8,
    pub interface_number: u8,
    pub alternate_setting: u8,
    pub num_endpoints: u8,
    pub interface_class: u8,
    pub interface_subclass: u8,
    pub interface_protocol: u8,
    pub interface_name: u8,
    /// The descriptors between this one and the next interface descriptor.
    pub buffer: Vec<u8>,
}

/// An interface descriptor as a mathematical value.
#[verifier::ext_equal]
pub struct Interface {
    pub len: u8,
    pub descriptor_type: u8,
    pub interface_number: u8,
    pub alternate_setting: u8,
    pub num_endpoints: u8,
    pub interface_class: u8,
    pub interface_subclass: u8,
    pub interface_protocol: u8,
    pub interface_name: u8,
    pub buffer: Seq<u8>,
}

impl View for InterfaceDescriptor {
    type V = Interface;

    open spec fn view(&self) -> Interface {
        Interface {
            len: self.len,
            descriptor_type: self.descriptor_type,
            interface_number: self.interface_number,
            alternate_setting: self.alternate_setting,
            num_endpoints: self.num_endpoints,
            interface_class: self.interface_class,
            interface_subclass: self.interface_subclass,
            interface_protocol: self.interface_protocol,
            interface_name: self.interface_name,
            buffer: self.buffer@,
        }
    }
}

/// A configuration descriptor and everything that follows it.
pub struct ConfigurationDescriptor {
    pub len: u8,
    pub descriptor_type: u8,
    pub total_len: u16,
    pub num_interfaces: u8,
    pub configuration_value: u8,
    pub configuration_name: u8,
    pub attributes: u8,
    pub max_power: u8,
    /// The interface and endpoint descriptors, and whatever stands between them.
    pub buffer: Vec<u8>,
}

/// Where the first interface descriptor stands from `at` on, or the end of `buffer` if there is
/// none. Descriptors follow one another by their lengths, as far as one of length zero or one that
/// would reach past the end.
pub open spec fn next_interface(buffer: Seq<u8>, at: int) -> int
    decreases buffer.len() - at,
{
    if at < 0 || at >= buffer.len() || buffer[at] == 0 || at + buffer[at] > buffer.len() {
        buffer.len() as int
    } else if buffer[at] >= 2 && buffer[at + 1] == 4 {
        at
    } else {
        next_interface(buffer, at + buffer[at])
    }
}

/// The next interface descriptor does not stand before `at`, nor past the end.
pub proof fn lemma_next_interface(buffer: Seq<u8>, at: int)
    ensures
        next_interface(buffer, at) <= buffer.len(),
        at <= buffer.len() ==> at <= next_interface(buffer, at),
    decreases buffer.len() - at,
{
    if 0 <= at < buffer.len() && buffer[at] != 0 && at + buffer[at] <= buffer.len() {
        lemma_next_interface(buffer, at + buffer[at]);
    }
}

/// The fields of the interface descriptor at `at`, to which the bytes from its own end up to `end`
/// belong.
pub open spec fn interface_at(buffer: Seq<u8>, at: int, end: int) -> Interface {
    Interface {
        len: buffer[at],
        descriptor_type: buffer[at + 1],
        interface_number: buffer[at + 2],
        alternate_setting: buffer[at + 3],
        num_endpoints: buffer[at + 4],
        interface_class: buffer[at + 5],
        interface_subclass: buffer[at + 6],
        interface_protocol: buffer[at + 7],
        interface_name: buffer[at + 8],
        buffer: buffer.subrange(at + buffer[at], end),
    }
}

/// The interfaces from `at` on: each one reaches up to the next, and they end where fewer than nine
/// bytes are left or something else stands.
pub open spec fn interfaces_from(buffer: Seq<u8>, at: int) -> Seq<Interface>
    decreases buffer.len() - at,
{
    if at < 0 || at + 9 > buffer.len() || buffer[at + 1] != 4 {
        Seq::empty()
    } else {
        proof {
            lemma_next_interface(buffer, at + buffer[at]);
        }
        let end = next_interface(buffer, at + buffer[at]);
        seq![interface_at(buffer, at, end)] + interfaces_from(buffer, end)
    }
}

/// The interfaces in the bytes after a configuration descriptor. Where no interface descriptor is
/// met, the first bytes are tried.
pub open spec fn interfaces_in(buffer: Seq<u8>) -> Seq<Interface> {
    let first = next_interface(buffer, 0);
    interfaces_from(
        buffer,
        if first < buffer.len() {
            first
        } else {
            0
        },
    )
}

/// Whether seven bytes at `at` are an endpoint descriptor that ends inside `buffer`.
pub open spec fn endpoint_at(buffer: Seq<u8>, at: int) -> bool {
    buffer[at + 1] == 5 && at + buffer[at] <= buffer.len()
}

/// The fields of the endpoint descriptor at `at`.
pub open spec fn endpoint_fields(buffer: Seq<u8>, at: int) -> EndpointDescriptor {
    EndpointDescriptor {
        len: buffer[at],
        descriptor_type: buffer[at + 1],
        endpoint_address: buffer[at + 2],
        attributes: buffer[at + 3],
        max_packet_size: (buffer[at + 4] + 0x100 * buffer[at + 5]) as u16,
        interval: buffer[at + 6],
    }
}

/// The first `left` endpoints from `at` on, or all of them if there are fewer: descriptors follow
/// one another by their lengths, and those that are no endpoints are passed over.
pub open spec fn endpoints_from(buffer: Seq<u8>, at: int, left: nat) -> Seq<EndpointDescriptor>
    decreases left, buffer.len() + 0x100 - at,
{
    if left == 0 || at < 0 || at + 7 > buffer.len() {
        Seq::empty()
    } else if endpoint_at(buffer, at) {
        seq![endpoint_fields(buffer, at)] + endpoints_from(
            buffer,
            at + buffer[at],
            (left - 1) as nat,
        )
    } else if buffer[at] == 0 {
        Seq::empty()
    } else {
        endpoints_from(buffer, at + buffer[at], left)
    }
}

/// The endpoints in the bytes of an interface that claims `num_endpoints` of them.
pub open spec fn endpoints_in(num_endpoints: u8, buffer: Seq<u8>) -> Seq<EndpointDescriptor> {
    endpoints_from(buffer, 0, num_endpoints as nat)
}

/// There are never more endpoints than were asked for.
pub proof fn lemma_endpoints_bounded(buffer: Seq<u8>, at: int, left: nat)
    ensures
        endpoints_from(buffer, at, left).len() <= left,
    decreases left, buffer.len() + 0x100 - at,
{
    if left > 0 && at >= 0 && at + 7 <= buffer.len() {
        if endpoint_at(buffer, at) {
            lemma_endpoints_bounded(buffer, at + buffer[at], (left - 1) as nat);
        } else if buffer[at] != 0 {
            lemma_endpoints_bounded(buffer, at + buffer[at], left);
        }
    }
}

/// The first `n` endpoints of `s`, or all of them if there are fewer.
pub open spec fn first_of(s: Seq<EndpointDescriptor>, n: nat) -> Seq<EndpointDescriptor> {
    if n < s.len() {
        s.take(n as int)
    } else {
        s
    }
}

/// Whether every descriptor from `at` on, as far as the first interface descriptor, has room for
/// its type. The walk also ends at a length of zero and where a descriptor would reach past the
/// end.
pub open spec fn types_readable(buffer: Seq<u8>, at: int) -> bool
    decreases buffer.len() - at,
{
    if at < 0 || at >= buffer.len() || buffer[at] == 0 || at + buffer[at] > buffer.len() {
        true
    } else {
        buffer[at] >= 2 && (buffer[at + 1] == 4 || types_readable(buffer, at + buffer[at]))
    }
}

/// Whether the interfaces in `buffer` can be told apart: types are readable up to the first
/// interface descriptor, and that descriptor does not reach past the end.
pub open spec fn interfaces_readable(buffer: Seq<u8>) -> bool {
    &&& types_readable(buffer, 0)
    &&& buffer.len() >= 9 && buffer[1] == 4 ==> buffer[0] <= buffer.len()
}

/// Whether a walk from `at` that wants `left` endpoints comes to an end: it never meets a
/// descriptor of length zero that is no endpoint.
pub open spec fn walk_ends(buffer: Seq<u8>, at: int, left: nat) -> bool
    decreases left, buffer.len() + 0x100 - at,
{
    if left == 0 || at < 0 || at + 7 > buffer.len() {
        true
    } else if endpoint_at(buffer, at) {
        walk_ends(buffer, at + buffer[at], (left - 1) as nat)
    } else {
        buffer[at] != 0 && walk_ends(buffer, at + buffer[at], left)
    }
}

/// A walk that ends for more endpoints ends for fewer.
pub proof fn lemma_walk_monotone(buffer: Seq<u8>, at: int, fewer: nat, more: nat)
    requires
        fewer <= more,
        walk_ends(buffer, at, more),
    ensures
        walk_ends(buffer, at, fewer),
    decreases more, buffer.len() + 0x100 - at,
{
    if fewer > 0 && at >= 0 && at + 7 <= buffer.len() {
        if endpoint_at(buffer, at) {
            lemma_walk_monotone(
                buffer,
                at + buffer[at],
                (fewer - 1) as nat,
                (more - 1) as nat,
            );
        } else {
            lemma_walk_monotone(buffer, at + buffer[at], fewer, more);
        }
    }
}

/// Whether the interfaces in `buffer` can be told apart.
pub fn check_interfaces(buffer: &[u8]) -> (ok: bool)
    ensures
        ok == interfaces_readable(buffer@),
{
    let len: usize = buffer.len();
    if len >= 9 && buffer[1] == 4 && buffer[0] as usize > len {
        return false;
    }
    let mut at: usize = 0;
    while at < len && buffer[at] != 0 && buffer[at] as usize <= len - at
        invariant
            len == buffer@.len(),
            at <= len,
            len >= 9 && buffer@[1] == 4 ==> buffer@[0] <= len,
            types_readable(buffer@, 0) == types_readable(buffer@, at as int),
        decreases len - at,
    {
        if buffer[at] < 2 {
            return false;
        }
        if buffer[at + 1] == 4 {
            return true;
        }
        at = at + buffer[at] as usize;
    }
    true
}

/// The largest number of endpoints, up to `wanted`, for which a walk from the start comes to an
/// end.
pub fn walk_reach(buffer: &[u8], wanted: usize) -> (n: usize)
    ensures
        n <= wanted,
        walk_ends(buffer@, 0, n as nat),
        n < wanted ==> !walk_ends(buffer@, 0, (n + 1) as nat),
{
    let len: usize = buffer.len();
    let mut at: usize = 0;
    let mut n: usize = 0;
    while n < wanted && len >= 7 && at <= len - 7
        invariant
            len == buffer@.len(),
            at <= len,
            n <= wanted,
            forall|m: nat| #[trigger]
                walk_ends(buffer@, at as int, m) == walk_ends(buffer@, 0, (n + m) as nat),
        decreases wanted - n, len - at,
    {
        let step: usize = buffer[at] as usize;
        let ghost (at_before, n_before) = (at as int, n as nat);
        if buffer[at + 1] == 5 && step <= len - at {
            n = n + 1;
            at = at + step;
            assert forall|m: nat| #[trigger]
                walk_ends(buffer@, at as int, m) == walk_ends(buffer@, 0, (n + m) as nat) by {
                assert(walk_ends(buffer@, at_before, m + 1) == walk_ends(
                    buffer@,
                    0,
                    n_before + (m + 1),
                ));
            }
        } else if step == 0 {
            assert(walk_ends(buffer@, at as int, 0));
            assert(!walk_ends(buffer@, at as int, 1));
            return n;
        } else if step > len - at {
            assert(walk_ends(buffer@, at + step, (wanted - n) as nat));
            assert(walk_ends(buffer@, at as int, (wanted - n) as nat));
            return wanted;
        } else {
            at = at + step;
            assert forall|m: nat| #[trigger]
                walk_ends(buffer@, at as int, m) == walk_ends(buffer@, 0, (n + m) as nat) by {
                assert(walk_ends(buffer@, at_before, m) == walk_ends(buffer@, 0, (n + m) as nat));
            }
        }
    }
    assert(walk_ends(buffer@, at as int, (wanted - n) as nat));
    wanted
}

impl ConfigurationDescriptor {
    /// Calls `ConfigurationDescriptor::iter_interface` of the `embassy-usb-host` crate and collects
    /// what it yields: the interfaces in the bytes after the descriptor, in their order, each with
    /// the bytes up to the next one. The call panics where `interfaces_readable` does not hold.
    #[verifier::external_body]
    pub(crate) fn iter_interface(&self) -> (r: Vec<InterfaceDescriptor>)
        requires
            interfaces_readable(self.buffer@),
        ensures
            r@.map_values(|d: InterfaceDescriptor| d@) == interfaces_in(self.buffer@),
    {
        embassy_usb_host::descriptor::ConfigurationDescriptor {
            len: self.len, descriptor_type: self.descriptor_type, total_len: self.total_len,
            num_interfaces: self.num_interfaces, configuration_value: self.configuration_value,
            configuration_name: self.configuration_name, attributes: self.attributes,
            max_power: self.max_power, buffer: &self.buffer,
        }.iter_interface().map(|i| InterfaceDescriptor {
            len: i.len, descriptor_type: i.descriptor_type, interface_number: i.interface_number,
            alternate_setting: i.alternate_setting, num_endpoints: i.num_endpoints,
            interface_class: i.interface_class, interface_subclass: i.interface_subclass,
            interface_protocol: i.interface_protocol, interface_name: i.interface_name,
            buffer: i.buffer.to_vec(),
        }).collect()
    }
}

impl InterfaceDescriptor {
    /// Calls `InterfaceDescriptor::iter_endpoints` of the `embassy-usb-host` crate and collects
    /// what it yields first, `n` endpoints at most: the endpoints in the bytes after the
    /// descriptor, in their order, as many as the descriptor claims. The call does not return where
    /// the walk to `n` endpoints does not end.
    #[verifier::external_body]
    pub(crate) fn iter_endpoints(&self, n: usize) -> (r: Vec<EndpointDescriptor>)
        requires
            n <= self.num_endpoints,
            walk_ends(self.buffer@, 0, n as nat),
        ensures
            r@ == first_of(endpoints_in(self.num_endpoints, self.buffer@), n as nat),
    {
        embassy_usb_host::descriptor::InterfaceDescriptor {
            len: self.len, descriptor_type: self.descriptor_type,
            interface_number: self.interface_number, alternate_setting: self.alternate_setting,
            num_endpoints: self.num_endpoints, interface_class: self.interface_class,
            interface_subclass: self.interface_subclass,
            interface_protocol: self.interface_protocol, interface_name: self.interface_name,
            buffer: &self.buffer,
        }.iter_endpoints().take(n).map(|e| EndpointDescriptor {
            len: e.len, descriptor_type: e.descriptor_type, endpoint_address: e.endpoint_address,
            attributes: e.attributes, max_packet_size: e.max_packet_size, interval: e.interval,
        }).collect()
    }
}

} // verus!
