//! Taking a mass storage device into service.

use vstd::prelude::*;

use crate::descriptor::{
    check_interfaces, endpoints_in, interfaces_in, interfaces_readable, lemma_endpoints_bounded,
    lemma_walk_monotone, walk_ends, walk_reach, ConfigurationDescriptor, EndpointDescriptor,
    EndpointDirection, EndpointInfo, EndpointType, Interface, InterfaceDescriptor, Speed,
};
use crate::fault::Fault;

verus! {

/// What a mass storage device reports between transfers: nothing, so this type has no values.
#[derive(Debug)]
pub enum MscEvent {
    Never(core::convert::Infallible),
}

/// The outcome of waiting for a device.
#[derive(Debug)]
pub enum HandlerEvent {
    NoChange,
    HandlerDisconnected,
    HandlerEvent(MscEvent),
}

/// Whether an interface is a mass storage interface that takes SCSI commands over bulk endpoints.
pub open spec fn is_storage(i: Interface) -> bool {
    i.interface_class == 0x08 && i.interface_subclass == 0x06 && i.interface_protocol == 0x50
}

/// Whether an endpoint is a bulk endpoint of direction `d`.
pub open spec fn is_bulk(e: EndpointDescriptor, d: EndpointDirection) -> bool {
    e.transfer_type() == EndpointType::Bulk && e.direction() == d
}

/// The position of the first mass storage interface, or the number of interfaces if there is none.
pub open spec fn first_storage(s: Seq<Interface>) -> nat
    decreases s.len(),
{
    if s.len() == 0 || is_storage(s[0]) {
        0
    } else {
        1 + first_storage(s.skip(1))
    }
}

/// The position of the first bulk endpoint of direction `d`, or the number of endpoints if there is
/// none.
pub open spec fn first_bulk(s: Seq<EndpointDescriptor>, d: EndpointDirection) -> nat
    decreases s.len(),
{
    if s.len() == 0 || is_bulk(s[0], d) {
        0
    } else {
        1 + first_bulk(s.skip(1), d)
    }
}

/// What a search for an endpoint comes to.
#[derive(Clone, Copy, PartialEq, Eq, Structural, Debug)]
pub enum Search {
    Found(EndpointDescriptor),
    Missing,
    /// The search never ends.
    Endless,
}

/// How many endpoints a search has to see before it knows what stands at position `k` of an
/// interface that claims `num_endpoints` of them.
pub open spec fn seen_for(k: nat, num_endpoints: u8) -> nat {
    if k < num_endpoints {
        k + 1
    } else {
        num_endpoints as nat
    }
}

/// What the search for the first bulk endpoint of direction `d` comes to.
pub open spec fn endpoint_search(i: Interface, d: EndpointDirection) -> Search {
    let endpoints = endpoints_in(i.num_endpoints, i.buffer);
    let k = first_bulk(endpoints, d);
    if !walk_ends(i.buffer, 0, seen_for(k, i.num_endpoints)) {
        Search::Endless
    } else if k < endpoints.len() {
        Search::Found(endpoints[k as int])
    } else {
        Search::Missing
    }
}

/// What the descriptors of a device offer.
#[derive(Clone, Copy, PartialEq, Eq, Structural, Debug)]
pub enum Selection {
    /// The endpoints to use.
    Endpoints { bulk_in: EndpointInfo, bulk_out: EndpointInfo },
    /// No mass storage interface, or one without a bulk endpoint of each direction.
    Unsupported,
    /// The descriptors cannot be read.
    Unreadable(Fault),
}

/// What the bytes after a configuration descriptor offer: the first bulk endpoint of each direction
/// of the first mass storage interface.
pub open spec fn selection(buffer: Seq<u8>) -> Selection {
    let interfaces = interfaces_in(buffer);
    let k = first_storage(interfaces);
    if !interfaces_readable(buffer) {
        Selection::Unreadable(Fault::BrokenDescriptors)
    } else if k >= interfaces.len() {
        Selection::Unsupported
    } else {
        match endpoint_search(interfaces[k as int], EndpointDirection::In) {
            Search::Endless => Selection::Unreadable(Fault::EndlessDescriptors),
            Search::Missing => Selection::Unsupported,
            Search::Found(i) => {
                match endpoint_search(interfaces[k as int], EndpointDirection::Out) {
                    Search::Endless => Selection::Unreadable(Fault::EndlessDescriptors),
                    Search::Missing => Selection::Unsupported,
                    Search::Found(o) => Selection::Endpoints {
                        bulk_in: i.as_info(),
                        bulk_out: o.as_info(),
                    },
                }
            },
        }
    }
}

/// `first_storage` is where the first mass storage interface stands.
pub proof fn lemma_first_storage(s: Seq<Interface>)
    ensures
        first_storage(s) <= s.len(),
        first_storage(s) < s.len() ==> is_storage(s[first_storage(s) as int]),
        forall|j: int| 0 <= j < first_storage(s) ==> !is_storage(#[trigger] s[j]),
    decreases s.len(),
{
    if s.len() > 0 && !is_storage(s[0]) {
        let rest = s.skip(1);
        lemma_first_storage(rest);
        assert forall|j: int| 0 <= j < first_storage(s) implies !is_storage(#[trigger] s[j]) by {
            if j > 0 {
                assert(s[j] == rest[j - 1]);
            }
        }
    }
}

/// `first_bulk` is where the first bulk endpoint of direction `d` stands.
pub proof fn lemma_first_bulk(s: Seq<EndpointDescriptor>, d: EndpointDirection)
    ensures
        first_bulk(s, d) <= s.len(),
        first_bulk(s, d) < s.len() ==> is_bulk(s[first_bulk(s, d) as int], d),
        forall|j: int| 0 <= j < first_bulk(s, d) ==> !is_bulk(#[trigger] s[j], d),
    decreases s.len(),
{
    if s.len() > 0 && !is_bulk(s[0], d) {
        let rest = s.skip(1);
        lemma_first_bulk(rest, d);
        assert forall|j: int| 0 <= j < first_bulk(s, d) implies !is_bulk(#[trigger] s[j], d) by {
            if j > 0 {
                assert(s[j] == rest[j - 1]);
            }
        }
    }
}

/// The position of the first mass storage interface, or the number of interfaces if there is none.
pub fn pick_interface(interfaces: &[InterfaceDescriptor]) -> (k: usize)
    ensures
        k == first_storage(interfaces@.map_values(|d: InterfaceDescriptor| d@)),
{
    let ghost seq = interfaces@.map_values(|d: InterfaceDescriptor| d@);
    proof {
        lemma_first_storage(seq);
    }
    let mut k: usize = 0;
    while k < interfaces.len()
        invariant
            k <= interfaces@.len(),
            seq == interfaces@.map_values(|d: InterfaceDescriptor| d@),
            forall|j: int| 0 <= j < k ==> !is_storage(#[trigger] seq[j]),
            first_storage(seq) <= seq.len(),
            first_storage(seq) < seq.len() ==> is_storage(seq[first_storage(seq) as int]),
            forall|j: int| 0 <= j < first_storage(seq) ==> !is_storage(#[trigger] seq[j]),
        decreases interfaces@.len() - k,
    {
        assert(seq[k as int] == interfaces@[k as int]@);
        let i = &interfaces[k];
        if i.interface_class == 0x08 && i.interface_subclass == 0x06 && i.interface_protocol
            == 0x50 {
            return k;
        }
        k = k + 1;
    }
    k
}

/// Whether an endpoint is a bulk endpoint of direction `d`.
pub fn check_bulk(e: &EndpointDescriptor, d: EndpointDirection) -> (ok: bool)
    ensures
        ok == is_bulk(*e, d),
{
    e.ep_type() == EndpointType::Bulk && e.ep_dir() == d
}

/// The position of the first bulk endpoint of direction `d`, or the number of endpoints if there is
/// none.
pub fn pick_endpoint(endpoints: &[EndpointDescriptor], d: EndpointDirection) -> (k: usize)
    ensures
        k == first_bulk(endpoints@, d),
{
    proof {
        lemma_first_bulk(endpoints@, d);
    }
    let mut k: usize = 0;
    while k < endpoints.len()
        invariant
            k <= endpoints@.len(),
            forall|j: int| 0 <= j < k ==> !is_bulk(#[trigger] endpoints@[j], d),
            first_bulk(endpoints@, d) <= endpoints@.len(),
            first_bulk(endpoints@, d) < endpoints@.len() ==> is_bulk(
                endpoints@[first_bulk(endpoints@, d) as int],
                d,
            ),
            forall|j: int|
                0 <= j < first_bulk(endpoints@, d) ==> !is_bulk(#[trigger] endpoints@[j], d),
        decreases endpoints@.len() - k,
    {
        if check_bulk(&endpoints[k], d) {
            return k;
        }
        k = k + 1;
    }
    k
}

/// Searches an interface for its first bulk endpoint of direction `d`.
pub fn find_endpoint(i: &InterfaceDescriptor, d: EndpointDirection) -> (s: Search)
    ensures
        s == endpoint_search(i@, d),
{
    let ghost endpoints = endpoints_in(i.num_endpoints, i.buffer@);
    let ghost first = first_bulk(endpoints, d);
    let ghost wanted = seen_for(first, i.num_endpoints);
    let n: usize = walk_reach(&i.buffer, i.num_endpoints as usize);
    let seen = i.iter_endpoints(n);
    let k: usize = pick_endpoint(&seen, d);
    proof {
        lemma_endpoints_bounded(i.buffer@, 0, i.num_endpoints as nat);
        lemma_first_bulk(endpoints, d);
        lemma_first_bulk(seen@, d);
        if first < seen@.len() {
            assert(seen@[first as int] == endpoints[first as int]);
        }
        if wanted <= n {
            lemma_walk_monotone(i.buffer@, 0, wanted, n as nat);
        } else if walk_ends(i.buffer@, 0, wanted) {
            lemma_walk_monotone(i.buffer@, 0, (n + 1) as nat, wanted);
        }
    }
    if k < seen.len() {
        assert(endpoints[k as int] == seen@[k as int]);
        Search::Found(seen[k])
    } else if seen.len() < n || n == i.num_endpoints as usize {
        Search::Missing
    } else {
        Search::Endless
    }
}

/// Picks the endpoints to use from a configuration descriptor.
pub fn select(configuration: &ConfigurationDescriptor) -> (s: Selection)
    ensures
        s == selection(configuration.buffer@),
{
    if !check_interfaces(&configuration.buffer) {
        return Selection::Unreadable(Fault::BrokenDescriptors);
    }
    let interfaces = configuration.iter_interface();
    let ghost seq = interfaces@.map_values(|d: InterfaceDescriptor| d@);
    let k: usize = pick_interface(&interfaces);
    if k >= interfaces.len() {
        return Selection::Unsupported;
    }
    assert(seq[k as int] == interfaces@[k as int]@);
    let bulk_in = match find_endpoint(&interfaces[k], EndpointDirection::In) {
        Search::Endless => {
            return Selection::Unreadable(Fault::EndlessDescriptors);
        },
        Search::Missing => {
            return Selection::Unsupported;
        },
        Search::Found(e) => e,
    };
    let bulk_out = match find_endpoint(&interfaces[k], EndpointDirection::Out) {
        Search::Endless => {
            return Selection::Unreadable(Fault::EndlessDescriptors);
        },
        Search::Missing => {
            return Selection::Unsupported;
        },
        Search::Found(e) => e,
    };
    Selection::Endpoints { bulk_in: bulk_in.info(), bulk_out: bulk_out.info() }
}

/// What enumeration found out about a device.
#[derive(Clone, Copy, PartialEq, Eq, Structural, Debug)]
pub struct EnumerationInfo {
    pub device_address: u8,
    pub speed: Speed,
    /// The packet size of the control endpoint that the device descriptor gives.
    pub max_packet_size0: u8,
    /// Whether a low speed device is reached over a full speed hub.
    pub ls_over_fs: bool,
}

impl EnumerationInfo {
    /// What the control channel is made from: endpoint 0, with the packet size of the device
    /// descriptor unless the speed of the device allows less.
    pub open spec fn control_endpoint(self) -> EndpointInfo {
        let limit = self.speed.largest_packet();
        EndpointInfo {
            addr: 0,
            ep_type: EndpointType::Control,
            max_packet_size: if self.max_packet_size0 < limit {
                self.max_packet_size0 as u16
            } else {
                limit
            },
            interval_ms: 0,
        }
    }
}

/// Class, subclass and protocol that a device must have.
#[derive(Clone, Copy, PartialEq, Eq, Structural, Debug)]
pub struct DeviceFilter {
    pub device_class: u8,
    pub device_subclass: u8,
    pub device_protocol: u8,
}

/// Which devices a handler takes.
#[derive(Clone, Copy, PartialEq, Eq, Structural, Debug)]
pub struct StaticHandlerSpec {
    pub device_filter: Option<DeviceFilter>,
}

/// The channels of a mass storage device that is in service.
#[derive(Clone, Copy, PartialEq, Eq, Structural, Debug)]
pub struct MscHandler {
    /// The channel that brings data and status.
    pub bulk_in: EndpointInfo,
    /// The channel that takes commands and data.
    pub bulk_out: EndpointInfo,
    /// The control channel, which stays open.
    pub control: EndpointInfo,
}

/// Why a device is not taken into service.
#[derive(Debug)]
pub enum RegisterError<E> {
    /// It offers no mass storage interface with a bulk endpoint of each direction.
    NoSupportedInterface,
    /// The host reported an error.
    HostError(E),
}

/// The channels that registration opens.
#[derive(Clone, Copy, PartialEq, Eq, Structural, Debug)]
pub enum Channel {
    Control,
    BulkIn,
    BulkOut,
}

/// What the host is to do next to take a device into service.
#[derive(Clone, Copy, PartialEq, Eq, Structural, Debug)]
pub enum RegisterAction {
    /// Open a channel to an endpoint of the device.
    Alloc { channel: Channel, device_address: u8, endpoint: EndpointInfo, ls_over_fs: bool },
    /// Read the active configuration over the control channel, or make the default one active and
    /// read that, with a buffer of `buffer_len` bytes.
    ReadConfiguration { buffer_len: usize },
    /// Make the configuration with this value active.
    SetConfiguration(u8),
}

/// What came of it.
pub enum RegisterEvent<E> {
    /// The channel is open, or the configuration is set.
    Done,
    /// The configuration that was read.
    Configuration(ConfigurationDescriptor),
    /// The host reported an error.
    Failed(E),
}

/// How far registration has come: the action that is under way.
#[derive(Clone, Copy, PartialEq, Eq, Structural, Debug)]
pub enum RegisterStage {
    AllocControl,
    ReadConfiguration,
    SetConfiguration { value: u8, bulk_in: EndpointInfo, bulk_out: EndpointInfo },
    AllocBulkIn { bulk_in: EndpointInfo, bulk_out: EndpointInfo },
    AllocBulkOut { bulk_in: EndpointInfo, bulk_out: EndpointInfo },
}

/// A registration under way.
#[derive(Clone, Copy, PartialEq, Eq, Structural, Debug)]
pub struct Registration {
    pub info: EnumerationInfo,
    pub stage: RegisterStage,
}

/// Where a registration stands after an event.
pub enum RegisterProgress<E> {
    /// There is more to do.
    Continue(Registration),
    /// The device is in service.
    Registered(MscHandler),
    /// The device is not taken.
    Refused(RegisterError<E>),
    /// The descriptors of the device cannot be read.
    Halt(Fault),
}

impl MscHandler {
    /// Which devices this handler takes: it looks at any.
    pub fn static_spec() -> (s: StaticHandlerSpec)
        ensures
            s.device_filter is None,
    {
        StaticHandlerSpec { device_filter: None }
    }

    /// Starts to take a device into service. The control channel comes first.
    pub fn try_register(info: EnumerationInfo) -> (r: Registration)
        ensures
            r == (Registration { info, stage: RegisterStage::AllocControl }),
    {
        Registration { info, stage: RegisterStage::AllocControl }
    }

    /// Waits for the device to report something, which it never does.
    pub fn wait_for_event<E>(&mut self) -> (r: Result<HandlerEvent, E>)
        ensures
            r matches Ok(e) && e is NoChange,
            *final(self) == *old(self),
    {
        Ok(HandlerEvent::NoChange)
    }
}

impl Registration {
    /// The action under way.
    pub open spec fn pending(self) -> RegisterAction {
        let (device_address, ls_over_fs) = (self.info.device_address, self.info.ls_over_fs);
        match self.stage {
            RegisterStage::AllocControl => RegisterAction::Alloc {
                channel: Channel::Control,
                device_address,
                endpoint: self.info.control_endpoint(),
                ls_over_fs,
            },
            RegisterStage::ReadConfiguration => RegisterAction::ReadConfiguration {
                buffer_len: 512,
            },
            RegisterStage::SetConfiguration { value, .. } => RegisterAction::SetConfiguration(
                value,
            ),
            RegisterStage::AllocBulkIn { bulk_in, .. } => RegisterAction::Alloc {
                channel: Channel::BulkIn,
                device_address,
                endpoint: bulk_in,
                ls_over_fs,
            },
            RegisterStage::AllocBulkOut { bulk_out, .. } => RegisterAction::Alloc {
                channel: Channel::BulkOut,
                device_address,
                endpoint: bulk_out,
                ls_over_fs,
            },
        }
    }

    /// Whether `event` can come of the action under way.
    pub open spec fn expects<E>(self, event: RegisterEvent<E>) -> bool {
        match event {
            RegisterEvent::Done => !(self.stage is ReadConfiguration),
            RegisterEvent::Configuration(_) => self.stage is ReadConfiguration,
            RegisterEvent::Failed(_) => true,
        }
    }

    /// The registration at another stage.
    pub open spec fn at(self, stage: RegisterStage) -> Registration {
        Registration { info: self.info, stage }
    }

    /// Where the registration stands after `event`: any failure ends it with the error that the
    /// host reported, and otherwise the stages follow one another.
    pub open spec fn after<E>(self, event: RegisterEvent<E>) -> RegisterProgress<E> {
        match event {
            RegisterEvent::Failed(e) => RegisterProgress::Refused(RegisterError::HostError(e)),
            RegisterEvent::Configuration(c) => match selection(c.buffer@) {
                Selection::Unreadable(f) => RegisterProgress::Halt(f),
                Selection::Unsupported => RegisterProgress::Refused(
                    RegisterError::NoSupportedInterface,
                ),
                Selection::Endpoints { bulk_in, bulk_out } => RegisterProgress::Continue(
                    self.at(
                        RegisterStage::SetConfiguration {
                            value: c.configuration_value,
                            bulk_in,
                            bulk_out,
                        },
                    ),
                ),
            },
            RegisterEvent::Done => match self.stage {
                RegisterStage::AllocControl | RegisterStage::ReadConfiguration =>
                    RegisterProgress::Continue(self.at(RegisterStage::ReadConfiguration)),
                RegisterStage::SetConfiguration { bulk_in, bulk_out, .. } =>
                    RegisterProgress::Continue(
                        self.at(RegisterStage::AllocBulkIn { bulk_in, bulk_out }),
                    ),
                RegisterStage::AllocBulkIn { bulk_in, bulk_out } => RegisterProgress::Continue(
                    self.at(RegisterStage::AllocBulkOut { bulk_in, bulk_out }),
                ),
                RegisterStage::AllocBulkOut { bulk_in, bulk_out } => RegisterProgress::Registered(
                    MscHandler { bulk_in, bulk_out, control: self.info.control_endpoint() },
                ),
            },
        }
    }

    /// What the control channel is made from.
    fn control_endpoint(&self) -> (e: EndpointInfo)
        ensures
            e == self.info.control_endpoint(),
    {
        let size: u16 = self.info.max_packet_size0 as u16;
        let limit: u16 = self.info.speed.max_packet_size();
        EndpointInfo {
            addr: 0,
            ep_type: EndpointType::Control,
            max_packet_size: if size < limit {
                size
            } else {
                limit
            },
            interval_ms: 0,
        }
    }

    /// The action that the host is to take now.
    pub fn action(&self) -> (a: RegisterAction)
        ensures
            a == self.pending(),
    {
        let device_address: u8 = self.info.device_address;
        let ls_over_fs = self.info.ls_over_fs;
        match self.stage {
            RegisterStage::AllocControl => RegisterAction::Alloc {
                channel: Channel::Control,
                device_address,
                endpoint: self.control_endpoint(),
                ls_over_fs,
            },
            RegisterStage::ReadConfiguration => RegisterAction::ReadConfiguration {
                buffer_len: 512,
            },
            RegisterStage::SetConfiguration { value, .. } => RegisterAction::SetConfiguration(
                value,
            ),
            RegisterStage::AllocBulkIn { bulk_in, .. } => RegisterAction::Alloc {
                channel: Channel::BulkIn,
                device_address,
                endpoint: bulk_in,
                ls_over_fs,
            },
            RegisterStage::AllocBulkOut { bulk_out, .. } => RegisterAction::Alloc {
                channel: Channel::BulkOut,
                device_address,
                endpoint: bulk_out,
                ls_over_fs,
            },
        }
    }

    /// Takes the registration on after the action under way has come to `event`.
    pub fn advance<E>(self, event: RegisterEvent<E>) -> (p: RegisterProgress<E>)
        requires
            self.expects(event),
        ensures
            p == self.after(event),
    {
        let info = self.info;
        match event {
            RegisterEvent::Failed(e) => RegisterProgress::Refused(RegisterError::HostError(e)),
            RegisterEvent::Configuration(c) => match select(&c) {
                Selection::Unreadable(f) => RegisterProgress::Halt(f),
                Selection::Unsupported => RegisterProgress::Refused(
                    RegisterError::NoSupportedInterface,
                ),
                Selection::Endpoints { bulk_in, bulk_out } => {
                    let value: u8 = c.configuration_value;
                    let stage = RegisterStage::SetConfiguration { value, bulk_in, bulk_out };
                    RegisterProgress::Continue(Registration { info, stage })
                },
            },
            RegisterEvent::Done => match self.stage {
                RegisterStage::AllocControl | RegisterStage::ReadConfiguration => {
                    let stage = RegisterStage::ReadConfiguration;
                    RegisterProgress::Continue(Registration { info, stage })
                },
                RegisterStage::SetConfiguration { bulk_in, bulk_out, .. } => {
                    let stage = RegisterStage::AllocBulkIn { bulk_in, bulk_out };
                    RegisterProgress::Continue(Registration { info, stage })
                },
                RegisterStage::AllocBulkIn { bulk_in, bulk_out } => {
                    let stage = RegisterStage::AllocBulkOut { bulk_in, bulk_out };
                    RegisterProgress::Continue(Registration { info, stage })
                },
                RegisterStage::AllocBulkOut { bulk_in, bulk_out } => {
                    let control = self.control_endpoint();
                    RegisterProgress::Registered(MscHandler { bulk_in, bulk_out, control })
                },
            },
        }
    }
}

} // verus!
