//! Which endpoints a device is used through, and how it is taken into service.

use vstd::prelude::*;

use crate::descriptor::{
    endpoint_at, endpoints_from, endpoints_in, interfaces_in, interfaces_readable,
    lemma_endpoints_bounded, walk_ends, EndpointDirection, EndpointInfo, EndpointType, Interface,
};
use crate::fault::Fault;
use crate::laws::descriptors::{
    law_endpoint_info, law_endpoint_kind, law_first_bulk, law_first_storage,
};
use crate::msc::{
    endpoint_search, first_bulk, first_storage, is_bulk, is_storage, lemma_first_bulk,
    lemma_first_storage, selection, Channel, EnumerationInfo, RegisterAction, RegisterError,
    RegisterEvent, RegisterProgress, RegisterStage, Registration, Search, Selection,
};

verus! {

/// A walk that meets more than `k` endpoints ends for `k + 1` of them.
proof fn lemma_walk_meets(buffer: Seq<u8>, at: int, left: nat, k: nat)
    requires
        k < endpoints_from(buffer, at, left).len(),
    ensures
        walk_ends(buffer, at, k + 1),
    decreases left, buffer.len() + 0x100 - at,
{
    if endpoint_at(buffer, at) {
        if k > 0 {
            lemma_walk_meets(buffer, at + buffer[at], (left - 1) as nat, (k - 1) as nat);
        } else {
            assert(walk_ends(buffer, at + buffer[at], 0));
        }
    } else {
        lemma_walk_meets(buffer, at + buffer[at], left, k);
    }
}

/// A walk that does not meet as many endpoints as it wants ends for all such numbers or for none.
proof fn lemma_walk_exhausted(buffer: Seq<u8>, at: int, left: nat, other: nat)
    requires
        endpoints_from(buffer, at, left).len() < left,
        endpoints_from(buffer, at, left).len() < other,
    ensures
        walk_ends(buffer, at, left) == walk_ends(buffer, at, other),
    decreases left, buffer.len() + 0x100 - at,
{
    if at >= 0 && at + 7 <= buffer.len() {
        if endpoint_at(buffer, at) {
            lemma_walk_exhausted(
                buffer,
                at + buffer[at],
                (left - 1) as nat,
                (other - 1) as nat,
            );
        } else if buffer[at] != 0 {
            lemma_walk_exhausted(buffer, at + buffer[at], left, other);
        }
    }
}

/// The search of an interface for a bulk endpoint of a direction finds the one before which there
/// is none. If there is none at all the search ends with that answer, unless its walk never ends.
pub proof fn law_endpoint_search(i: Interface, d: EndpointDirection, k: int)
    requires
        ({
            let e = endpoints_in(i.num_endpoints, i.buffer);
            &&& 0 <= k <= e.len()
            &&& forall|j: int|
                0 <= j < k ==> !((#[trigger] e[j]).attributes % 4 == 2 && (e[j].endpoint_address
                    >= 0x80 <==> d == EndpointDirection::In))
            &&& k < e.len() ==> e[k].attributes % 4 == 2 && (e[k].endpoint_address >= 0x80 <==> d
                == EndpointDirection::In)
        }),
    ensures
        ({
            let e = endpoints_in(i.num_endpoints, i.buffer);
            &&& k < e.len() ==> endpoint_search(i, d) == Search::Found(e[k])
            &&& k == e.len() && walk_ends(i.buffer, 0, i.num_endpoints as nat) ==> endpoint_search(
                i,
                d,
            ) == Search::Missing
            &&& k == e.len() && !walk_ends(i.buffer, 0, i.num_endpoints as nat) ==> endpoint_search(
                i,
                d,
            ) == Search::Endless
        }),
{
    let e = endpoints_in(i.num_endpoints, i.buffer);
    law_first_bulk(e, d, k);
    lemma_endpoints_bounded(i.buffer, 0, i.num_endpoints as nat);
    if k < e.len() {
        lemma_walk_meets(i.buffer, 0, i.num_endpoints as nat, k as nat);
    } else if k < i.num_endpoints {
        lemma_walk_exhausted(i.buffer, 0, i.num_endpoints as nat, (k + 1) as nat);
    }
}

/// Descriptors that cannot be read, and no others, are broken.
pub proof fn law_broken_descriptors(buffer: Seq<u8>)
    ensures
        selection(buffer) == Selection::Unreadable(Fault::BrokenDescriptors)
            <==> !interfaces_readable(buffer),
{
}

/// A device without a mass storage interface is not supported.
pub proof fn law_no_storage(buffer: Seq<u8>)
    requires
        interfaces_readable(buffer),
        forall|j: int|
            0 <= j < interfaces_in(buffer).len() ==> !((#[trigger] interfaces_in(
                buffer,
            )[j]).interface_class == 8 && interfaces_in(buffer)[j].interface_subclass == 6
                && interfaces_in(buffer)[j].interface_protocol == 80),
    ensures
        selection(buffer) == Selection::Unsupported,
{
    law_first_storage(interfaces_in(buffer), interfaces_in(buffer).len() as int);
}

/// A device is used through two endpoints of its first mass storage interface: the first bulk
/// endpoint in there, and the first bulk endpoint out. Address, packet size and interval are
/// theirs.
pub proof fn law_endpoints_of_the_first_storage_interface(
    buffer: Seq<u8>,
    k: int,
    a: int,
    b: int,
)
    requires
        interfaces_readable(buffer),
        ({
            let s = interfaces_in(buffer);
            let e = endpoints_in(s[k].num_endpoints, s[k].buffer);
            &&& 0 <= k < s.len()
            &&& s[k].interface_class == 8 && s[k].interface_subclass == 6
                && s[k].interface_protocol == 80
            &&& forall|j: int|
                0 <= j < k ==> !((#[trigger] s[j]).interface_class == 8 && s[j].interface_subclass
                    == 6 && s[j].interface_protocol == 80)
            &&& 0 <= a < e.len() && e[a].attributes % 4 == 2 && e[a].endpoint_address >= 0x80
            &&& forall|j: int|
                0 <= j < a ==> !((#[trigger] e[j]).attributes % 4 == 2 && e[j].endpoint_address
                    >= 0x80)
            &&& 0 <= b < e.len() && e[b].attributes % 4 == 2 && e[b].endpoint_address < 0x80
            &&& forall|j: int|
                0 <= j < b ==> !((#[trigger] e[j]).attributes % 4 == 2 && e[j].endpoint_address
                    < 0x80)
        }),
    ensures
        ({
            let s = interfaces_in(buffer);
            let e = endpoints_in(s[k].num_endpoints, s[k].buffer);
            selection(buffer) == (Selection::Endpoints {
                bulk_in: EndpointInfo {
                    addr: e[a].endpoint_address,
                    ep_type: EndpointType::Bulk,
                    max_packet_size: e[a].max_packet_size,
                    interval_ms: e[a].interval,
                },
                bulk_out: EndpointInfo {
                    addr: e[b].endpoint_address,
                    ep_type: EndpointType::Bulk,
                    max_packet_size: e[b].max_packet_size,
                    interval_ms: e[b].interval,
                },
            })
        }),
{
    let s = interfaces_in(buffer);
    let e = endpoints_in(s[k].num_endpoints, s[k].buffer);
    law_first_storage(s, k);
    law_endpoint_search(s[k], EndpointDirection::In, a);
    law_endpoint_search(s[k], EndpointDirection::Out, b);
    law_endpoint_info(e[a]);
    law_endpoint_info(e[b]);
}

/// A device whose first mass storage interface lacks a bulk endpoint of a direction is not
/// supported, unless the walk through its bytes never ends.
pub proof fn law_missing_endpoint(buffer: Seq<u8>, k: int, d: EndpointDirection)
    requires
        interfaces_readable(buffer),
        ({
            let s = interfaces_in(buffer);
            let e = endpoints_in(s[k].num_endpoints, s[k].buffer);
            &&& 0 <= k < s.len()
            &&& s[k].interface_class == 8 && s[k].interface_subclass == 6
                && s[k].interface_protocol == 80
            &&& forall|j: int|
                0 <= j < k ==> !((#[trigger] s[j]).interface_class == 8 && s[j].interface_subclass
                    == 6 && s[j].interface_protocol == 80)
            &&& forall|j: int|
                0 <= j < e.len() ==> !((#[trigger] e[j]).attributes % 4 == 2 && (
                e[j].endpoint_address >= 0x80 <==> d == EndpointDirection::In))
        }),
    ensures
        ({
            let i = interfaces_in(buffer)[k];
            selection(buffer) == (if walk_ends(i.buffer, 0, i.num_endpoints as nat) {
                Selection::Unsupported
            } else {
                Selection::Unreadable(Fault::EndlessDescriptors)
            })
        }),
{
    let s = interfaces_in(buffer);
    let e = endpoints_in(s[k].num_endpoints, s[k].buffer);
    law_first_storage(s, k);
    law_endpoint_search(s[k], d, e.len() as int);
    if d == EndpointDirection::Out {
        lemma_first_bulk(e, EndpointDirection::In);
        let a = first_bulk(e, EndpointDirection::In) as int;
        if a < e.len() {
            law_endpoint_kind(e[a]);
        }
        assert forall|j: int| 0 <= j < a implies !((#[trigger] e[j]).attributes % 4 == 2 && (
        e[j].endpoint_address >= 0x80)) by {
            law_endpoint_kind(e[j]);
        }
        law_endpoint_search(s[k], EndpointDirection::In, a);
    }
}

/// Whenever endpoints are selected they are those of elements of one list, the endpoints of the
/// first mass storage interface, and each is the first there that is a bulk endpoint of its
/// direction. The three numbers are the positions of the interface and of the two endpoints.
pub proof fn law_selected_endpoints_belong(
    buffer: Seq<u8>,
    bulk_in: EndpointInfo,
    bulk_out: EndpointInfo,
) -> (w: (int, int, int))
    requires
        selection(buffer) == (Selection::Endpoints { bulk_in, bulk_out }),
    ensures
        ({
            let (k, a, b) = w;
            let s = interfaces_in(buffer);
            let e = endpoints_in(s[k].num_endpoints, s[k].buffer);
            &&& 0 <= k < s.len()
            &&& s[k].interface_class == 8 && s[k].interface_subclass == 6
                && s[k].interface_protocol == 80
            &&& forall|j: int|
                0 <= j < k ==> !((#[trigger] s[j]).interface_class == 8 && s[j].interface_subclass
                    == 6 && s[j].interface_protocol == 80)
            &&& 0 <= a < e.len() && e[a].attributes % 4 == 2 && e[a].endpoint_address >= 0x80
            &&& e[a].endpoint_address == bulk_in.addr && e[a].max_packet_size
                == bulk_in.max_packet_size && e[a].interval == bulk_in.interval_ms
            &&& forall|j: int|
                0 <= j < a ==> !((#[trigger] e[j]).attributes % 4 == 2 && e[j].endpoint_address
                    >= 0x80)
            &&& 0 <= b < e.len() && e[b].attributes % 4 == 2 && e[b].endpoint_address < 0x80
            &&& e[b].endpoint_address == bulk_out.addr && e[b].max_packet_size
                == bulk_out.max_packet_size && e[b].interval == bulk_out.interval_ms
            &&& forall|j: int|
                0 <= j < b ==> !((#[trigger] e[j]).attributes % 4 == 2 && e[j].endpoint_address
                    < 0x80)
        }),
        bulk_in.ep_type == EndpointType::Bulk,
        bulk_out.ep_type == EndpointType::Bulk,
{
    let s = interfaces_in(buffer);
    lemma_first_storage(s);
    let k = first_storage(s) as int;
    let e = endpoints_in(s[k].num_endpoints, s[k].buffer);
    lemma_first_bulk(e, EndpointDirection::In);
    lemma_first_bulk(e, EndpointDirection::Out);
    let a = first_bulk(e, EndpointDirection::In) as int;
    let b = first_bulk(e, EndpointDirection::Out) as int;
    assert forall|j: int| 0 <= j < k implies !((#[trigger] s[j]).interface_class == 8
        && s[j].interface_subclass == 6 && s[j].interface_protocol == 80) by {
        assert(!is_storage(s[j]));
    }
    assert forall|j: int| 0 <= j < a implies !((#[trigger] e[j]).attributes % 4 == 2
        && e[j].endpoint_address >= 0x80) by {
        law_endpoint_kind(e[j]);
        assert(!is_bulk(e[j], EndpointDirection::In));
    }
    assert forall|j: int| 0 <= j < b implies !((#[trigger] e[j]).attributes % 4 == 2
        && e[j].endpoint_address < 0x80) by {
        law_endpoint_kind(e[j]);
        assert(!is_bulk(e[j], EndpointDirection::Out));
    }
    law_endpoint_kind(e[a]);
    law_endpoint_kind(e[b]);
    (k, a, b)
}

/// The control channel goes to endpoint 0, with packets of the size that the device descriptor
/// gives, but of no more than 8 bytes at low speed and 64 bytes otherwise.
pub proof fn law_control_channel(info: EnumerationInfo)
    ensures
        info.control_endpoint().addr == 0,
        info.control_endpoint().ep_type == EndpointType::Control,
        info.control_endpoint().interval_ms == 0,
        ({
            let limit: int = if info.speed is Low {
                8
            } else {
                64
            };
            info.control_endpoint().max_packet_size == (if info.max_packet_size0 <= limit {
                info.max_packet_size0 as int
            } else {
                limit
            })
        }),
{
}

/// What each stage of registration asks for. Channels are opened to the device that was enumerated,
/// over the same route.
pub proof fn law_what_registration_asks_for(r: Registration)
    ensures
        r.stage is AllocControl ==> (r.pending() matches RegisterAction::Alloc {
            channel,
            device_address,
            endpoint,
            ls_over_fs,
        } && channel == Channel::Control && device_address == r.info.device_address && ls_over_fs
            == r.info.ls_over_fs && endpoint == r.info.control_endpoint() && endpoint.addr == 0),
        r.stage is ReadConfiguration ==> r.pending() == (RegisterAction::ReadConfiguration {
            buffer_len: 512,
        }),
        r.stage matches RegisterStage::SetConfiguration { value, .. } ==> r.pending()
            == RegisterAction::SetConfiguration(value),
        r.stage matches RegisterStage::AllocBulkIn { bulk_in, .. } ==> r.pending() == (
        RegisterAction::Alloc {
            channel: Channel::BulkIn,
            device_address: r.info.device_address,
            endpoint: bulk_in,
            ls_over_fs: r.info.ls_over_fs,
        }),
        r.stage matches RegisterStage::AllocBulkOut { bulk_out, .. } ==> r.pending() == (
        RegisterAction::Alloc {
            channel: Channel::BulkOut,
            device_address: r.info.device_address,
            endpoint: bulk_out,
            ls_over_fs: r.info.ls_over_fs,
        }),
{
}

/// What comes of each event of registration: an error ends it and is passed on, and otherwise the
/// stages follow one another with the device and the endpoints kept.
pub proof fn law_registration_goes_on<E>(r: Registration, event: RegisterEvent<E>)
    ensures
        event matches RegisterEvent::Failed(e) ==> r.after(event) == RegisterProgress::<E>::Refused(
            RegisterError::HostError(e),
        ),
        event is Done && r.stage is AllocControl ==> (r.after(event)
            matches RegisterProgress::Continue(next) && next.info == r.info && next.stage
            is ReadConfiguration),
        event matches RegisterEvent::Configuration(c) ==> match selection(c.buffer@) {
            Selection::Endpoints { bulk_in, bulk_out } => r.after(event)
                matches RegisterProgress::Continue(next) && next.info == r.info && next.stage == (
            RegisterStage::SetConfiguration { value: c.configuration_value, bulk_in, bulk_out }),
            Selection::Unsupported => r.after(event) == RegisterProgress::<E>::Refused(
                RegisterError::NoSupportedInterface,
            ),
            Selection::Unreadable(f) => r.after(event) == RegisterProgress::<E>::Halt(f),
        },
        event is Done ==> (r.stage matches RegisterStage::SetConfiguration {
            bulk_in,
            bulk_out,
            ..
        } ==> (r.after(event) matches RegisterProgress::Continue(next) && next.info == r.info
            && next.stage == (RegisterStage::AllocBulkIn { bulk_in, bulk_out }))),
        event is Done ==> (r.stage matches RegisterStage::AllocBulkIn { bulk_in, bulk_out } ==> (
        r.after(event) matches RegisterProgress::Continue(next) && next.info == r.info && next.stage
            == (RegisterStage::AllocBulkOut { bulk_in, bulk_out }))),
        event is Done ==> (r.stage matches RegisterStage::AllocBulkOut { bulk_in, bulk_out } ==> (
        r.after(event) matches RegisterProgress::Registered(h) && h.bulk_in == bulk_in && h.bulk_out
            == bulk_out && h.control == r.info.control_endpoint() && h.control.addr == 0)),
{
}

} // verus!
