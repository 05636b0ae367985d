//! What the bytes of descriptors mean.
//!
//! The laws on whole buffers speak of a walk: the positions `p[0]`, `p[1]` and so on at which
//! descriptors stand, each as far behind the one before as that one is long, up to `p[n]`, where
//! the walk ends.

use vstd::prelude::*;

use crate::descriptor::{
    endpoint_at, endpoint_fields, endpoints_from, endpoints_in, interface_at, interfaces_from,
    interfaces_in, interfaces_readable, lemma_endpoints_bounded, next_interface, types_readable,
    walk_ends, EndpointDescriptor, EndpointDirection, EndpointType, Interface, InterfaceDescriptor,
    Speed,
};
use crate::msc::{
    first_bulk, first_storage, is_bulk, is_storage, lemma_first_bulk, lemma_first_storage,
};

verus! {

/// The largest packet of the control endpoint at each speed.
pub proof fn law_largest_packets(s: Speed)
    ensures
        s is Low ==> s.largest_packet() == 8,
        s is Full ==> s.largest_packet() == 64,
        s is High ==> s.largest_packet() == 64,
{
}

/// The transfer type of an endpoint is what is left of its attributes on division by four, and its
/// direction is in exactly if its address is 128 or more.
pub proof fn law_endpoint_kind(e: EndpointDescriptor)
    ensures
        e.transfer_type() == EndpointType::Control <==> e.attributes % 4 == 0,
        e.transfer_type() == EndpointType::Isochronous <==> e.attributes % 4 == 1,
        e.transfer_type() == EndpointType::Bulk <==> e.attributes % 4 == 2,
        e.transfer_type() == EndpointType::Interrupt <==> e.attributes % 4 == 3,
        e.direction() == EndpointDirection::In <==> e.endpoint_address >= 0x80,
        e.direction() == EndpointDirection::Out <==> e.endpoint_address < 0x80,
        is_bulk(e, EndpointDirection::In) <==> e.attributes % 4 == 2 && e.endpoint_address >= 0x80,
        is_bulk(e, EndpointDirection::Out) <==> e.attributes % 4 == 2 && e.endpoint_address < 0x80,
{
    let a = e.attributes;
    let b = e.endpoint_address;
    assert(a & 0x03 == a % 4) by (bit_vector);
    assert(b & 0x80 == 0 <==> b < 0x80) by (bit_vector);
}

/// A channel is made from the address, the packet size and the interval of its endpoint, and from
/// its transfer type.
pub proof fn law_endpoint_info(e: EndpointDescriptor)
    ensures
        e.as_info().addr == e.endpoint_address,
        e.as_info().max_packet_size == e.max_packet_size,
        e.as_info().interval_ms == e.interval,
        e.as_info().ep_type == EndpointType::Control <==> e.attributes % 4 == 0,
        e.as_info().ep_type == EndpointType::Isochronous <==> e.attributes % 4 == 1,
        e.as_info().ep_type == EndpointType::Bulk <==> e.attributes % 4 == 2,
        e.as_info().ep_type == EndpointType::Interrupt <==> e.attributes % 4 == 3,
{
    law_endpoint_kind(e);
}

/// A mass storage interface is told by three numbers.
pub proof fn law_storage_interface(i: Interface)
    ensures
        is_storage(i) <==> i.interface_class == 8 && i.interface_subclass == 6
            && i.interface_protocol == 80,
{
}

/// An interface descriptor shows all its fields.
pub proof fn law_interface_shows_all(d: InterfaceDescriptor)
    ensures
        d@.len == d.len,
        d@.descriptor_type == d.descriptor_type,
        d@.interface_number == d.interface_number,
        d@.alternate_setting == d.alternate_setting,
        d@.num_endpoints == d.num_endpoints,
        d@.interface_class == d.interface_class,
        d@.interface_subclass == d.interface_subclass,
        d@.interface_protocol == d.interface_protocol,
        d@.interface_name == d.interface_name,
        d@.buffer == d.buffer@,
{
}

/// The first mass storage interface is the one before which there is none, and if there is none at
/// all the position is the number of interfaces.
pub proof fn law_first_storage(s: Seq<Interface>, k: int)
    requires
        0 <= k <= s.len(),
        forall|j: int|
            0 <= j < k ==> !((#[trigger] s[j]).interface_class == 8 && s[j].interface_subclass == 6
                && s[j].interface_protocol == 80),
        k < s.len() ==> s[k].interface_class == 8 && s[k].interface_subclass == 6
            && s[k].interface_protocol == 80,
    ensures
        first_storage(s) == k,
{
    lemma_first_storage(s);
    if first_storage(s) < k {
        assert(is_storage(s[first_storage(s) as int]));
    }
    if k < first_storage(s) {
        assert(!is_storage(s[k]));
    }
}

/// The first bulk endpoint of a direction is the one before which there is none, and if there is
/// none at all the position is the number of endpoints.
pub proof fn law_first_bulk(s: Seq<EndpointDescriptor>, d: EndpointDirection, k: int)
    requires
        0 <= k <= s.len(),
        forall|j: int|
            0 <= j < k ==> !((#[trigger] s[j]).attributes % 4 == 2 && (s[j].endpoint_address >= 0x80
                <==> d == EndpointDirection::In)),
        k < s.len() ==> s[k].attributes % 4 == 2 && (s[k].endpoint_address >= 0x80 <==> d
            == EndpointDirection::In),
    ensures
        first_bulk(s, d) == k,
{
    lemma_first_bulk(s, d);
    let f = first_bulk(s, d) as int;
    if f < k {
        law_endpoint_kind(s[f]);
        assert(is_bulk(s[f], d));
    }
    if k < f {
        law_endpoint_kind(s[k]);
        assert(!is_bulk(s[k], d));
    }
}

/// A walk over descriptors that are no interfaces comes to the same next interface from anywhere.
proof fn lemma_next_along(buffer: Seq<u8>, p: Seq<int>, i: int, n: int)
    requires
        0 <= i <= n < p.len(),
        forall|j: int| i <= j < n ==> 0 <= #[trigger] p[j] && p[j] < buffer.len(),
        forall|j: int| i <= j < n ==> 0 < #[trigger] buffer[p[j]],
        forall|j: int| i <= j < n ==> p[j] + #[trigger] buffer[p[j]] <= buffer.len(),
        forall|j: int| i <= j < n ==> p[j + 1] == p[j] + #[trigger] buffer[p[j]],
        forall|j: int|
            i <= j < n ==> !(#[trigger] buffer[p[j]] >= 2 && buffer[p[j] + 1] == 4),
    ensures
        next_interface(buffer, p[i]) == next_interface(buffer, p[n]),
    decreases n - i,
{
    if i < n {
        assert(0 < buffer[p[i]]);
        lemma_next_along(buffer, p, i + 1, n);
    }
}

/// The first interface descriptor is the one that the walk comes to, over descriptors that are
/// none. If the walk ends at the end, at a length of zero, or at a descriptor that reaches past the
/// end, there is none.
pub proof fn law_next_interface(buffer: Seq<u8>, p: Seq<int>, n: int)
    requires
        0 <= n,
        p.len() == n + 1,
        p[0] >= 0,
        forall|j: int| 0 <= j < n ==> 0 <= #[trigger] p[j] && p[j] < buffer.len(),
        forall|j: int| 0 <= j < n ==> 0 < #[trigger] buffer[p[j]],
        forall|j: int| 0 <= j < n ==> p[j] + #[trigger] buffer[p[j]] <= buffer.len(),
        forall|j: int| 0 <= j < n ==> p[j + 1] == p[j] + #[trigger] buffer[p[j]],
        forall|j: int|
            0 <= j < n ==> !(#[trigger] buffer[p[j]] >= 2 && buffer[p[j] + 1] == 4),
    ensures
        p[n] >= buffer.len() || buffer[p[n]] == 0 || p[n] + buffer[p[n]] > buffer.len()
            ==> next_interface(buffer, p[0]) == buffer.len(),
        p[n] < buffer.len() && buffer[p[n]] >= 2 && buffer[p[n] + 1] == 4 && p[n] + buffer[p[n]]
            <= buffer.len() ==> next_interface(buffer, p[0]) == p[n],
{
    lemma_next_along(buffer, p, 0, n);
    if n > 0 {
        assert(0 < buffer[p[n - 1]]);
        assert(p[n - 1 + 1] == p[n]);
    }
}

/// A walk over descriptors of two bytes or more that are no interfaces keeps the rest readable or
/// not.
proof fn lemma_readable_along(buffer: Seq<u8>, p: Seq<int>, i: int, n: int)
    requires
        0 <= i <= n < p.len(),
        forall|j: int| i <= j < n ==> 0 <= #[trigger] p[j] && p[j] < buffer.len(),
        forall|j: int| i <= j < n ==> 2 <= #[trigger] buffer[p[j]],
        forall|j: int| i <= j < n ==> p[j] + #[trigger] buffer[p[j]] <= buffer.len(),
        forall|j: int| i <= j < n ==> p[j + 1] == p[j] + #[trigger] buffer[p[j]],
        forall|j: int| i <= j < n ==> buffer[#[trigger] p[j] + 1] != 4,
    ensures
        types_readable(buffer, p[i]) == types_readable(buffer, p[n]),
    decreases n - i,
{
    if i < n {
        assert(2 <= buffer[p[i]]);
        lemma_readable_along(buffer, p, i + 1, n);
    }
}

/// The interfaces in a buffer can be told apart unless the walk from the start comes to a
/// descriptor of a single byte before any interface, or the buffer starts with an interface
/// descriptor that reaches past its end.
pub proof fn law_readable(buffer: Seq<u8>, p: Seq<int>, n: int)
    requires
        0 <= n,
        p.len() == n + 1,
        p[0] == 0,
        forall|j: int| 0 <= j < n ==> 0 <= #[trigger] p[j] && p[j] < buffer.len(),
        forall|j: int| 0 <= j < n ==> 2 <= #[trigger] buffer[p[j]],
        forall|j: int| 0 <= j < n ==> p[j] + #[trigger] buffer[p[j]] <= buffer.len(),
        forall|j: int| 0 <= j < n ==> p[j + 1] == p[j] + #[trigger] buffer[p[j]],
        forall|j: int| 0 <= j < n ==> buffer[#[trigger] p[j] + 1] != 4,
    ensures
        p[n] < buffer.len() && buffer[p[n]] == 1 ==> !interfaces_readable(buffer),
        buffer.len() >= 9 && buffer[1] == 4 && buffer[0] > buffer.len() ==> !interfaces_readable(
            buffer,
        ),
        p[n] >= buffer.len() || buffer[p[n]] == 0 || p[n] + buffer[p[n]] > buffer.len() || (
        buffer[p[n]] >= 2 && buffer[p[n] + 1] == 4) ==> (interfaces_readable(buffer) <==> !(
        buffer.len() >= 9 && buffer[1] == 4 && buffer[0] > buffer.len())),
{
    lemma_readable_along(buffer, p, 0, n);
    if n > 0 {
        assert(2 <= buffer[p[n - 1]]);
        assert(p[n - 1 + 1] == p[n]);
    }
}

/// The next interface from position `p[i]` on is the next of those that `q` lists.
proof fn lemma_next_listed(buffer: Seq<u8>, p: Seq<int>, n: int, q: Seq<int>, i: int, c: int)
    requires
        0 <= i <= n,
        p.len() == n + 1,
        forall|j: int| 0 <= j < n ==> 0 <= #[trigger] p[j] && p[j] < buffer.len(),
        forall|j: int| 0 <= j < n ==> 0 < #[trigger] buffer[p[j]],
        forall|j: int| 0 <= j < n ==> p[j] + #[trigger] buffer[p[j]] <= buffer.len(),
        forall|j: int| 0 <= j < n ==> p[j + 1] == p[j] + #[trigger] buffer[p[j]],
        p[n] >= buffer.len() || buffer[p[n]] == 0 || p[n] + buffer[p[n]] > buffer.len(),
        p[n] >= 0,
        forall|m: int| 0 <= m < q.len() ==> 0 <= #[trigger] q[m] && q[m] < n,
        forall|m: int| 0 <= m < q.len() ==> buffer[p[#[trigger] q[m]]] >= 2,
        forall|m: int| 0 <= m < q.len() ==> buffer[p[#[trigger] q[m]] + 1] == 4,
        forall|m: int, o: int| 0 <= m < o < q.len() ==> q[m] < q[o],
        forall|j: int|
            0 <= j < n && buffer[p[j]] >= 2 && buffer[p[j] + 1] == 4 ==> #[trigger] q.contains(j),
        0 <= c <= q.len(),
        c > 0 ==> q[c - 1] < i,
        c < q.len() ==> i <= q[c],
    ensures
        next_interface(buffer, p[i]) == (if c < q.len() {
            p[q[c]]
        } else {
            buffer.len() as int
        }),
{
    let to = if c < q.len() {
        q[c]
    } else {
        n
    };
    assert forall|j: int| i <= j < to implies !(#[trigger] buffer[p[j]] >= 2 && buffer[p[j] + 1]
        == 4) by {
        if buffer[p[j]] >= 2 && buffer[p[j] + 1] == 4 {
            assert(q.contains(j));
            let m = choose|m: int| 0 <= m < q.len() && q[m] == j;
            if m < c {
                assert(m == c - 1 || q[m] < q[c - 1]);
            } else {
                assert(m == c || q[c] < q[m]);
            }
        }
    }
    lemma_next_along(buffer, p, i, to);
    if c < q.len() {
        assert(0 < buffer[p[to]]);
    }
}

/// The interface that `q` lists at `m`.
spec fn listed_interface(buffer: Seq<u8>, p: Seq<int>, q: Seq<int>, m: int) -> Interface {
    let end = if m + 1 < q.len() {
        p[q[m + 1]]
    } else {
        buffer.len() as int
    };
    interface_at(buffer, p[q[m]], end)
}

/// The interfaces from the one that `q` lists at `c` on.
proof fn lemma_interfaces_listed(
    buffer: Seq<u8>,
    p: Seq<int>,
    n: int,
    q: Seq<int>,
    k: int,
    c: int,
    from: int,
)
    requires
        p.len() == n + 1,
        forall|j: int| 0 <= j < n ==> 0 <= #[trigger] p[j] && p[j] < buffer.len(),
        forall|j: int| 0 <= j < n ==> 0 < #[trigger] buffer[p[j]],
        forall|j: int| 0 <= j < n ==> p[j] + #[trigger] buffer[p[j]] <= buffer.len(),
        forall|j: int| 0 <= j < n ==> p[j + 1] == p[j] + #[trigger] buffer[p[j]],
        p[n] >= buffer.len() || buffer[p[n]] == 0 || p[n] + buffer[p[n]] > buffer.len(),
        p[n] >= 0,
        forall|m: int| 0 <= m < q.len() ==> 0 <= #[trigger] q[m] && q[m] < n,
        forall|m: int| 0 <= m < q.len() ==> buffer[p[#[trigger] q[m]]] >= 2,
        forall|m: int| 0 <= m < q.len() ==> buffer[p[#[trigger] q[m]] + 1] == 4,
        forall|m: int, o: int| 0 <= m < o < q.len() ==> q[m] < q[o],
        forall|j: int|
            0 <= j < n && buffer[p[j]] >= 2 && buffer[p[j] + 1] == 4 ==> #[trigger] q.contains(j),
        0 <= k <= q.len(),
        forall|m: int| 0 <= m < k ==> p[#[trigger] q[m]] + 9 <= buffer.len(),
        k < q.len() ==> p[q[k]] + 9 > buffer.len(),
        0 <= c <= k,
        from == (if c < q.len() {
            p[q[c]]
        } else {
            buffer.len() as int
        }),
    ensures
        interfaces_from(buffer, from).len() == k - c,
        forall|m: int|
            0 <= m < k - c ==> #[trigger] interfaces_from(buffer, from)[m] == listed_interface(
                buffer,
                p,
                q,
                c + m,
            ),
    decreases k - c,
{
    if c < k {
        let at = p[q[c]];
        assert(0 < buffer[p[q[c]]]);
        assert(p[q[c] + 1] == at + buffer[at]);
        assert(c + 1 < q.len() ==> q[c] < q[c + 1]);
        lemma_next_listed(buffer, p, n, q, q[c] + 1, c + 1);
        let end = if c + 1 < q.len() {
            p[q[c + 1]]
        } else {
            buffer.len() as int
        };
        lemma_interfaces_listed(buffer, p, n, q, k, c + 1, end);
        let r = interfaces_from(buffer, at);
        let rest = interfaces_from(buffer, end);
        assert(next_interface(buffer, at + buffer[at]) == end);
        assert(r.skip(1) =~= rest);
        assert(r[0] == listed_interface(buffer, p, q, c));
        assert forall|m: int| 0 <= m < k - c implies #[trigger] r[m] == listed_interface(
            buffer,
            p,
            q,
            c + m,
        ) by {
            if m > 0 {
                assert(rest[m - 1] == listed_interface(buffer, p, q, c + 1 + (m - 1)));
                assert(r[m] == r.skip(1)[m - 1]);
            }
        }
    }
}

/// The interfaces in the bytes after a configuration descriptor are those at which the walk from
/// the start meets interface descriptors, in that order. `q` lists where in the walk these are, and
/// the first `k` of them are whole. Each interface has the fields of its descriptor and the bytes
/// from the end of that descriptor up to the next interface, or up to the end after the last one.
pub proof fn law_interfaces(buffer: Seq<u8>, p: Seq<int>, n: int, q: Seq<int>, k: int)
    requires
        0 < n,
        p.len() == n + 1,
        p[0] == 0,
        buffer[0] >= 2,
        forall|j: int| 0 <= j < n ==> 0 <= #[trigger] p[j] && p[j] < buffer.len(),
        forall|j: int| 0 <= j < n ==> 0 < #[trigger] buffer[p[j]],
        forall|j: int| 0 <= j < n ==> p[j] + #[trigger] buffer[p[j]] <= buffer.len(),
        forall|j: int| 0 <= j < n ==> p[j + 1] == p[j] + #[trigger] buffer[p[j]],
        p[n] >= buffer.len() || buffer[p[n]] == 0 || p[n] + buffer[p[n]] > buffer.len(),
        forall|m: int| 0 <= m < q.len() ==> 0 <= #[trigger] q[m] && q[m] < n,
        forall|m: int| 0 <= m < q.len() ==> buffer[p[#[trigger] q[m]]] >= 2,
        forall|m: int| 0 <= m < q.len() ==> buffer[p[#[trigger] q[m]] + 1] == 4,
        forall|m: int, o: int| 0 <= m < o < q.len() ==> q[m] < q[o],
        forall|j: int|
            0 <= j < n && buffer[p[j]] >= 2 && buffer[p[j] + 1] == 4 ==> #[trigger] q.contains(j),
        0 <= k <= q.len(),
        forall|m: int| 0 <= m < k ==> p[#[trigger] q[m]] + 9 <= buffer.len(),
        k < q.len() ==> p[q[k]] + 9 > buffer.len(),
    ensures
        interfaces_in(buffer).len() == k,
        forall|m: int|
            0 <= m < k ==> #[trigger] interfaces_in(buffer)[m] == (Interface {
                len: buffer[p[q[m]]],
                descriptor_type: 4,
                interface_number: buffer[p[q[m]] + 2],
                alternate_setting: buffer[p[q[m]] + 3],
                num_endpoints: buffer[p[q[m]] + 4],
                interface_class: buffer[p[q[m]] + 5],
                interface_subclass: buffer[p[q[m]] + 6],
                interface_protocol: buffer[p[q[m]] + 7],
                interface_name: buffer[p[q[m]] + 8],
                buffer: buffer.subrange(
                    p[q[m]] + buffer[p[q[m]]],
                    if m + 1 < q.len() {
                        p[q[m + 1]]
                    } else {
                        buffer.len() as int
                    },
                ),
            }),
{
    assert(0 < buffer[p[n - 1]]);
    assert(p[n - 1 + 1] == p[n]);
    lemma_next_listed(buffer, p, n, q, 0, 0);
    let from = if q.len() > 0 {
        p[q[0]]
    } else {
        buffer.len() as int
    };
    lemma_interfaces_listed(buffer, p, n, q, k, 0, from);
    if q.len() == 0 {
        assert(0 < buffer[p[0]]);
        assert(interfaces_from(buffer, 0).len() == 0);
    } else {
        assert(0 < buffer[p[q[0]]]);
    }
    let r = interfaces_in(buffer);
    assert forall|m: int| 0 <= m < k implies #[trigger] r[m] == listed_interface(
        buffer,
        p,
        q,
        m,
    ) && r[m].descriptor_type == 4 by {
        assert(interfaces_from(buffer, from)[m] == listed_interface(buffer, p, q, 0 + m));
        assert(q[m] < n);
    }
}

/// Where no walk starts, because the buffer is empty, or its first descriptor has length zero or
/// reaches past the end, there are no interfaces, unless an interface descriptor of length zero
/// stands there: then that is the only one, and all bytes belong to it.
pub proof fn law_interfaces_without_a_walk(buffer: Seq<u8>)
    requires
        buffer.len() == 0 || buffer[0] == 0 || buffer[0] > buffer.len(),
        !(buffer.len() >= 9 && buffer[1] == 4 && buffer[0] > buffer.len()),
    ensures
        !(buffer.len() >= 9 && buffer[1] == 4) ==> interfaces_in(buffer).len() == 0,
        buffer.len() >= 9 && buffer[1] == 4 ==> interfaces_in(buffer) == seq![
            Interface {
                len: 0,
                descriptor_type: 4,
                interface_number: buffer[2],
                alternate_setting: buffer[3],
                num_endpoints: buffer[4],
                interface_class: buffer[5],
                interface_subclass: buffer[6],
                interface_protocol: buffer[7],
                interface_name: buffer[8],
                buffer,
            },
        ],
{
    if buffer.len() >= 9 && buffer[1] == 4 {
        assert(next_interface(buffer, 0) == buffer.len());
        assert(interfaces_from(buffer, buffer.len() as int).len() == 0);
        assert(buffer.subrange(0, buffer.len() as int) =~= buffer);
        assert(interfaces_in(buffer) =~= seq![
            Interface {
                len: 0,
                descriptor_type: 4,
                interface_number: buffer[2],
                alternate_setting: buffer[3],
                num_endpoints: buffer[4],
                interface_class: buffer[5],
                interface_subclass: buffer[6],
                interface_protocol: buffer[7],
                interface_name: buffer[8],
                buffer,
            },
        ]);
    }
}

/// The endpoints from position `p[i]` on are those that `q` lists from `c` on.
proof fn lemma_endpoints_listed(
    buffer: Seq<u8>,
    p: Seq<int>,
    n: int,
    q: Seq<int>,
    i: int,
    c: int,
    left: nat,
)
    requires
        0 <= i <= n,
        p.len() == n + 1,
        forall|j: int| 0 <= j < n ==> 0 <= #[trigger] p[j] && p[j] + 7 <= buffer.len(),
        forall|j: int| 0 <= j < n ==> p[j + 1] == p[j] + #[trigger] buffer[p[j]],
        forall|j: int|
            0 <= j < n ==> #[trigger] buffer[p[j]] > 0 || (buffer[p[j] + 1] == 5 && p[j]
                + buffer[p[j]] <= buffer.len()),
        p[n] >= 0,
        forall|m: int| 0 <= m < q.len() ==> 0 <= #[trigger] q[m] && q[m] < n,
        forall|m: int| 0 <= m < q.len() ==> buffer[p[#[trigger] q[m]] + 1] == 5,
        forall|m: int|
            0 <= m < q.len() ==> p[#[trigger] q[m]] + buffer[p[q[m]]] <= buffer.len(),
        forall|m: int, o: int| 0 <= m < o < q.len() ==> q[m] < q[o],
        forall|j: int|
            0 <= j < n && p[j] + buffer[p[j]] <= buffer.len() && buffer[p[j] + 1] == 5
                ==> #[trigger] q.contains(j),
        0 <= c <= q.len(),
        c > 0 ==> q[c - 1] < i,
        c < q.len() ==> i <= q[c],
    ensures
        ({
            let r = endpoints_from(buffer, p[i], left);
            &&& r.len() >= left || r.len() >= q.len() - c
            &&& forall|m: int|
                0 <= m < left && c + m < q.len() ==> #[trigger] r[m] == endpoint_fields(
                    buffer,
                    p[q[c + m]],
                )
            &&& p[n] + 7 > buffer.len() || (buffer[p[n]] == 0 && buffer[p[n] + 1] != 5)
                ==> r.len() == (if q.len() - c < left {
                q.len() - c
            } else {
                left as int
            })
        }),
        q.len() - c >= left || p[n] + 7 > buffer.len() ==> walk_ends(buffer, p[i], left),
        q.len() - c < left && p[n] + 7 <= buffer.len() && buffer[p[n]] == 0 && buffer[p[n] + 1] != 5
            ==> !walk_ends(buffer, p[i], left),
    decreases n - i,
{
    if left > 0 && i < n {
        let step = buffer[p[i]];
        assert(p[i + 1] == p[i] + step);
        if endpoint_at(buffer, p[i]) {
            assert(q.contains(i));
            let m = choose|m: int| 0 <= m < q.len() && q[m] == i;
            if m < c {
                assert(m == c - 1 || q[m] < q[c - 1]);
            } else {
                assert(m == c || q[c] < q[m]);
            }
            assert(q[c] == i);
            assert(c + 1 < q.len() ==> q[c] < q[c + 1]);
            lemma_endpoints_listed(buffer, p, n, q, i + 1, c + 1, (left - 1) as nat);
            let r = endpoints_from(buffer, p[i], left);
            let rest = endpoints_from(buffer, p[i + 1], (left - 1) as nat);
            assert(r.skip(1) =~= rest);
            assert(r[0] == endpoint_fields(buffer, p[q[c]]));
            assert forall|m: int| 0 <= m < left && c + m < q.len() implies #[trigger] r[m]
                == endpoint_fields(buffer, p[q[c + m]]) by {
                if m > 0 {
                    assert(rest[m - 1] == endpoint_fields(buffer, p[q[c + 1 + (m - 1)]]));
                    assert(r[m] == r.skip(1)[m - 1]);
                }
            }
        } else {
            if c < q.len() {
                assert(q[c] != i);
            }
            lemma_endpoints_listed(buffer, p, n, q, i + 1, c, left);
        }
    }
}

/// The endpoints of an interface are those at which the walk through its bytes meets endpoint
/// descriptors that end inside them, in that order, and no more than the interface claims. `q`
/// lists where in the walk these are. Each has the fields of its descriptor, the packet size with
/// its least significant byte first. The walk ends where fewer than seven bytes are left.
pub proof fn law_endpoints(buffer: Seq<u8>, p: Seq<int>, n: int, q: Seq<int>, num_endpoints: u8)
    requires
        0 <= n,
        p.len() == n + 1,
        p[0] == 0,
        forall|j: int| 0 <= j < n ==> 0 <= #[trigger] p[j] && p[j] + 7 <= buffer.len(),
        forall|j: int| 0 <= j < n ==> p[j + 1] == p[j] + #[trigger] buffer[p[j]],
        forall|j: int|
            0 <= j < n ==> #[trigger] buffer[p[j]] > 0 || (buffer[p[j] + 1] == 5 && p[j]
                + buffer[p[j]] <= buffer.len()),
        forall|m: int| 0 <= m < q.len() ==> 0 <= #[trigger] q[m] && q[m] < n,
        forall|m: int| 0 <= m < q.len() ==> buffer[p[#[trigger] q[m]] + 1] == 5,
        forall|m: int|
            0 <= m < q.len() ==> p[#[trigger] q[m]] + buffer[p[q[m]]] <= buffer.len(),
        forall|m: int, o: int| 0 <= m < o < q.len() ==> q[m] < q[o],
        forall|j: int|
            0 <= j < n && p[j] + buffer[p[j]] <= buffer.len() && buffer[p[j] + 1] == 5
                ==> #[trigger] q.contains(j),
    ensures
        endpoints_in(num_endpoints, buffer).len() <= num_endpoints,
        forall|m: int|
            0 <= m < num_endpoints && m < q.len() ==> m < endpoints_in(num_endpoints, buffer).len()
                && #[trigger] endpoints_in(num_endpoints, buffer)[m] == (EndpointDescriptor {
                len: buffer[p[q[m]]],
                descriptor_type: 5,
                endpoint_address: buffer[p[q[m]] + 2],
                attributes: buffer[p[q[m]] + 3],
                max_packet_size: (buffer[p[q[m]] + 4] + 0x100 * buffer[p[q[m]] + 5]) as u16,
                interval: buffer[p[q[m]] + 6],
            }),
        p[n] + 7 > buffer.len() || (buffer[p[n]] == 0 && buffer[p[n] + 1] != 5) ==> endpoints_in(
            num_endpoints,
            buffer,
        ).len() == (if q.len() < num_endpoints {
            q.len() as int
        } else {
            num_endpoints as int
        }),
{
    if n > 0 {
        assert(p[n - 1 + 1] == p[n - 1] + buffer[p[n - 1]]);
    }
    assert(p[n] >= 0);
    assert(q.len() > 0 ==> 0 <= q[0]);
    lemma_endpoints_bounded(buffer, 0, num_endpoints as nat);
    lemma_endpoints_listed(buffer, p, n, q, 0, 0, num_endpoints as nat);
    let r = endpoints_in(num_endpoints, buffer);
    assert forall|m: int| 0 <= m < num_endpoints && m < q.len() implies #[trigger] r[m]
        == endpoint_fields(buffer, p[q[m]]) && r[m].descriptor_type == 5 by {
        assert(r[m] == endpoint_fields(buffer, p[q[0 + m]]));
        assert(q[m] < n);
    }
}

/// A walk that wants so many endpoints comes to an end if it meets that many or fewer than seven
/// bytes are left. It never does if it comes to a descriptor of length zero that is no endpoint
/// before it has met them.
pub proof fn law_walk_ends(buffer: Seq<u8>, p: Seq<int>, n: int, q: Seq<int>, wanted: nat)
    requires
        0 <= n,
        p.len() == n + 1,
        p[0] == 0,
        forall|j: int| 0 <= j < n ==> 0 <= #[trigger] p[j] && p[j] + 7 <= buffer.len(),
        forall|j: int| 0 <= j < n ==> p[j + 1] == p[j] + #[trigger] buffer[p[j]],
        forall|j: int|
            0 <= j < n ==> #[trigger] buffer[p[j]] > 0 || (buffer[p[j] + 1] == 5 && p[j]
                + buffer[p[j]] <= buffer.len()),
        forall|m: int| 0 <= m < q.len() ==> 0 <= #[trigger] q[m] && q[m] < n,
        forall|m: int| 0 <= m < q.len() ==> buffer[p[#[trigger] q[m]] + 1] == 5,
        forall|m: int|
            0 <= m < q.len() ==> p[#[trigger] q[m]] + buffer[p[q[m]]] <= buffer.len(),
        forall|m: int, o: int| 0 <= m < o < q.len() ==> q[m] < q[o],
        forall|j: int|
            0 <= j < n && p[j] + buffer[p[j]] <= buffer.len() && buffer[p[j] + 1] == 5
                ==> #[trigger] q.contains(j),
    ensures
        q.len() >= wanted || p[n] + 7 > buffer.len() ==> walk_ends(buffer, 0, wanted),
        q.len() < wanted && p[n] + 7 <= buffer.len() && buffer[p[n]] == 0 && buffer[p[n] + 1] != 5
            ==> !walk_ends(buffer, 0, wanted),
{
    if n > 0 {
        assert(p[n - 1 + 1] == p[n - 1] + buffer[p[n - 1]]);
    }
    assert(p[n] >= 0);
    assert(q.len() > 0 ==> 0 <= q[0]);
    lemma_endpoints_listed(buffer, p, n, q, 0, 0, wanted);
}

} // verus!
