//! Transport addresses, and the IPv4 addresses hidden in IPv6 ones.
use vstd::prelude::*;

verus! {

/// The transport address of one end of a conversation.
#[allow(inconsistent_fields)]
#[derive(Clone, Copy, Debug, PartialEq, Eq)]
pub enum SocketAddr {
    /// An IPv4 address and a port.
    V4 { ip: [u8; 4], port: u16 },
    /// An IPv6 address and a port, with the flow label and the zone that the system attaches.
    V6 { ip: [u8; 16], port: u16, flowinfo: u32, scope_id: u32 },
}

/// What a [`SocketAddr`] stands for. The family shows in the number of octets: 4 or 16.
#[verifier::ext_equal]
pub struct Endpoint {
    pub octets: Seq<u8>,
    pub port: u16,
    pub flowinfo: u32,
    pub scope_id: u32,
}

impl View for SocketAddr {
    type V = Endpoint;

    open spec fn view(&self) -> Endpoint {
        match *self {
            SocketAddr::V4 { ip, port } => Endpoint {
                octets: ip@,
                port,
                flowinfo: 0,
                scope_id: 0,
            },
            SocketAddr::V6 { ip, port, flowinfo, scope_id } => Endpoint {
                octets: ip@,
                port,
                flowinfo,
                scope_id,
            },
        }
    }
}

impl Endpoint {
    /// An endpoint that some [`SocketAddr`] stands for.
    pub open spec fn wf(self) -> bool {
        ||| self.octets.len() == 16
        ||| self.octets.len() == 4 && self.flowinfo == 0 && self.scope_id == 0
    }

    /// An IPv6 endpoint in `::ffff:0:0/96`, the block that carries IPv4 addresses.
    pub open spec fn is_mapped(self) -> bool {
        &&& self.octets.len() == 16
        &&& forall|i: int| 0 <= i < 10 ==> self.octets[i] == 0
        &&& self.octets[10] == 0xff
        &&& self.octets[11] == 0xff
    }

    /// The endpoint with the IPv4 address taken out of an IPv4-mapped IPv6 one.
    pub open spec fn unmapped(self) -> Endpoint {
        if self.is_mapped() {
            Endpoint {
                octets: self.octets.subrange(12, 16),
                port: self.port,
                flowinfo: 0,
                scope_id: 0,
            }
        } else {
            self
        }
    }

    /// The IPv4-mapped IPv6 form of an IPv4 endpoint.
    pub open spec fn mapped(self, flowinfo: u32, scope_id: u32) -> Endpoint {
        Endpoint {
            octets: Seq::new(10, |i: int| 0u8) + seq![0xffu8, 0xffu8] + self.octets,
            port: self.port,
            flowinfo,
            scope_id,
        }
    }
}

/// Whether the octets lie in `::ffff:0:0/96`.
fn is_ipv4_mapped(ip: &[u8; 16]) -> (r: bool)
    ensures
        r <==> (forall|i: int| 0 <= i < 10 ==> ip@[i] == 0) && ip@[10] == 0xff && ip@[11] == 0xff,
{
    let mut i: usize = 0;
    while i < 10
        invariant
            0 <= i <= 10,
            forall|j: int| 0 <= j < i ==> ip@[j] == 0,
        decreases 10 - i,
    {
        if ip[i] != 0 {
            return false;
        }
        i += 1;
    }
    ip[10] == 0xff && ip[11] == 0xff
}

/// Replaces an IPv4-mapped IPv6 address, as a dual-stack socket reports its IPv4 peers, by the
/// IPv4 address. Any other address comes back as it is.
pub fn unmap_legacy_addr(addr: SocketAddr) -> (r: SocketAddr)
    ensures
        r@ == addr@.unmapped(),
{
    match addr {
        SocketAddr::V4 { ip, port } => SocketAddr::V4 { ip, port },
        SocketAddr::V6 { ip, port, flowinfo, scope_id } => {
            if is_ipv4_mapped(&ip) {
                let v4: [u8; 4] = [ip[12], ip[13], ip[14], ip[15]];
                assert(v4@ =~= ip@.subrange(12, 16));
                SocketAddr::V4 { ip: v4, port }
            } else {
                SocketAddr::V6 { ip, port, flowinfo, scope_id }
            }
        },
    }
}

/// The view of an address is well formed.
pub proof fn address_is_well_formed(addr: SocketAddr)
    ensures
        addr@.wf(),
{
}

/// Unmapping keeps the port, and a second unmapping changes nothing.
pub proof fn unmapping_keeps_port_and_settles(e: Endpoint)
    requires
        e.wf(),
    ensures
        e.unmapped().wf(),
        e.unmapped().port == e.port,
        e.unmapped().unmapped() == e.unmapped(),
        !e.unmapped().is_mapped(),
{
}

/// Unmapping undoes the mapping of an IPv4 endpoint, whatever flow label and zone came with it.
pub proof fn unmapping_undoes_mapping(e: Endpoint, flowinfo: u32, scope_id: u32)
    requires
        e.wf(),
        e.octets.len() == 4,
    ensures
        e.mapped(flowinfo, scope_id).is_mapped(),
        e.mapped(flowinfo, scope_id).unmapped() == e,
{
    assert(e.mapped(flowinfo, scope_id).octets.subrange(12, 16) =~= e.octets);
}

/// An address stands for its own octets and its own port.
pub proof fn address_stands_for_its_octets(addr: SocketAddr)
    ensures
        match addr {
            SocketAddr::V4 { ip, port } => {
                &&& addr@.octets == ip@
                &&& addr@.port == port
                &&& addr@.flowinfo == 0
                &&& addr@.scope_id == 0
            },
            SocketAddr::V6 { ip, port, flowinfo, scope_id } => {
                &&& addr@.octets == ip@
                &&& addr@.port == port
                &&& addr@.flowinfo == flowinfo
                &&& addr@.scope_id == scope_id
            },
        },
{
}

/// The endpoints that addresses stand for have four octets, or sixteen; those with four carry
/// neither a flow label nor a zone.
pub proof fn endpoints_have_two_families(e: Endpoint)
    ensures
        e.wf() <==> e.octets.len() == 16 || (e.octets.len() == 4 && e.flowinfo == 0 && e.scope_id
            == 0),
{
}

/// An endpoint that differs from `::ffff:0:0/96` in any of its first twelve octets, or that has
/// four octets only, stays as it is.
pub proof fn other_endpoints_are_kept(e: Endpoint, i: int)
    requires
        e.octets.len() != 16 || (0 <= i < 12 && e.octets[i] != (if i < 10 {
            0u8
        } else {
            0xffu8
        })),
    ensures
        !e.is_mapped(),
        e.unmapped() == e,
{
    if e.octets.len() == 16 && e.is_mapped() {
        assert(i >= 10);
    }
}

/// An endpoint in `::ffff:0:0/96` becomes the IPv4 endpoint of its last four octets, with the same
/// port.
pub proof fn mapped_endpoints_become_ipv4(e: Endpoint)
    requires
        e.octets.len() == 16,
        forall|i: int| 0 <= i < 10 ==> e.octets[i] == 0,
        e.octets[10] == 0xff,
        e.octets[11] == 0xff,
    ensures
        e.is_mapped(),
        e.unmapped().octets == seq![e.octets[12], e.octets[13], e.octets[14], e.octets[15]],
        e.unmapped().port == e.port,
        e.unmapped().flowinfo == 0,
        e.unmapped().scope_id == 0,
{
}

} // verus!
