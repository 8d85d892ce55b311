//! Destination addresses: their wire form, the endpoint they name, and their text.
use crate::codes::{AddrType, SockCommand, RESERVED};
use crate::text::{
    ascii_string, ascii_text, decimal_bytes, hex_bytes, is_ascii_bytes, lemma_decimal_ascii,
    lemma_hex_ascii, lossy_text, push_decimal, push_hex, decode_lossy,
};
use vstd::prelude::*;
use vstd::slice::slice_to_vec;
use vstd::string::StringExecFns;
use vstd::utf8::{encode_utf8, encode_utf8_decode_utf8, encode_utf8_valid_utf8};

verus! {

/// The value of two bytes in network order.
pub open spec fn be16(hi: u8, lo: u8) -> u16 {
    (hi as int * 256 + lo as int) as u16
}

/// A port in network order.
pub open spec fn port_bytes(port: u16) -> Seq<u8> {
    seq![(port / 256) as u8, (port % 256) as u8]
}

/// The eight groups of an IPv6 address, each from two bytes in network order.
pub open spec fn segments_of(b: Seq<u8>) -> Seq<u16> {
    Seq::new(8, |i: int| be16(b[2 * i], b[2 * i + 1]))
}

/// The sixteen bytes of eight IPv6 groups.
pub open spec fn segment_bytes(s: Seq<u16>) -> Seq<u8> {
    Seq::new(
        16,
        |i: int|
            if i % 2 == 0 {
                (s[i / 2] / 256) as u8
            } else {
                (s[i / 2] % 256) as u8
            },
    )
}

/// An address of this length can stand for this kind.
pub open spec fn addr_fits(kind: AddrType, len: int) -> bool {
    match kind {
        AddrType::V4 => len == 4,
        AddrType::V6 => len == 16,
        AddrType::Domain => len <= 255,
    }
}

/// An endpoint to connect to.
pub enum SocketTarget {
    Ip4 { octets: [u8; 4], port: u16 },
    Ip6 { segments: [u16; 8], port: u16 },
    /// A host name still to resolve.
    Name { host: String, port: u16 },
}

/// What a [`SocketTarget`] names.
pub enum TargetView {
    Ip4 { octets: Seq<u8>, port: u16 },
    Ip6 { segments: Seq<u16>, port: u16 },
    Name { host: Seq<char>, port: u16 },
}

impl View for SocketTarget {
    type V = TargetView;

    open spec fn view(&self) -> TargetView {
        match self {
            SocketTarget::Ip4 { octets, port } => TargetView::Ip4 { octets: octets@, port: *port },
            SocketTarget::Ip6 { segments, port } => TargetView::Ip6 {
                segments: segments@,
                port: *port,
            },
            SocketTarget::Name { host, port } => TargetView::Name { host: host@, port: *port },
        }
    }
}

impl TargetView {
    pub open spec fn port(self) -> u16 {
        match self {
            TargetView::Ip4 { port, .. } => port,
            TargetView::Ip6 { port, .. } => port,
            TargetView::Name { port, .. } => port,
        }
    }

    /// The address kind and the address bytes of a request for this endpoint.
    pub open spec fn wire(self) -> (AddrType, Seq<u8>) {
        match self {
            TargetView::Ip4 { octets, .. } => (AddrType::V4, octets),
            TargetView::Ip6 { segments, .. } => (AddrType::V6, segment_bytes(segments)),
            TargetView::Name { host, .. } => (AddrType::Domain, encode_utf8(host)),
        }
    }

    /// The endpoint has an address of its kind's size, a name at most 255 bytes long.
    pub open spec fn wf(self) -> bool {
        match self {
            TargetView::Ip4 { octets, .. } => octets.len() == 4,
            TargetView::Ip6 { segments, .. } => segments.len() == 8,
            TargetView::Name { host, .. } => encode_utf8(host).len() <= 255,
        }
    }
}

/// The endpoint that a request's address and port name.
pub open spec fn decode_target(kind: AddrType, b: Seq<u8>, port: u16) -> TargetView {
    match kind {
        AddrType::V4 => TargetView::Ip4 { octets: b, port },
        AddrType::V6 => TargetView::Ip6 { segments: segments_of(b), port },
        AddrType::Domain => TargetView::Name { host: lossy_text(b), port },
    }
}

/// Encoding an endpoint into its wire form and decoding that gives the endpoint back.
pub proof fn lemma_target_round_trip(t: TargetView)
    requires
        t.wf(),
    ensures
        ({
            let (kind, b) = t.wire();
            let pb = port_bytes(t.port());
            &&& addr_fits(kind, b.len() as int)
            &&& decode_target(kind, b, be16(pb[0], pb[1])) == t
        }),
{
    let p = t.port();
    assert(be16((p / 256) as u8, (p % 256) as u8) == p);
    match t {
        TargetView::Ip4 { octets, port } => {},
        TargetView::Ip6 { segments, port } => {
            let b = segment_bytes(segments);
            assert forall|i: int| 0 <= i < 8 implies #[trigger] segments_of(b)[i] == segments[i] by {
                assert(b[2 * i] == (segments[i] / 256) as u8);
                assert(b[2 * i + 1] == (segments[i] % 256) as u8);
            }
            assert(segments_of(b) =~= segments);
        },
        TargetView::Name { host, port } => {
            encode_utf8_valid_utf8(host);
            encode_utf8_decode_utf8(host);
        },
    }
}

fn segment(addr: &[u8], i: usize) -> (r: u16)
    requires
        i < 8,
        addr@.len() == 16,
    ensures
        r == be16(addr@[2 * i as int], addr@[2 * i + 1]),
{
    (addr[2 * i] as u16) * 256 + addr[2 * i + 1] as u16
}

/// Convert an address and AddrType to the endpoint it names
pub fn addr_to_socket(addr_type: &AddrType, addr: &[u8], port: u16) -> (r: SocketTarget)
    requires
        *addr_type == AddrType::V4 ==> addr@.len() == 4,
        *addr_type == AddrType::V6 ==> addr@.len() == 16,
    ensures
        r@ == decode_target(*addr_type, addr@, port),
{
    match addr_type {
        AddrType::V6 => {
            let segments = [
                segment(addr, 0),
                segment(addr, 1),
                segment(addr, 2),
                segment(addr, 3),
                segment(addr, 4),
                segment(addr, 5),
                segment(addr, 6),
                segment(addr, 7),
            ];
            let r = SocketTarget::Ip6 { segments, port };
            assert(segments@ =~= segments_of(addr@));
            r
        },
        AddrType::V4 => {
            let octets = [addr[0], addr[1], addr[2], addr[3]];
            assert(octets@ =~= addr@);
            SocketTarget::Ip4 { octets, port }
        },
        AddrType::Domain => SocketTarget::Name { host: decode_lossy(addr), port },
    }
}

impl SocketTarget {
    /// The text `host:port` that name resolution takes.
    pub fn host_port(host: &String, port: u16) -> (r: String)
        ensures
            r@ == host@ + ascii_text(seq![58u8] + decimal_bytes(port as nat)),
    {
        let mut tail: Vec<u8> = vec![58u8];
        push_decimal(&mut tail, port);
        proof {
            lemma_decimal_ascii(port as nat);
            assert(is_ascii_bytes(tail@));
        }
        let t = ascii_string(&tail);
        let mut s = host.clone();
        s.append(t.as_str());
        s
    }

    /// The address kind and address bytes of a request for this endpoint.
    pub fn to_wire(&self) -> (r: (AddrType, Vec<u8>))
        ensures
            r.0 == self@.wire().0,
            r.1@ == self@.wire().1,
    {
        match self {
            SocketTarget::Ip4 { octets, .. } => (AddrType::V4, slice_to_vec(octets.as_slice())),
            SocketTarget::Ip6 { segments, .. } => {
                let mut b: Vec<u8> = Vec::new();
                let mut i: usize = 0;
                while i < 8
                    invariant
                        i <= 8,
                        b@ =~= segment_bytes(segments@).subrange(0, 2 * i as int),
                    decreases 8 - i,
                {
                    let s = segments[i];
                    b.push((s / 256) as u8);
                    b.push((s % 256) as u8);
                    i = i + 1;
                    assert(b@ =~= segment_bytes(segments@).subrange(0, 2 * i as int));
                }
                (AddrType::V6, b)
            },
            SocketTarget::Name { host, .. } => (
                AddrType::Domain,
                slice_to_vec(host.as_str().as_bytes()),
            ),
        }
    }
}

/// Decimal octets joined by dots.
pub open spec fn dotted_bytes(b: Seq<u8>) -> Seq<u8>
    decreases b.len(),
{
    if b.len() == 0 {
        seq![]
    } else if b.len() == 1 {
        decimal_bytes(b[0] as nat)
    } else {
        dotted_bytes(b.drop_last()) + seq![46u8] + decimal_bytes(b.last() as nat)
    }
}

/// Hexadecimal groups joined by colons.
pub open spec fn colon_hex_bytes(s: Seq<u16>) -> Seq<u8>
    decreases s.len(),
{
    if s.len() == 0 {
        seq![]
    } else if s.len() == 1 {
        hex_bytes(s[0] as nat)
    } else {
        colon_hex_bytes(s.drop_last()) + seq![58u8] + hex_bytes(s.last() as nat)
    }
}

/// The text of an address: a name as it is, IPv4 in dotted decimal, IPv6 as
/// colon separated hexadecimal groups.
pub open spec fn spec_pretty(kind: AddrType, b: Seq<u8>) -> Seq<char> {
    match kind {
        AddrType::Domain => lossy_text(b),
        AddrType::V4 => ascii_text(dotted_bytes(b)),
        AddrType::V6 => ascii_text(colon_hex_bytes(segments_of(b))),
    }
}

proof fn lemma_ascii_concat(a: Seq<u8>, b: Seq<u8>)
    requires
        is_ascii_bytes(a),
        is_ascii_bytes(b),
    ensures
        is_ascii_bytes(a + b),
{
    assert forall|i: int| 0 <= i < (a + b).len() implies #[trigger] (a + b)[i] < 128 by {
        if i < a.len() {
            assert((a + b)[i] == a[i]);
        } else {
            assert((a + b)[i] == b[i - a.len()]);
        }
    }
}

/// Convert an AddrType and address to String
pub fn pretty_print_addr(addr_type: &AddrType, addr: &[u8]) -> (r: String)
    requires
        *addr_type == AddrType::V6 ==> addr@.len() == 16,
    ensures
        r@ == spec_pretty(*addr_type, addr@),
{
    match addr_type {
        AddrType::Domain => decode_lossy(addr),
        AddrType::V4 => {
            let mut out: Vec<u8> = Vec::new();
            let mut i: usize = 0;
            while i < addr.len()
                invariant
                    i <= addr@.len(),
                    out@ == dotted_bytes(addr@.subrange(0, i as int)),
                    is_ascii_bytes(out@),
                decreases addr@.len() - i,
            {
                let ghost before = out@;
                if i > 0 {
                    out.push(46u8);
                }
                push_decimal(&mut out, addr[i] as u16);
                proof {
                    lemma_decimal_ascii(addr@[i as int] as nat);
                    let sep: Seq<u8> = if i > 0 { seq![46u8] } else { seq![] };
                    lemma_ascii_concat(before, sep);
                    lemma_ascii_concat(before + sep, decimal_bytes(addr@[i as int] as nat));
                    assert(out@ =~= before + sep + decimal_bytes(addr@[i as int] as nat));
                    let p = addr@.subrange(0, i + 1);
                    assert(p.drop_last() =~= addr@.subrange(0, i as int));
                    assert(p.last() == addr@[i as int]);
                }
                i = i + 1;
            }
            assert(addr@.subrange(0, addr@.len() as int) =~= addr@);
            ascii_string(&out)
        },
        AddrType::V6 => {
            let mut out: Vec<u8> = Vec::new();
            let mut i: usize = 0;
            let ghost segs = segments_of(addr@);
            while i < 8
                invariant
                    i <= 8,
                    addr@.len() == 16,
                    segs == segments_of(addr@),
                    out@ == colon_hex_bytes(segs.subrange(0, i as int)),
                    is_ascii_bytes(out@),
                decreases 8 - i,
            {
                let ghost before = out@;
                if i > 0 {
                    out.push(58u8);
                }
                let g = segment(addr, i);
                push_hex(&mut out, g);
                proof {
                    lemma_hex_ascii(g as nat);
                    let sep: Seq<u8> = if i > 0 { seq![58u8] } else { seq![] };
                    lemma_ascii_concat(before, sep);
                    lemma_ascii_concat(before + sep, hex_bytes(g as nat));
                    assert(out@ =~= before + sep + hex_bytes(g as nat));
                    let p = segs.subrange(0, i + 1);
                    assert(p.drop_last() =~= segs.subrange(0, i as int));
                    assert(p.last() == segs[i as int]);
                }
                i = i + 1;
            }
            assert(segs.subrange(0, 8) =~= segs);
            ascii_string(&out)
        },
    }
}

/// Proxy User Request
pub struct SOCKSReq {
    pub version: u8,
    pub command: SockCommand,
    pub addr_type: AddrType,
    pub addr: Vec<u8>,
    pub port: u16,
}

/// A request frame: version, command, reserved byte, address type, the address
/// (a name behind its length), and the port in network order.
pub open spec fn request_frame(
    version: u8,
    command: SockCommand,
    kind: AddrType,
    addr: Seq<u8>,
    port: u16,
) -> Seq<u8> {
    let head = seq![version, command.spec_byte(), RESERVED, kind.spec_byte()];
    let len: Seq<u8> = if kind == AddrType::Domain {
        seq![addr.len() as u8]
    } else {
        seq![]
    };
    head + len + addr + port_bytes(port)
}

impl SOCKSReq {
    /// The address has the size its kind asks for.
    pub open spec fn wf(&self) -> bool {
        addr_fits(self.addr_type, self.addr@.len() as int)
    }

    /// The endpoint that the request names.
    pub fn target(&self) -> (r: SocketTarget)
        requires
            self.wf(),
        ensures
            r@ == decode_target(self.addr_type, self.addr@, self.port),
    {
        addr_to_socket(&self.addr_type, self.addr.as_slice(), self.port)
    }

    /// The request as a client sends it.
    pub fn to_bytes(&self) -> (r: Vec<u8>)
        requires
            self.wf(),
        ensures
            r@ == request_frame(self.version, self.command, self.addr_type, self.addr@, self.port),
    {
        let mut r: Vec<u8> = vec![self.version, self.command.byte(), RESERVED, self.addr_type.byte()];
        if self.addr_type == AddrType::Domain {
            r.push(self.addr.len() as u8);
        }
        let mut i: usize = 0;
        let ghost start = r@;
        while i < self.addr.len()
            invariant
                i <= self.addr@.len(),
                r@ == start + self.addr@.subrange(0, i as int),
            decreases self.addr@.len() - i,
        {
            r.push(self.addr[i]);
            i = i + 1;
            assert(r@ =~= start + self.addr@.subrange(0, i as int));
        }
        r.push((self.port / 256) as u8);
        r.push((self.port % 256) as u8);
        assert(self.addr@.subrange(0, self.addr@.len() as int) =~= self.addr@);
        assert(r@ =~= request_frame(
            self.version,
            self.command,
            self.addr_type,
            self.addr@,
            self.port,
        ));
        r
    }
}

} // verus!
