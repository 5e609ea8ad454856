//! The fail-soft protocol decoder chain: Ethernet, then IPv4 or IPv6, then
//! UDP, then DNS. Every layer answers "not applicable" on a frame it cannot
//! read; no frame makes the chain panic or read out of bounds.
//!
//! The DNS layer reads the header and exactly one query section. The header's
//! declared query count is deliberately not trusted: captured traffic carries
//! malformed counts, and reading one query avoids acting on them.

use vstd::prelude::*;
use vstd::slice::slice_subrange;
use vstd::string::StrSliceExecFns;
use vstd::string::StringExecFns;
use crate::config::PacketType;
use crate::strbuild::push_char;
use crate::view::IpAddress;
use crate::view::PacketInfo;
use crate::view::PacketInfoV;

verus! {

/// The EtherType value announcing an IPv4 payload.
pub const ETHERTYPE_IPV4: u16 = 0x0800;

/// The EtherType value announcing an IPv6 payload.
pub const ETHERTYPE_IPV6: u16 = 0x86DD;

/// The IP protocol number of UDP.
pub const IP_PROTO_UDP: u8 = 17;

/// The big-endian 16-bit value at positions `i`, `i + 1` of `s`.
pub open spec fn spec_be16(s: Seq<u8>, i: int) -> u16 {
    (((s[i] as int) * 256 + (s[i + 1] as int)) as u16)
}

/// Reads a big-endian 16-bit value from two consecutive bytes.
fn read_be16(b: &[u8], i: usize) -> (r: u16)
    requires
        i + 1 < b@.len(),
    ensures
        r == spec_be16(b@, i as int),
{
    (b[i] as u16) * 256 + (b[i + 1] as u16)
}

/// A DNS name in wire form starting at position `i`: length-prefixed labels
/// of 1 to 63 bytes each, closed by a zero byte. The result is the dotted
/// text of the labels and the position just past the closing byte; a label
/// that runs past the buffer, or a length byte above 63 (as a compression
/// pointer would carry), is not a name.
pub open spec fn spec_name(s: Seq<u8>, i: int) -> Option<(Seq<char>, int)>
    decreases s.len() - i,
{
    if i < 0 || i >= s.len() {
        None
    } else if s[i] == 0 {
        Some((Seq::<char>::empty(), i + 1))
    } else if s[i] > 63 || i + 1 + (s[i] as int) > s.len() {
        None
    } else {
        let lab_len = s[i] as int;
        let label = Seq::new(lab_len as nat, |k: int| s[i + 1 + k] as char);
        match spec_name(s, i + 1 + lab_len) {
            None => None,
            Some(rest) => Some(
                (
                    if rest.0.len() == 0 {
                        label
                    } else {
                        label + seq!['.'] + rest.0
                    },
                    rest.1,
                ),
            ),
        }
    }
}

/// A parsed name ends inside the buffer.
pub proof fn lemma_name_end_in_bounds(s: Seq<u8>, i: int)
    requires
        spec_name(s, i) is Some,
    ensures
        i < spec_name(s, i).unwrap().1 <= s.len(),
    decreases s.len() - i,
{
    if s[i] == 0 {
    } else {
        lemma_name_end_in_bounds(s, i + 1 + (s[i] as int));
    }
}

/// Parses one DNS name, returning its dotted text and the position just past
/// its closing byte.
pub fn parse_name(b: &[u8], i: usize) -> (r: Option<(String, usize)>)
    ensures
        match r {
            Some(p) => spec_name(b@, i as int) == Some((p.0@, p.1 as int)),
            None => spec_name(b@, i as int) is None,
        },
    decreases b@.len() - i,
{
    if i >= b.len() {
        return None;
    }
    let len_byte = b[i];
    if len_byte == 0 {
        return Some((String::new(), i + 1));
    }
    if len_byte > 63 {
        return None;
    }
    let lab_len = len_byte as usize;
    if lab_len > b.len() - i - 1 {
        return None;
    }
    match parse_name(b, i + 1 + lab_len) {
        None => None,
        Some((rest, end)) => {
            let ghost label = Seq::new(lab_len as nat, |k: int| b@[i as int + 1 + k] as char);
            let mut out = String::new();
            let mut j: usize = 0;
            while j < lab_len
                invariant
                    j <= lab_len,
                    i + 1 + lab_len <= b@.len(),
                    b@.len() <= usize::MAX,
                    label == Seq::new(lab_len as nat, |k: int| b@[i as int + 1 + k] as char),
                    out@ == label.take(j as int),
                decreases lab_len - j,
            {
                push_char(&mut out, b[i + 1 + j] as char);
                j += 1;
                proof {
                    assert(out@ =~= label.take(j as int));
                }
            }
            proof {
                assert(out@ =~= label);
            }
            if rest.as_str().unicode_len() == 0 {
                Some((out, end))
            } else {
                push_char(&mut out, '.');
                out.append(rest.as_str());
                proof {
                    assert(out@ =~= label + seq!['.'] + rest@);
                }
                Some((out, end))
            }
        },
    }
}

/// The DNS message in `d`: at least the 12-byte header, one name, and the
/// query's four type and class bytes. The message kind is the header's QR
/// bit: set for a response, clear for a query.
pub open spec fn spec_dns(d: Seq<u8>) -> Option<(Seq<char>, PacketType)> {
    if d.len() < 12 {
        None
    } else {
        match spec_name(d, 12) {
            None => None,
            Some(p) => if p.1 + 4 <= d.len() {
                Some(
                    (
                        p.0,
                        if d[2] >= 128 {
                            PacketType::Response
                        } else {
                            PacketType::Query
                        },
                    ),
                )
            } else {
                None
            },
        }
    }
}

/// Parses the DNS header and the first query section.
pub fn parse_dns(d: &[u8]) -> (r: Option<(String, PacketType)>)
    ensures
        match r {
            Some(p) => spec_dns(d@) == Some((p.0@, p.1)),
            None => spec_dns(d@) is None,
        },
{
    if d.len() < 12 {
        return None;
    }
    match parse_name(d, 12) {
        None => None,
        Some((name, end)) => {
            proof {
                lemma_name_end_in_bounds(d@, 12);
            }
            if end > d.len() - 4 {
                return None;
            }
            let kind = if d[2] >= 128 {
                PacketType::Response
            } else {
                PacketType::Query
            };
            Some((name, kind))
        },
    }
}

/// The UDP datagram in `u`: the 8-byte header's ports, then a DNS message in
/// the payload. No port is checked; whether the payload parses as DNS is the
/// effective filter.
pub open spec fn spec_udp_dns(u: Seq<u8>) -> Option<(u16, u16, Seq<char>, PacketType)> {
    if u.len() < 8 {
        None
    } else {
        match spec_dns(u.subrange(8, u.len() as int)) {
            None => None,
            Some(p) => Some((spec_be16(u, 0), spec_be16(u, 2), p.0, p.1)),
        }
    }
}

/// Parses the UDP header and the DNS message carried in its payload.
pub fn parse_udp_dns(u: &[u8]) -> (r: Option<(u16, u16, String, PacketType)>)
    ensures
        match r {
            Some(p) => spec_udp_dns(u@) == Some((p.0, p.1, p.2@, p.3)),
            None => spec_udp_dns(u@) is None,
        },
{
    if u.len() < 8 {
        return None;
    }
    let payload = slice_subrange(u, 8, u.len());
    match parse_dns(payload) {
        None => None,
        Some((name, kind)) => {
            let src_port = read_be16(u, 0);
            let dst_port = read_be16(u, 2);
            Some((src_port, dst_port, name, kind))
        },
    }
}

/// The record decoded from an IPv4 packet: the header must fit, announce UDP,
/// and carry a DNS message; the addresses are the header's source and
/// destination octets.
pub open spec fn spec_ip4(p: Seq<u8>) -> Option<PacketInfoV> {
    if p.len() < 20 {
        None
    } else {
        let ihl4 = (p[0] as int % 16) * 4;
        if ihl4 < 20 || ihl4 > p.len() {
            None
        } else if p[9] != IP_PROTO_UDP {
            None
        } else {
            match spec_udp_dns(p.subrange(ihl4, p.len() as int)) {
                None => None,
                Some(t) => Some(
                    PacketInfoV {
                        src: IpAddress::V4(p[12], p[13], p[14], p[15]),
                        src_port: t.0,
                        dst: IpAddress::V4(p[16], p[17], p[18], p[19]),
                        dst_port: t.1,
                        query_name: t.2,
                        msg_type: t.3,
                    },
                ),
            }
        }
    }
}

/// Decodes the IPv4 layer and everything below it.
pub fn parse_packet_ip4(p: &[u8]) -> (r: Option<PacketInfo>)
    ensures
        r is Some <==> spec_ip4(p@) is Some,
        r matches Some(pi) ==> spec_ip4(p@) == Some(pi@),
{
    if p.len() < 20 {
        return None;
    }
    let ihl4 = ((p[0] % 16) as usize) * 4;
    if ihl4 < 20 || ihl4 > p.len() {
        return None;
    }
    if p[9] != IP_PROTO_UDP {
        return None;
    }
    let payload = slice_subrange(p, ihl4, p.len());
    match parse_udp_dns(payload) {
        None => None,
        Some((src_port, dst_port, name, kind)) => Some(
            PacketInfo::new(
                IpAddress::V4(p[12], p[13], p[14], p[15]),
                src_port,
                IpAddress::V4(p[16], p[17], p[18], p[19]),
                dst_port,
                name,
                kind,
            ),
        ),
    }
}

/// The record decoded from an IPv6 packet: the fixed 40-byte header must fit
/// and announce UDP as the next header; the addresses are the header's eight
/// source and destination groups.
pub open spec fn spec_ip6(p: Seq<u8>) -> Option<PacketInfoV> {
    if p.len() < 40 {
        None
    } else if p[6] != IP_PROTO_UDP {
        None
    } else {
        match spec_udp_dns(p.subrange(40, p.len() as int)) {
            None => None,
            Some(t) => Some(
                PacketInfoV {
                    src: IpAddress::V6(
                        spec_be16(p, 8),
                        spec_be16(p, 10),
                        spec_be16(p, 12),
                        spec_be16(p, 14),
                        spec_be16(p, 16),
                        spec_be16(p, 18),
                        spec_be16(p, 20),
                        spec_be16(p, 22),
                    ),
                    src_port: t.0,
                    dst: IpAddress::V6(
                        spec_be16(p, 24),
                        spec_be16(p, 26),
                        spec_be16(p, 28),
                        spec_be16(p, 30),
                        spec_be16(p, 32),
                        spec_be16(p, 34),
                        spec_be16(p, 36),
                        spec_be16(p, 38),
                    ),
                    dst_port: t.1,
                    query_name: t.2,
                    msg_type: t.3,
                },
            ),
        }
    }
}

/// Decodes the IPv6 layer and everything below it.
pub fn parse_packet_ip6(p: &[u8]) -> (r: Option<PacketInfo>)
    ensures
        r is Some <==> spec_ip6(p@) is Some,
        r matches Some(pi) ==> spec_ip6(p@) == Some(pi@),
{
    if p.len() < 40 {
        return None;
    }
    if p[6] != IP_PROTO_UDP {
        return None;
    }
    let payload = slice_subrange(p, 40, p.len());
    match parse_udp_dns(payload) {
        None => None,
        Some((src_port, dst_port, name, kind)) => Some(
            PacketInfo::new(
                IpAddress::V6(
                    read_be16(p, 8),
                    read_be16(p, 10),
                    read_be16(p, 12),
                    read_be16(p, 14),
                    read_be16(p, 16),
                    read_be16(p, 18),
                    read_be16(p, 20),
                    read_be16(p, 22),
                ),
                src_port,
                IpAddress::V6(
                    read_be16(p, 24),
                    read_be16(p, 26),
                    read_be16(p, 28),
                    read_be16(p, 30),
                    read_be16(p, 32),
                    read_be16(p, 34),
                    read_be16(p, 36),
                    read_be16(p, 38),
                ),
                dst_port,
                name,
                kind,
            ),
        ),
    }
}

/// The record decoded from a raw Ethernet frame, or nothing: the 14-byte
/// Ethernet header must fit, and its EtherType picks the IP layer; any other
/// EtherType, and any malformed layer below, yields nothing.
pub open spec fn spec_decode(f: Seq<u8>) -> Option<PacketInfoV> {
    if f.len() < 14 {
        None
    } else {
        let ethertype = spec_be16(f, 12);
        if ethertype == ETHERTYPE_IPV4 {
            spec_ip4(f.subrange(14, f.len() as int))
        } else if ethertype == ETHERTYPE_IPV6 {
            spec_ip6(f.subrange(14, f.len() as int))
        } else {
            None
        }
    }
}

/// Decodes one raw frame into a packet record, or discards it as not
/// applicable.
pub fn parse_packet(payload: &[u8]) -> (r: Option<PacketInfo>)
    ensures
        r is Some <==> spec_decode(payload@) is Some,
        r matches Some(pi) ==> spec_decode(payload@) == Some(pi@),
{
    if payload.len() < 14 {
        return None;
    }
    let ethertype = read_be16(payload, 12);
    let rest = slice_subrange(payload, 14, payload.len());
    if ethertype == ETHERTYPE_IPV4 {
        parse_packet_ip4(rest)
    } else if ethertype == ETHERTYPE_IPV6 {
        parse_packet_ip6(rest)
    } else {
        None
    }
}

/// Every frame too short for an Ethernet header decodes to nothing.
pub proof fn lemma_short_frame_not_applicable(f: Seq<u8>)
    requires
        f.len() < 14,
    ensures
        spec_decode(f) is None,
{
}

/// Every frame whose EtherType is neither IPv4 nor IPv6 decodes to nothing.
pub proof fn lemma_non_ip_not_applicable(f: Seq<u8>)
    requires
        f.len() >= 14,
        spec_be16(f, 12) != ETHERTYPE_IPV4,
        spec_be16(f, 12) != ETHERTYPE_IPV6,
    ensures
        spec_decode(f) is None,
{
}

/// Every record decoded from an IPv4 frame carries IPv4 addresses, and its
/// message kind is the QR bit of the DNS header inside the frame.
pub proof fn lemma_ipv4_family_and_kind(f: Seq<u8>)
    requires
        f.len() >= 14,
        spec_be16(f, 12) == ETHERTYPE_IPV4,
        spec_decode(f) is Some,
    ensures
        spec_decode(f).unwrap().src is V4,
        spec_decode(f).unwrap().dst is V4,
        ({
            let p = f.subrange(14, f.len() as int);
            let ihl4 = (p[0] as int % 16) * 4;
            spec_decode(f).unwrap().msg_type == (if p[ihl4 + 10] >= 128 {
                PacketType::Response
            } else {
                PacketType::Query
            })
        }),
{
    let p = f.subrange(14, f.len() as int);
    let ihl4 = (p[0] as int % 16) * 4;
    let u = p.subrange(ihl4, p.len() as int);
    let d = u.subrange(8, u.len() as int);
    assert(d[2] == p[ihl4 + 10]);
}

/// Every record decoded from an IPv6 frame carries IPv6 addresses, and its
/// message kind is the QR bit of the DNS header inside the frame.
pub proof fn lemma_ipv6_family_and_kind(f: Seq<u8>)
    requires
        f.len() >= 14,
        spec_be16(f, 12) == ETHERTYPE_IPV6,
        spec_decode(f) is Some,
    ensures
        spec_decode(f).unwrap().src is V6,
        spec_decode(f).unwrap().dst is V6,
        ({
            let p = f.subrange(14, f.len() as int);
            spec_decode(f).unwrap().msg_type == (if p[50] >= 128 {
                PacketType::Response
            } else {
                PacketType::Query
            })
        }),
{
    let p = f.subrange(14, f.len() as int);
    let u = p.subrange(40, p.len() as int);
    let d = u.subrange(8, u.len() as int);
    assert(d[2] == p[50]);
}

/// Source and destination of one record are always of the same address
/// family: the decoder resolves the IP version once for both.
pub proof fn lemma_family_consistent(f: Seq<u8>)
    requires
        spec_decode(f) is Some,
    ensures
        spec_decode(f).unwrap().src is V4 <==> spec_decode(f).unwrap().dst is V4,
{
}

} // verus!
