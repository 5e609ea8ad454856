//! The packet record handed to renderers, and its mathematical view.

use vstd::prelude::*;
use crate::config::PacketType;
use crate::strbuild::push_char;
use crate::strbuild::push_dec;
use crate::strbuild::push_hex;
use crate::strbuild::spec_dec_chars;
use crate::strbuild::spec_hex_chars;

pub mod csv;
pub mod table;
pub mod text;

verus! {

/// An IP address in the family the decoder resolved: four octets for IPv4,
/// eight 16-bit groups for IPv6.
#[derive(Clone, Copy, PartialEq, Eq, Structural, Debug)]
pub enum IpAddress {
    V4(u8, u8, u8, u8),
    V6(u16, u16, u16, u16, u16, u16, u16, u16),
}

/// One decoded DNS query or response, as the renderers receive it.
#[derive(Debug, Clone)]
pub struct PacketInfo {
    pub src: IpAddress,
    pub src_port: u16,
    pub dst: IpAddress,
    pub dst_port: u16,
    pub query_name: String,
    pub msg_type: PacketType,
}

/// The mathematical view of a packet record: the same fields, with the
/// queried name as a character sequence.
pub ghost struct PacketInfoV {
    pub src: IpAddress,
    pub src_port: u16,
    pub dst: IpAddress,
    pub dst_port: u16,
    pub query_name: Seq<char>,
    pub msg_type: PacketType,
}

impl View for PacketInfo {
    type V = PacketInfoV;

    open spec fn view(&self) -> PacketInfoV {
        PacketInfoV {
            src: self.src,
            src_port: self.src_port,
            dst: self.dst,
            dst_port: self.dst_port,
            query_name: self.query_name@,
            msg_type: self.msg_type,
        }
    }
}

impl PacketInfo {
    pub fn new(
        src: IpAddress,
        src_port: u16,
        dst: IpAddress,
        dst_port: u16,
        query_name: String,
        msg_type: PacketType,
    ) -> (r: PacketInfo)
        ensures
            r.src == src,
            r.src_port == src_port,
            r.dst == dst,
            r.dst_port == dst_port,
            r.query_name == query_name,
            r.msg_type == msg_type,
    {
        PacketInfo { src, src_port, dst, dst_port, query_name, msg_type }
    }
}

impl Default for PacketInfo {
    /// The all-zero IPv4 record with an empty name, marked as a query.
    fn default() -> (r: PacketInfo)
        ensures
            r.src == IpAddress::V4(0, 0, 0, 0),
            r.src_port == 0,
            r.dst == IpAddress::V4(0, 0, 0, 0),
            r.dst_port == 0,
            r.query_name@ == Seq::<char>::empty(),
            r.msg_type == PacketType::Query,
    {
        PacketInfo::new(
            IpAddress::V4(0, 0, 0, 0),
            0,
            IpAddress::V4(0, 0, 0, 0),
            0,
            String::new(),
            PacketType::Query,
        )
    }
}

/// The textual spelling of an address: dotted decimal octets for IPv4;
/// colon-separated lower-case hexadecimal groups, without leading zeros and
/// without zero-run compression, for IPv6.
pub open spec fn spec_addr_chars(a: IpAddress) -> Seq<char> {
    match a {
        IpAddress::V4(a0, a1, a2, a3) => spec_dec_chars(a0 as int) + seq!['.'] + spec_dec_chars(
            a1 as int,
        ) + seq!['.'] + spec_dec_chars(a2 as int) + seq!['.'] + spec_dec_chars(a3 as int),
        IpAddress::V6(g0, g1, g2, g3, g4, g5, g6, g7) => spec_hex_chars(g0 as int) + seq![':']
            + spec_hex_chars(g1 as int) + seq![':'] + spec_hex_chars(g2 as int) + seq![':']
            + spec_hex_chars(g3 as int) + seq![':'] + spec_hex_chars(g4 as int) + seq![':']
            + spec_hex_chars(g5 as int) + seq![':'] + spec_hex_chars(g6 as int) + seq![':']
            + spec_hex_chars(g7 as int),
    }
}

/// Renders an address as text.
pub fn addr_to_string(a: &IpAddress) -> (r: String)
    ensures
        r@ == spec_addr_chars(*a),
{
    let mut s = String::new();
    match a {
        IpAddress::V4(a0, a1, a2, a3) => {
            push_dec(&mut s, *a0 as u16);
            push_char(&mut s, '.');
            push_dec(&mut s, *a1 as u16);
            push_char(&mut s, '.');
            push_dec(&mut s, *a2 as u16);
            push_char(&mut s, '.');
            push_dec(&mut s, *a3 as u16);
        },
        IpAddress::V6(g0, g1, g2, g3, g4, g5, g6, g7) => {
            push_hex(&mut s, *g0);
            push_char(&mut s, ':');
            push_hex(&mut s, *g1);
            push_char(&mut s, ':');
            push_hex(&mut s, *g2);
            push_char(&mut s, ':');
            push_hex(&mut s, *g3);
            push_char(&mut s, ':');
            push_hex(&mut s, *g4);
            push_char(&mut s, ':');
            push_hex(&mut s, *g5);
            push_char(&mut s, ':');
            push_hex(&mut s, *g6);
            push_char(&mut s, ':');
            push_hex(&mut s, *g7);
        },
    }
    proof {
        assert(s@ =~= spec_addr_chars(*a));
    }
    s
}

/// The single-letter spelling of a message kind, as the CSV and table
/// renderers print it.
pub open spec fn spec_msg_type_char(t: PacketType) -> char {
    match t {
        PacketType::Query => 'q',
        PacketType::Response => 'r',
    }
}

/// Renders a message kind as its single-letter spelling.
pub fn msg_type_to_string(t: PacketType) -> (r: &'static str)
    ensures
        r@ == seq![spec_msg_type_char(t)],
{
    match t {
        PacketType::Query => {
            proof {
                reveal_strlit("q");
                assert(("q")@ =~= seq!['q']);
            }
            "q"
        },
        PacketType::Response => {
            proof {
                reveal_strlit("r");
                assert(("r")@ =~= seq!['r']);
            }
            "r"
        },
    }
}

} // verus!
