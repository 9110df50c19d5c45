//! The flow tail: a fixed-length footer appended to each tunnelled datagram
//! that names the remote client connection the payload belongs to.
use vstd::prelude::*;

use crate::be_bytes::{
    be128, be16, be32, be64, lemma_read128, lemma_read16, lemma_read32, lemma_read64, push_u128,
    push_u16, push_u32, push_u64, read_u128, read_u16, read_u32, read_u64, u128_at, u16_at,
    u32_at, u64_at,
};

verus! {

/// Length of the tail of a flow between IPv4 endpoints.
pub const V4_LEN: usize = 20;

/// Length of the tail of a flow between IPv6 endpoints.
pub const V6_LEN: usize = 48;

/// Last eight bytes of every IPv4 flow tail.
pub const V4_FOOTER_ID: u64 = 0x5cb867cf788173b2;

/// Last eight bytes of every IPv6 flow tail.
pub const V6_FOOTER_ID: u64 = 0x6668676f68616366;

/// An IPv4 address (as its 32-bit number) and a port.
#[derive(PartialEq, Eq, Structural, Clone, Copy, Debug)]
pub struct Endpoint4 {
    pub ip: u32,
    pub port: u16,
}

/// An IPv6 address (as its 128-bit number) and a port.
#[derive(PartialEq, Eq, Structural, Clone, Copy, Debug)]
pub struct Endpoint6 {
    pub ip: u128,
    pub port: u16,
}

/// One remote client connection multiplexed over the tunnel: where its
/// packets come from and where they go.
#[allow(inconsistent_fields)]
#[derive(PartialEq, Eq, Structural, Clone, Copy, Debug)]
pub enum UdpFlow {
    V4 { src: Endpoint4, dst: Endpoint4 },
    V6 { src: Endpoint6, dst: Endpoint6, flow: u32 },
}

/// The flow in the opposite direction: source and destination swapped.
pub open spec fn flipped(f: UdpFlow) -> UdpFlow {
    match f {
        UdpFlow::V4 { src, dst } => UdpFlow::V4 { src: dst, dst: src },
        UdpFlow::V6 { src, dst, flow } => UdpFlow::V6 { src: dst, dst: src, flow },
    }
}

/// Length of the tail that encodes `f`.
pub open spec fn tail_len(f: UdpFlow) -> nat {
    match f {
        UdpFlow::V4 { .. } => V4_LEN as nat,
        UdpFlow::V6 { .. } => V6_LEN as nat,
    }
}

/// The tail that encodes `f`: source and destination addresses, their ports,
/// the IPv6 flow label where there is one, and the footer id of the variant.
pub open spec fn tail_bytes(f: UdpFlow) -> Seq<u8> {
    match f {
        UdpFlow::V4 { src, dst } => be32(src.ip) + be32(dst.ip) + be16(src.port) + be16(dst.port)
            + be64(V4_FOOTER_ID),
        UdpFlow::V6 { src, dst, flow } => be128(src.ip) + be128(dst.ip) + be16(src.port) + be16(
            dst.port,
        ) + be32(flow) + be64(V6_FOOTER_ID),
    }
}

/// The IPv4 flow whose tail would end `s`, read without looking at the footer id.
pub open spec fn v4_flow_at_end(s: Seq<u8>) -> UdpFlow {
    let n = s.len() as int;
    UdpFlow::V4 {
        src: Endpoint4 { ip: u32_at(s, n - 20), port: u16_at(s, n - 12) },
        dst: Endpoint4 { ip: u32_at(s, n - 16), port: u16_at(s, n - 10) },
    }
}

/// The IPv6 flow whose tail would end `s`, read without looking at the footer id.
pub open spec fn v6_flow_at_end(s: Seq<u8>) -> UdpFlow {
    let n = s.len() as int;
    UdpFlow::V6 {
        src: Endpoint6 { ip: u128_at(s, n - 48), port: u16_at(s, n - 16) },
        dst: Endpoint6 { ip: u128_at(s, n - 32), port: u16_at(s, n - 14) },
        flow: u32_at(s, n - 12),
    }
}

/// The flow named by the tail at the end of the datagram `s`, if it ends in one:
/// the footer id picks the variant, and the datagram must be long enough to
/// hold that variant's tail.
pub open spec fn parse_tail(s: Seq<u8>) -> Option<UdpFlow> {
    let n = s.len() as int;
    if n < 8 {
        None
    } else {
        let id = u64_at(s, n - 8);
        if id == V4_FOOTER_ID && n >= V4_LEN {
            Some(v4_flow_at_end(s))
        } else if id == V6_FOOTER_ID && n >= V6_LEN {
            Some(v6_flow_at_end(s))
        } else {
            None
        }
    }
}

impl UdpFlow {
    /// Length of the tail for IPv4 flows.
    pub fn len_v4() -> (r: usize)
        ensures
            r == V4_LEN,
    {
        V4_LEN
    }

    /// Length of the tail for IPv6 flows.
    pub fn len_v6() -> (r: usize)
        ensures
            r == V6_LEN,
    {
        V6_LEN
    }

    /// Length of this flow's tail.
    pub fn len(&self) -> (r: usize)
        ensures
            r == tail_len(*self),
    {
        match self {
            UdpFlow::V4 { .. } => V4_LEN,
            UdpFlow::V6 { .. } => V6_LEN,
        }
    }

    /// The flow of replies to this one.
    pub fn flip(self) -> (r: UdpFlow)
        ensures
            r == flipped(self),
    {
        match self {
            UdpFlow::V4 { src, dst } => UdpFlow::V4 { src: dst, dst: src },
            UdpFlow::V6 { src, dst, flow } => UdpFlow::V6 { src: dst, dst: src, flow },
        }
    }

    /// Appends this flow's tail to `out`.
    pub fn write_to(&self, out: &mut Vec<u8>)
        ensures
            final(out)@ == old(out)@ + tail_bytes(*self),
            tail_bytes(*self).len() == tail_len(*self),
    {
        match self {
            UdpFlow::V4 { src, dst } => {
                push_u32(out, src.ip);
                push_u32(out, dst.ip);
                push_u16(out, src.port);
                push_u16(out, dst.port);
                push_u64(out, V4_FOOTER_ID);
            },
            UdpFlow::V6 { src, dst, flow } => {
                push_u128(out, src.ip);
                push_u128(out, dst.ip);
                push_u16(out, src.port);
                push_u16(out, dst.port);
                push_u32(out, *flow);
                push_u64(out, V6_FOOTER_ID);
            },
        }
        assert(final(out)@ =~= old(out)@ + tail_bytes(*self));
    }

    /// The flow named by the tail at the end of `data`, if there is one.
    pub fn from_tail(data: &[u8]) -> (r: Option<UdpFlow>)
        ensures
            r == parse_tail(data@),
            r matches Some(f) ==> tail_len(f) <= data@.len(),
    {
        let n = data.len();
        if n < 8 {
            return None;
        }
        let id = read_u64(data, n - 8);
        if id == V4_FOOTER_ID && n >= V4_LEN {
            Some(
                UdpFlow::V4 {
                    src: Endpoint4 { ip: read_u32(data, n - 20), port: read_u16(data, n - 12) },
                    dst: Endpoint4 { ip: read_u32(data, n - 16), port: read_u16(data, n - 10) },
                },
            )
        } else if id == V6_FOOTER_ID && n >= V6_LEN {
            Some(
                UdpFlow::V6 {
                    src: Endpoint6 { ip: read_u128(data, n - 48), port: read_u16(data, n - 16) },
                    dst: Endpoint6 { ip: read_u128(data, n - 32), port: read_u16(data, n - 14) },
                    flow: read_u32(data, n - 12),
                },
            )
        } else {
            None
        }
    }
}

/// Appends `a` then `b` to `s`: both can be read back at their offsets.
proof fn lemma_parts(s: Seq<u8>, a: Seq<u8>, b: Seq<u8>)
    ensures
        (s + a + b).subrange(s.len() as int, (s.len() + a.len()) as int) == a,
        (s + a + b).subrange((s.len() + a.len()) as int, (s.len() + a.len() + b.len()) as int) == b,
        s + a + b == s + (a + b),
{
    assert((s + a + b).subrange(s.len() as int, (s.len() + a.len()) as int) =~= a);
    assert((s + a + b).subrange((s.len() + a.len()) as int, (s.len() + a.len() + b.len()) as int) =~= b);
    assert(s + a + b =~= s + (a + b));
}

/// Appending to a sequence leaves what stood in it where it was.
proof fn lemma_keep(s: Seq<u8>, t: Seq<u8>, i: int, j: int)
    requires
        0 <= i <= j <= s.len(),
    ensures
        (s + t).subrange(i, j) == s.subrange(i, j),
{
    assert((s + t).subrange(i, j) =~= s.subrange(i, j));
}

proof fn lemma_v4_round_trip(payload: Seq<u8>, src: Endpoint4, dst: Endpoint4)
    ensures
        parse_tail(payload + tail_bytes(UdpFlow::V4 { src, dst })) == Some(
            UdpFlow::V4 { src, dst },
        ),
{
    let f = UdpFlow::V4 { src, dst };
    let (a, b, c, d, e) = (be32(src.ip), be32(dst.ip), be16(src.port), be16(dst.port), be64(V4_FOOTER_ID));
    assert(a.len() == 4 && b.len() == 4 && c.len() == 2 && d.len() == 2 && e.len() == 8);
    let p = payload.len() as int;
    let s1 = payload + a;
    let s2 = s1 + b;
    let s3 = s2 + c;
    let s4 = s3 + d;
    let s = s4 + e;
    assert(s == payload + tail_bytes(f)) by {
        assert(s =~= payload + tail_bytes(f));
    }
    lemma_parts(payload, a, b);
    lemma_parts(s2, c, d);
    lemma_parts(s3, d, e);
    lemma_keep(s2, c + d + e, p, p + 4);
    lemma_keep(s2, c + d + e, p + 4, p + 8);
    assert(s2 + c + d + e == s) by { assert(s2 + c + d + e =~= s); }
    assert(s2 + (c + d + e) == s) by { assert(s2 + (c + d + e) =~= s); }
    lemma_keep(s4, e, p + 8, p + 10);
    lemma_keep(s4, e, p + 10, p + 12);
    lemma_read32(s, p, src.ip);
    lemma_read32(s, p + 4, dst.ip);
    lemma_read16(s, p + 8, src.port);
    lemma_read16(s, p + 10, dst.port);
    lemma_read64(s, p + 12, V4_FOOTER_ID);
}

/// Regrouping the six parts of an IPv6 tail after a payload.
proof fn lemma_regroup6(
    p: Seq<u8>,
    a: Seq<u8>,
    b: Seq<u8>,
    c: Seq<u8>,
    d: Seq<u8>,
    g: Seq<u8>,
    e: Seq<u8>,
)
    ensures
        p + (a + b + c + d + g + e) == p + a + b + c + d + g + e,
        (p + a + b) + (c + d + g + e) == p + a + b + c + d + g + e,
        (p + a + b + c + d) + (g + e) == p + a + b + c + d + g + e,
{
    assert(p + (a + b + c + d + g + e) =~= p + a + b + c + d + g + e);
    assert((p + a + b) + (c + d + g + e) =~= p + a + b + c + d + g + e);
    assert((p + a + b + c + d) + (g + e) =~= p + a + b + c + d + g + e);
}

#[verifier::rlimit(50)]
proof fn lemma_v6_round_trip(payload: Seq<u8>, src: Endpoint6, dst: Endpoint6, flow: u32)
    ensures
        parse_tail(payload + tail_bytes(UdpFlow::V6 { src, dst, flow })) == Some(
            UdpFlow::V6 { src, dst, flow },
        ),
{
    let a = be128(src.ip);
    let b = be128(dst.ip);
    let c = be16(src.port);
    let d = be16(dst.port);
    let g = be32(flow);
    let e = be64(V6_FOOTER_ID);
    assert(a.len() == 16 && b.len() == 16 && c.len() == 2 && d.len() == 2 && g.len() == 4
        && e.len() == 8);
    let p = payload.len() as int;
    let s2 = payload + a + b;
    let s4 = s2 + c + d;
    let s = s4 + g + e;
    lemma_regroup6(payload, a, b, c, d, g, e);
    lemma_parts(payload, a, b);
    lemma_parts(s2, c, d);
    lemma_parts(s4, g, e);
    lemma_keep(s2, c + d + g + e, p, p + 16);
    lemma_keep(s2, c + d + g + e, p + 16, p + 32);
    lemma_keep(s4, g + e, p + 32, p + 34);
    lemma_keep(s4, g + e, p + 34, p + 36);
    lemma_read128(s, p, src.ip);
    lemma_read128(s, p + 16, dst.ip);
    lemma_read16(s, p + 32, src.port);
    lemma_read16(s, p + 34, dst.port);
    lemma_read32(s, p + 36, flow);
    lemma_read64(s, p + 40, V6_FOOTER_ID);
}

/// Decoding the tail that was appended to any payload gives back the flow.
pub proof fn lemma_tail_round_trip(payload: Seq<u8>, f: UdpFlow)
    ensures
        parse_tail(payload + tail_bytes(f)) == Some(f),
{
    match f {
        UdpFlow::V4 { src, dst } => lemma_v4_round_trip(payload, src, dst),
        UdpFlow::V6 { src, dst, flow } => lemma_v6_round_trip(payload, src, dst, flow),
    }
}

/// Flipping a flow twice gives the flow back.
pub proof fn lemma_flip_involutive(f: UdpFlow)
    ensures
        flipped(flipped(f)) == f,
{
}

} // verus!
