//! Packet framing on a port's byte stream: a fixed header of `HEADER_LEN`
//! bytes, which carries the call tag and whether the packet is a request or a
//! response, followed by the payload.

use vstd::prelude::*;
use crate::calls::CallTag;
use crate::ids::{HandleInstance, MethodId, ServiceObjectId};

verus! {

/// Number of header bytes in front of every packet's payload.
pub const HEADER_LEN: usize = 8;

/// Header byte that marks a request.
pub const KIND_REQUEST: u8 = 0;

/// Header byte that marks a response.
pub const KIND_RESPONSE: u8 = 1;

/// Whether a packet is a call or the answer to one.
#[derive(PartialEq, Eq, Structural, Debug, Clone, Copy)]
pub enum PacketKind {
    Request,
    Response,
}

/// The header of a packet.
#[derive(PartialEq, Eq, Structural, Debug, Clone, Copy)]
pub struct PacketHeader {
    pub kind: PacketKind,
    pub tag: CallTag,
}

/// Why a packet could not be read.
#[derive(PartialEq, Eq, Structural, Debug, Clone, Copy)]
pub enum FrameError {
    /// The packet is shorter than a header.
    Short,
    /// The kind byte is neither a request nor a response.
    BadKind,
}

/// The header byte of a kind.
pub open spec fn kind_byte(kind: PacketKind) -> u8 {
    match kind {
        PacketKind::Request => KIND_REQUEST,
        PacketKind::Response => KIND_RESPONSE,
    }
}

/// The two bytes of `x`, little-endian.
pub open spec fn u16_bytes(x: u16) -> Seq<u8> {
    seq![(x % 256) as u8, (x / 256) as u8]
}

/// The four bytes of `x`, little-endian.
pub open spec fn u32_bytes(x: u32) -> Seq<u8> {
    seq![(x % 256) as u8, ((x / 256) % 256) as u8, ((x / 65536) % 256) as u8, (x / 16777216) as u8]
}

/// The number that bytes `at` and `at + 1` of `p` spell, little-endian.
pub open spec fn le16(p: Seq<u8>, at: int) -> int {
    p[at] as int + 256 * p[at + 1] as int
}

/// The number that bytes `at` to `at + 3` of `p` spell, little-endian.
pub open spec fn le32(p: Seq<u8>, at: int) -> int {
    p[at] as int + 256 * p[at + 1] as int + 65536 * p[at + 2] as int + 16777216 * p[at + 3] as int
}

/// The header bytes of `h`: the tag, the kind byte, then three zero bytes.
pub open spec fn header_bytes(h: PacketHeader) -> Seq<u8> {
    u32_bytes(h.tag) + seq![kind_byte(h.kind), 0u8, 0u8, 0u8]
}

/// The tag that the first four bytes of `p` spell.
pub open spec fn tag_of(p: Seq<u8>) -> int {
    le32(p, 0)
}

/// What reading the header of `p` gives.
pub open spec fn decode_spec(p: Seq<u8>) -> Result<PacketHeader, FrameError> {
    if p.len() < HEADER_LEN {
        Err(FrameError::Short)
    } else if p[4] == KIND_REQUEST {
        Ok(PacketHeader { kind: PacketKind::Request, tag: tag_of(p) as CallTag })
    } else if p[4] == KIND_RESPONSE {
        Ok(PacketHeader { kind: PacketKind::Response, tag: tag_of(p) as CallTag })
    } else {
        Err(FrameError::BadKind)
    }
}

/// Reading back the bytes of a number gives the number.
pub proof fn lemma_le_round_trip(p: Seq<u8>, at: int, x16: u16, x32: u32)
    ensures
        0 <= at && at + 2 <= p.len() && p.subrange(at, at + 2) == u16_bytes(x16) ==> le16(p, at) == x16,
        0 <= at && at + 4 <= p.len() && p.subrange(at, at + 4) == u32_bytes(x32) ==> le32(p, at) == x32,
{
    if 0 <= at && at + 2 <= p.len() && p.subrange(at, at + 2) == u16_bytes(x16) {
        let t = x16 as int;
        assert(p[at] == p.subrange(at, at + 2)[0]);
        assert(p[at + 1] == p.subrange(at, at + 2)[1]);
        assert(t / 256 < 256) by (nonlinear_arith)
            requires 0 <= t < 0x1_0000;
        assert(le16(p, at) == t) by (nonlinear_arith)
            requires
                0 <= t,
                le16(p, at) == (t % 256) + 256 * (t / 256),
        {
        }
    }
    if 0 <= at && at + 4 <= p.len() && p.subrange(at, at + 4) == u32_bytes(x32) {
        let t = x32 as int;
        assert(p[at] == p.subrange(at, at + 4)[0]);
        assert(p[at + 1] == p.subrange(at, at + 4)[1]);
        assert(p[at + 2] == p.subrange(at, at + 4)[2]);
        assert(p[at + 3] == p.subrange(at, at + 4)[3]);
        assert(t / 16777216 < 256) by (nonlinear_arith)
            requires 0 <= t < 0x1_0000_0000;
        assert(le32(p, at) == t) by (nonlinear_arith)
            requires
                0 <= t,
                le32(p, at) == (t % 256) + 256 * ((t / 256) % 256) + 65536 * ((t / 65536) % 256) + 16777216 * (t / 16777216),
        {
        }
    }
}

/// Appends the bytes of `x`.
pub fn push_u16(v: &mut Vec<u8>, x: u16)
    ensures
        final(v)@ == old(v)@ + u16_bytes(x),
{
    v.push((x % 256) as u8);
    v.push((x / 256) as u8);
    assert(final(v)@ =~= old(v)@ + u16_bytes(x));
}

/// Appends the bytes of `x`.
pub fn push_u32(v: &mut Vec<u8>, x: u32)
    ensures
        final(v)@ == old(v)@ + u32_bytes(x),
{
    v.push((x % 256) as u8);
    v.push(((x / 256) % 256) as u8);
    v.push(((x / 65536) % 256) as u8);
    v.push((x / 16777216) as u8);
    assert(final(v)@ =~= old(v)@ + u32_bytes(x));
}

/// Appends the bytes of `s`.
pub fn push_bytes(v: &mut Vec<u8>, s: &[u8])
    ensures
        final(v)@ == old(v)@ + s@,
{
    let mut i: usize = 0;
    while i < s.len()
        invariant
            i <= s@.len(),
            v@ =~= old(v)@ + s@.subrange(0, i as int),
        decreases s@.len() - i,
    {
        v.push(s[i]);
        i = i + 1;
    }
    assert(s@.subrange(0, s@.len() as int) =~= s@);
}

/// The number that bytes `at` and `at + 1` of `p` spell.
pub fn read_u16(p: &[u8], at: usize) -> (r: u16)
    requires
        at + 2 <= p@.len(),
    ensures
        r as int == le16(p@, at as int),
{
    p[at] as u16 + 256 * (p[at + 1] as u16)
}

/// The number that bytes `at` to `at + 3` of `p` spell.
pub fn read_u32(p: &[u8], at: usize) -> (r: u32)
    requires
        at + 4 <= p@.len(),
    ensures
        r as int == le32(p@, at as int),
{
    p[at] as u32 + 256 * (p[at + 1] as u32) + 65536 * (p[at + 2] as u32) + 16777216 * (p[at + 3] as u32)
}

/// The packet with header `header` and payload `payload`.
pub fn encode(header: PacketHeader, payload: &[u8]) -> (r: Vec<u8>)
    ensures
        r@ == header_bytes(header) + payload@,
{
    let kind = match header.kind {
        PacketKind::Request => KIND_REQUEST,
        PacketKind::Response => KIND_RESPONSE,
    };
    let mut r: Vec<u8> = Vec::new();
    push_u32(&mut r, header.tag);
    r.push(kind);
    r.push(0u8);
    r.push(0u8);
    r.push(0u8);
    assert(r@ =~= header_bytes(header));
    push_bytes(&mut r, payload);
    r
}

/// Reads the header of `packet`.
pub fn decode(packet: &[u8]) -> (r: Result<PacketHeader, FrameError>)
    ensures
        r == decode_spec(packet@),
{
    if packet.len() < HEADER_LEN {
        return Err(FrameError::Short);
    }
    let tag = read_u32(packet, 0);
    if packet[4] == KIND_REQUEST {
        Ok(PacketHeader { kind: PacketKind::Request, tag })
    } else if packet[4] == KIND_RESPONSE {
        Ok(PacketHeader { kind: PacketKind::Response, tag })
    } else {
        Err(FrameError::BadKind)
    }
}

/// The payload of `packet`: what follows the header.
pub fn payload_of(packet: &[u8]) -> (r: &[u8])
    requires
        packet@.len() >= HEADER_LEN,
    ensures
        r@ == packet@.subrange(HEADER_LEN as int, packet@.len() as int),
{
    vstd::slice::slice_subrange(packet, HEADER_LEN, packet.len())
}

/// Reading back a packet gives the header it was written with, and its
/// payload is the one written.
pub proof fn lemma_frame_round_trip(header: PacketHeader, payload: Seq<u8>)
    ensures
        decode_spec(header_bytes(header) + payload) == Ok::<PacketHeader, FrameError>(header),
        (header_bytes(header) + payload).subrange(HEADER_LEN as int, HEADER_LEN + payload.len()) == payload,
{
    let p = header_bytes(header) + payload;
    assert(p.subrange(0, 4) =~= u32_bytes(header.tag));
    lemma_le_round_trip(p, 0, 0, header.tag);
    assert(p.subrange(HEADER_LEN as int, HEADER_LEN + payload.len()) =~= payload);
}

/// Number of bytes of a call body in front of its arguments.
pub const CALL_BODY_LEN: usize = 12;

/// The bytes of a call body in front of its arguments: the handle's trait
/// id, index, exporter port and importer port, then the method id.
pub open spec fn call_head_bytes(h: HandleInstance, method: MethodId) -> Seq<u8> {
    u16_bytes(h.id.trait_id) + u16_bytes(h.id.index) + u16_bytes(h.port_id_exporter) + u16_bytes(h.port_id_importer)
        + u32_bytes(method)
}

/// What reading a call body gives: the handle, the method id and the arguments.
pub open spec fn decode_call_spec(body: Seq<u8>) -> Option<(HandleInstance, MethodId, Seq<u8>)> {
    if body.len() < CALL_BODY_LEN {
        None
    } else {
        Some((
            HandleInstance {
                id: ServiceObjectId { trait_id: le16(body, 0) as u16, index: le16(body, 2) as u16 },
                port_id_exporter: le16(body, 4) as u16,
                port_id_importer: le16(body, 6) as u16,
            },
            le32(body, 8) as u32,
            body.subrange(CALL_BODY_LEN as int, body.len() as int),
        ))
    }
}

/// The body of a call of `method` through `handle` with serialized `arguments`.
pub fn encode_call(handle: &HandleInstance, method: MethodId, arguments: &[u8]) -> (r: Vec<u8>)
    ensures
        r@ == call_head_bytes(*handle, method) + arguments@,
{
    let mut r: Vec<u8> = Vec::new();
    push_u16(&mut r, handle.id.trait_id);
    push_u16(&mut r, handle.id.index);
    push_u16(&mut r, handle.port_id_exporter);
    push_u16(&mut r, handle.port_id_importer);
    push_u32(&mut r, method);
    assert(r@ =~= call_head_bytes(*handle, method));
    push_bytes(&mut r, arguments);
    r
}

/// Reads a call body.
pub fn decode_call(body: &[u8]) -> (r: Option<(HandleInstance, MethodId, &[u8])>)
    ensures
        r is None ==> decode_call_spec(body@) is None,
        r matches Some((h, m, a)) ==> decode_call_spec(body@) == Some((h, m, a@)),
{
    if body.len() < CALL_BODY_LEN {
        return None;
    }
    let trait_id = read_u16(body, 0);
    let index = read_u16(body, 2);
    let port_id_exporter = read_u16(body, 4);
    let port_id_importer = read_u16(body, 6);
    let method = read_u32(body, 8);
    let arguments = vstd::slice::slice_subrange(body, CALL_BODY_LEN, body.len());
    Some((
        HandleInstance { id: ServiceObjectId { trait_id, index }, port_id_exporter, port_id_importer },
        method,
        arguments,
    ))
}

/// Reading back a call body gives the handle, method id and arguments it
/// was written with.
pub proof fn lemma_call_round_trip(handle: HandleInstance, method: MethodId, arguments: Seq<u8>)
    ensures
        decode_call_spec(call_head_bytes(handle, method) + arguments) == Some((handle, method, arguments)),
{
    let b = call_head_bytes(handle, method) + arguments;
    assert(b.subrange(0, 2) =~= u16_bytes(handle.id.trait_id));
    assert(b.subrange(2, 4) =~= u16_bytes(handle.id.index));
    assert(b.subrange(4, 6) =~= u16_bytes(handle.port_id_exporter));
    assert(b.subrange(6, 8) =~= u16_bytes(handle.port_id_importer));
    assert(b.subrange(8, 12) =~= u32_bytes(method));
    lemma_le_round_trip(b, 0, handle.id.trait_id, 0);
    lemma_le_round_trip(b, 2, handle.id.index, 0);
    lemma_le_round_trip(b, 4, handle.port_id_exporter, 0);
    lemma_le_round_trip(b, 6, handle.port_id_importer, 0);
    lemma_le_round_trip(b, 8, 0, method);
    assert(b.subrange(CALL_BODY_LEN as int, b.len() as int) =~= arguments);
}

} // verus!
