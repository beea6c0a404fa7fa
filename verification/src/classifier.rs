//! The classifier: walks one frame's protocol stack (link, IPv4, TCP), resolves
//! the TCP header's variable length, probes the first payload bytes for an HTTP
//! method token, and counts a match on the shared counter. Every frame gets the
//! pass-unmodified disposition, whatever the outcome.

use vstd::prelude::*;

use crate::counter::Counter;
use crate::frame::ptr_at;

verus! {

/// Byte length of the link-layer header: two six-byte addresses and the
/// two-byte protocol type.
pub const ETH_HDR_LEN: usize = 14;

/// Byte length of the IPv4 header as this library reads it (no options).
pub const IPV4_HDR_LEN: usize = 20;

/// Byte length of the fixed part of the TCP header.
pub const TCP_HDR_LEN: usize = 20;

/// Link-layer protocol type of IPv4, big-endian value of the two type bytes.
pub const ETHER_TYPE_IPV4: u16 = 0x0800;

/// IPv4 protocol number of TCP.
pub const IP_PROTO_TCP: u8 = 6;

/// The fewest payload bytes a frame may hold and still classify: a probe
/// shorter than four bytes is never classified, even though the shortest
/// tokens are three bytes long. Four is the chosen minimum; the window below
/// bounds the longest read.
pub const PROBE_MIN_LEN: usize = 4;

/// Byte length of the payload probe window: the longest method token
/// compared, so every token can match exactly when it fits in what the frame
/// holds, and no read ever goes further.
pub const PROBE_WINDOW_LEN: usize = 7;

/// The receive hook's pass-unmodified disposition.
pub const XDP_PASS: u32 = 2;

/// The link-layer protocol type: big-endian in the two bytes before the link
/// header's end.
pub open spec fn spec_ether_type(frame: Seq<u8>) -> int
    recommends
        frame.len() >= ETH_HDR_LEN,
{
    frame[12] * 256 + frame[13]
}

/// The IPv4 header's protocol field, at byte 9 of the network header.
pub open spec fn spec_ip_proto(frame: Seq<u8>) -> u8
    recommends
        frame.len() >= ETH_HDR_LEN + IPV4_HDR_LEN,
{
    frame[ETH_HDR_LEN + 9]
}

/// The TCP data-offset field: the high four bits of byte 12 of the transport
/// header, the header's length in 32-bit words.
pub open spec fn spec_tcp_data_offset(frame: Seq<u8>) -> u8
    recommends
        frame.len() >= ETH_HDR_LEN + IPV4_HDR_LEN + TCP_HDR_LEN,
{
    frame[ETH_HDR_LEN + IPV4_HDR_LEN + 12] >> 4
}

/// Whether a data-offset value encodes a valid TCP header length (20 to 60
/// bytes).
pub open spec fn spec_data_offset_valid(doff: u8) -> bool {
    5 <= doff <= 15
}

/// Whether the probe's first three bytes are exactly `a`, `b`, `c`.
pub open spec fn spec_prefix3(p: Seq<u8>, a: u8, b: u8, c: u8) -> bool {
    p.len() >= 3 && p[0] == a && p[1] == b && p[2] == c
}

/// Whether the probe's first four bytes are exactly `a`, `b`, `c`, `d`.
pub open spec fn spec_prefix4(p: Seq<u8>, a: u8, b: u8, c: u8, d: u8) -> bool {
    p.len() >= 4 && p[0] == a && p[1] == b && p[2] == c && p[3] == d
}

/// Whether the probe's first five bytes are exactly `a` through `e`.
pub open spec fn spec_prefix5(p: Seq<u8>, a: u8, b: u8, c: u8, d: u8, e: u8) -> bool {
    p.len() >= 5 && p[0] == a && p[1] == b && p[2] == c && p[3] == d && p[4] == e
}

/// Whether the probe's first six bytes are exactly `a` through `f`.
pub open spec fn spec_prefix6(p: Seq<u8>, a: u8, b: u8, c: u8, d: u8, e: u8, f: u8) -> bool {
    p.len() >= 6 && p[0] == a && p[1] == b && p[2] == c && p[3] == d && p[4] == e && p[5] == f
}

/// Whether the probe's first seven bytes are exactly `a` through `g`.
pub open spec fn spec_prefix7(
    p: Seq<u8>,
    a: u8,
    b: u8,
    c: u8,
    d: u8,
    e: u8,
    f: u8,
    g: u8,
) -> bool {
    p.len() >= 7 && p[0] == a && p[1] == b && p[2] == c && p[3] == d && p[4] == e && p[5] == f
        && p[6] == g
}

/// Whether the probe begins with one of the nine recognized HTTP method
/// tokens — `GET`, `POST`, `PUT`, `HEAD`, `DELETE`, `PATCH`, `OPTIONS`,
/// `CONNECT`, `TRACE` — each anchored on the token's exact bytes as a true
/// prefix, with no trailing delimiter assumed. A token matches only when it
/// fits whole in the probe, and a probe shorter than the four-byte minimum
/// never matches.
pub open spec fn spec_is_http_method(p: Seq<u8>) -> bool {
    &&& p.len() >= PROBE_MIN_LEN
    &&& {
        ||| spec_prefix3(p, 0x47, 0x45, 0x54)  // GET
        ||| spec_prefix4(p, 0x50, 0x4f, 0x53, 0x54)  // POST
        ||| spec_prefix3(p, 0x50, 0x55, 0x54)  // PUT
        ||| spec_prefix4(p, 0x48, 0x45, 0x41, 0x44)  // HEAD
        ||| spec_prefix6(p, 0x44, 0x45, 0x4c, 0x45, 0x54, 0x45)  // DELETE
        ||| spec_prefix5(p, 0x50, 0x41, 0x54, 0x43, 0x48)  // PATCH
        ||| spec_prefix7(p, 0x4f, 0x50, 0x54, 0x49, 0x4f, 0x4e, 0x53)  // OPTIONS
        ||| spec_prefix7(p, 0x43, 0x4f, 0x4e, 0x4e, 0x45, 0x43, 0x54)  // CONNECT
        ||| spec_prefix5(p, 0x54, 0x52, 0x41, 0x43, 0x45)  // TRACE
    }
}

/// Where the payload starts: after the link, network, and transport headers.
pub open spec fn spec_payload_offset(frame: Seq<u8>) -> int
    recommends
        frame.len() >= ETH_HDR_LEN + IPV4_HDR_LEN + TCP_HDR_LEN,
{
    ETH_HDR_LEN + IPV4_HDR_LEN + 4 * spec_tcp_data_offset(frame)
}

/// Where the payload probe ends: one window past the payload's start, or at
/// the frame's end when the frame holds less than a full window.
pub open spec fn spec_probe_end(frame: Seq<u8>) -> int
    recommends
        frame.len() >= ETH_HDR_LEN + IPV4_HDR_LEN + TCP_HDR_LEN,
{
    if frame.len() >= spec_payload_offset(frame) + PROBE_WINDOW_LEN {
        spec_payload_offset(frame) + PROBE_WINDOW_LEN
    } else {
        frame.len() as int
    }
}

/// The payload probe: the window of payload bytes the matcher sees, no wider
/// than the longest token and never past the frame's end.
pub open spec fn spec_probe(frame: Seq<u8>) -> Seq<u8>
    recommends
        frame.len() >= ETH_HDR_LEN + IPV4_HDR_LEN + TCP_HDR_LEN,
        spec_payload_offset(frame) <= frame.len(),
{
    frame.subrange(spec_payload_offset(frame), spec_probe_end(frame))
}

/// Whether one frame is classified as the start of an HTTP request: an IPv4
/// link type, a TCP network protocol, a valid TCP data offset, and a payload
/// probe that begins with a recognized method token, with every read in
/// bounds.
pub open spec fn spec_classified(frame: Seq<u8>) -> bool {
    &&& frame.len() >= ETH_HDR_LEN + IPV4_HDR_LEN + TCP_HDR_LEN
    &&& spec_ether_type(frame) == ETHER_TYPE_IPV4
    &&& spec_ip_proto(frame) == IP_PROTO_TCP
    &&& spec_data_offset_valid(spec_tcp_data_offset(frame))
    &&& frame.len() >= spec_payload_offset(frame) + PROBE_MIN_LEN
    &&& spec_is_http_method(spec_probe(frame))
}

/// Resolves the TCP data-offset field to the header's byte length: four bytes
/// per 32-bit word, defined exactly for field values 5 through 15 and rejected
/// otherwise. The enumerated mapping keeps the valid domain and its boundary
/// explicit.
pub fn tcp_header_len(doff: u8) -> (r: Option<usize>)
    ensures
        spec_data_offset_valid(doff) ==> r == Some((4 * doff) as usize),
        !spec_data_offset_valid(doff) ==> r is None,
{
    match doff {
        5 => Some(20),
        6 => Some(24),
        7 => Some(28),
        8 => Some(32),
        9 => Some(36),
        10 => Some(40),
        11 => Some(44),
        12 => Some(48),
        13 => Some(52),
        14 => Some(56),
        15 => Some(60),
        _ => None,
    }
}

/// Whether the probe's first three bytes are exactly `a`, `b`, `c`; false for
/// a shorter probe.
fn prefix3(p: &[u8], a: u8, b: u8, c: u8) -> (r: bool)
    ensures
        r == spec_prefix3(p@, a, b, c),
{
    p.len() >= 3 && p[0] == a && p[1] == b && p[2] == c
}

/// Whether the probe's first four bytes are exactly `a`, `b`, `c`, `d`; false
/// for a shorter probe.
fn prefix4(p: &[u8], a: u8, b: u8, c: u8, d: u8) -> (r: bool)
    ensures
        r == spec_prefix4(p@, a, b, c, d),
{
    p.len() >= 4 && p[0] == a && p[1] == b && p[2] == c && p[3] == d
}

/// Whether the probe's first five bytes are exactly `a` through `e`; false
/// for a shorter probe.
fn prefix5(p: &[u8], a: u8, b: u8, c: u8, d: u8, e: u8) -> (r: bool)
    ensures
        r == spec_prefix5(p@, a, b, c, d, e),
{
    p.len() >= 5 && p[0] == a && p[1] == b && p[2] == c && p[3] == d && p[4] == e
}

/// Whether the probe's first six bytes are exactly `a` through `f`; false for
/// a shorter probe.
fn prefix6(p: &[u8], a: u8, b: u8, c: u8, d: u8, e: u8, f: u8) -> (r: bool)
    ensures
        r == spec_prefix6(p@, a, b, c, d, e, f),
{
    p.len() >= 6 && p[0] == a && p[1] == b && p[2] == c && p[3] == d && p[4] == e && p[5] == f
}

/// Whether the probe's first seven bytes are exactly `a` through `g`; false
/// for a shorter probe.
fn prefix7(p: &[u8], a: u8, b: u8, c: u8, d: u8, e: u8, f: u8, g: u8) -> (r: bool)
    ensures
        r == spec_prefix7(p@, a, b, c, d, e, f, g),
{
    p.len() >= 7 && p[0] == a && p[1] == b && p[2] == c && p[3] == d && p[4] == e && p[5] == f
        && p[6] == g
}

/// Whether the probe begins with one of the nine recognized method tokens,
/// each a true prefix on its exact bytes with no trailing delimiter assumed.
/// A token longer than the probe never matches, so the probe's own bounds are
/// never read past, and a probe shorter than the four-byte minimum never
/// matches at all.
pub fn is_http_method(probe: &[u8]) -> (r: bool)
    ensures
        r == spec_is_http_method(probe@),
{
    probe.len() >= PROBE_MIN_LEN && (
        prefix3(probe, 0x47, 0x45, 0x54)  // GET
        || prefix4(probe, 0x50, 0x4f, 0x53, 0x54)  // POST
        || prefix3(probe, 0x50, 0x55, 0x54)  // PUT
        || prefix4(probe, 0x48, 0x45, 0x41, 0x44)  // HEAD
        || prefix6(probe, 0x44, 0x45, 0x4c, 0x45, 0x54, 0x45)  // DELETE
        || prefix5(probe, 0x50, 0x41, 0x54, 0x43, 0x48)  // PATCH
        || prefix7(probe, 0x4f, 0x50, 0x54, 0x49, 0x4f, 0x4e, 0x53)  // OPTIONS
        || prefix7(probe, 0x43, 0x4f, 0x4e, 0x4e, 0x45, 0x43, 0x54)  // CONNECT
        || prefix5(probe, 0x54, 0x52, 0x41, 0x43, 0x45)  // TRACE
    )
}

/// Walks the frame's headers and counts it when it is classified: `Ok` exactly
/// on the classified frames, with the counter up by one; `Err` on every other
/// frame — protocol mismatch, truncation, or an invalid data offset alike —
/// with the counter unchanged.
pub fn try_program(frame: &[u8], counter: &mut Counter) -> (r: Result<(), ()>)
    requires
        old(counter)@ < u64::MAX,
    ensures
        r is Ok <==> spec_classified(frame@),
        spec_classified(frame@) ==> final(counter)@ == old(counter)@ + 1,
        !spec_classified(frame@) ==> final(counter)@ == old(counter)@,
        final(counter)@ >= old(counter)@,
{
    let eth = match ptr_at(frame, 0, ETH_HDR_LEN) {
        Some(v) => v,
        None => return Err(()),
    };
    let ether_type: u16 = (eth[12] as u16) * 256 + (eth[13] as u16);
    if ether_type != ETHER_TYPE_IPV4 {
        return Err(());
    }

    let ipv4 = match ptr_at(frame, ETH_HDR_LEN, IPV4_HDR_LEN) {
        Some(v) => v,
        None => return Err(()),
    };
    if ipv4[9] != IP_PROTO_TCP {
        return Err(());
    }

    let tcp = match ptr_at(frame, ETH_HDR_LEN + IPV4_HDR_LEN, TCP_HDR_LEN) {
        Some(v) => v,
        None => return Err(()),
    };
    let doff: u8 = tcp[12] >> 4;
    let tcp_len = match tcp_header_len(doff) {
        Some(n) => n,
        None => return Err(()),
    };

    let payload_offset = ETH_HDR_LEN + IPV4_HDR_LEN + tcp_len;
    if frame.len() < payload_offset + PROBE_MIN_LEN {
        return Err(());
    }
    let held = frame.len() - payload_offset;
    let probe_len = if held < PROBE_WINDOW_LEN {
        held
    } else {
        PROBE_WINDOW_LEN
    };
    let probe = match ptr_at(frame, payload_offset, probe_len) {
        Some(v) => v,
        None => return Err(()),
    };
    if !is_http_method(probe) {
        return Err(());
    }

    counter.increment();
    Ok(())
}

/// The receive-hook entry: classifies and counts the frame, and returns the
/// pass-unmodified disposition whatever the outcome — the classifier observes
/// traffic, it never drops or redirects it.
pub fn program(frame: &[u8], counter: &mut Counter) -> (r: u32)
    requires
        old(counter)@ < u64::MAX,
    ensures
        r == XDP_PASS,
        spec_classified(frame@) ==> final(counter)@ == old(counter)@ + 1,
        !spec_classified(frame@) ==> final(counter)@ == old(counter)@,
        final(counter)@ >= old(counter)@,
{
    let _ = try_program(frame, counter);
    XDP_PASS
}

/// A frame shorter than the link, network, and fixed transport headers
/// together is never classified, so the walk over it never touches the
/// counter.
pub proof fn lemma_truncated_frame_not_classified(frame: Seq<u8>)
    requires
        frame.len() < ETH_HDR_LEN + IPV4_HDR_LEN + TCP_HDR_LEN,
    ensures
        !spec_classified(frame),
{
}

/// A classified frame holds the whole header stack and a probe of at least
/// the minimum: its length covers the link and network headers, the transport
/// header's resolved length, and the probe's four-byte minimum.
pub proof fn lemma_classified_frame_is_long_enough(frame: Seq<u8>)
    requires
        spec_classified(frame),
    ensures
        spec_data_offset_valid(spec_tcp_data_offset(frame)),
        frame.len() >= ETH_HDR_LEN + IPV4_HDR_LEN + 4 * spec_tcp_data_offset(frame)
            + PROBE_MIN_LEN,
{
}

/// A transport data offset outside 5 through 15 rejects the frame: no payload
/// byte has any bearing on the outcome.
pub proof fn lemma_invalid_data_offset_rejects(frame: Seq<u8>)
    requires
        !spec_data_offset_valid(spec_tcp_data_offset(frame)),
    ensures
        !spec_classified(frame),
{
}

/// The fault path's disposition. The hook demands an answer on every path and
/// a fault must not alter forwarding, so a fault passes the frame on
/// unmodified; the verified entry points above never reach it.
pub fn panic() -> (r: u32)
    ensures
        r == XDP_PASS,
{
    XDP_PASS
}

} // verus!
