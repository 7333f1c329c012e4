//! The beacon wire format: a two-byte magic number, the advertised service
//! port (both big-endian), then the service name as raw bytes. The name has
//! no length prefix; it runs to the end of the datagram.

use vstd::prelude::*;

verus! {

/// Fixed two-byte sentinel identifying a datagram as a beacon rather than
/// arbitrary traffic.
pub const MAGIC_NUMBER: u16 = 0xbeef;

/// Bytes of a beacon payload before the service name: two magic bytes and
/// two service-port bytes.
pub const BEACON_HEADER_SIZE: usize = 4;

/// The largest datagram a listener reads in one receive; longer payloads are
/// truncated by the transport before decoding, which is accepted behavior.
pub const MAX_INCOMING_BEACON_SIZE: usize = 1024;

/// The high (most significant) byte of a 16-bit value.
pub open spec fn u16_hi(x: u16) -> u8 {
    (x / 256) as u8
}

/// The low (least significant) byte of a 16-bit value.
pub open spec fn u16_lo(x: u16) -> u8 {
    (x % 256) as u8
}

/// The 16-bit value spelled big-endian by two bytes.
pub open spec fn u16_of_bytes(hi: u8, lo: u8) -> u16 {
    (hi * 256 + lo) as u16
}

/// Splitting a 16-bit value into its bytes and reading them back big-endian
/// is the identity.
pub proof fn lemma_u16_bytes_round_trip(x: u16)
    ensures
        u16_of_bytes(u16_hi(x), u16_lo(x)) == x,
{
    vstd::arithmetic::div_mod::lemma_fundamental_div_mod(x as int, 256);
}

/// Split a 16-bit value into two bytes, big-endian.
pub fn u16_to_array_of_u8(x: u16) -> (r: [u8; 2])
    ensures
        r[0] == u16_hi(x),
        r[1] == u16_lo(x),
{
    let b1: u8 = ((x >> 8) & 0xff) as u8;
    let b2: u8 = (x & 0xff) as u8;
    proof {
        assert(((x >> 8) & 0xff) as u8 == (x / 256) as u8) by (bit_vector);
        assert((x & 0xff) as u8 == (x % 256) as u8) by (bit_vector);
    }
    [b1, b2]
}

/// Read a 16-bit value big-endian from the first two bytes of a slice.
pub fn array_of_u8_to_u16(array: &[u8]) -> (r: u16)
    requires
        array@.len() >= 2,
    ensures
        r == u16_of_bytes(array[0], array[1]),
{
    let a0: u8 = *vstd::slice::slice_index_get(array, 0);
    let a1: u8 = *vstd::slice::slice_index_get(array, 1);
    let upper: u16 = (a0 as u16) << 8;
    let lower: u16 = a1 as u16;
    proof {
        assert((a0 as u16) << 8 == a0 as u16 * 256) by (bit_vector);
    }
    upper + lower
}

/// The beacon payload announcing `service_name` on `service_port`: the magic
/// number and the port big-endian, then the name bytes.
pub open spec fn encode_spec(service_port: u16, service_name: Seq<u8>) -> Seq<u8> {
    seq![
        u16_hi(MAGIC_NUMBER),
        u16_lo(MAGIC_NUMBER),
        u16_hi(service_port),
        u16_lo(service_port),
    ] + service_name
}

/// A datagram is a beacon when it has at least the header bytes and leads
/// with the magic number.
pub open spec fn is_beacon(data: Seq<u8>) -> bool {
    data.len() >= BEACON_HEADER_SIZE && u16_of_bytes(data[0], data[1]) == MAGIC_NUMBER
}

/// The service port a beacon advertises: its third and fourth bytes,
/// big-endian.
pub open spec fn decoded_service_port(data: Seq<u8>) -> u16 {
    u16_of_bytes(data[2], data[3])
}

/// The service name a beacon carries: every byte after the header.
pub open spec fn decoded_service_name(data: Seq<u8>) -> Seq<u8> {
    data.subrange(BEACON_HEADER_SIZE as int, data.len() as int)
}

/// Encode one beacon payload for a service named `service_name` that can be
/// contacted on `service_port`.
pub fn encode(service_port: u16, service_name: &[u8]) -> (r: Vec<u8>)
    ensures
        r@ == encode_spec(service_port, service_name@),
{
    let magic: [u8; 2] = u16_to_array_of_u8(MAGIC_NUMBER);
    let port: [u8; 2] = u16_to_array_of_u8(service_port);
    let mut payload: Vec<u8> = Vec::new();
    payload.push(magic[0]);
    payload.push(magic[1]);
    payload.push(port[0]);
    payload.push(port[1]);
    let mut i: usize = 0;
    while i < service_name.len()
        invariant
            i <= service_name@.len(),
            payload@ == seq![
                u16_hi(MAGIC_NUMBER),
                u16_lo(MAGIC_NUMBER),
                u16_hi(service_port),
                u16_lo(service_port),
            ] + service_name@.subrange(0, i as int),
        decreases service_name@.len() - i,
    {
        payload.push(*vstd::slice::slice_index_get(service_name, i));
        i = i + 1;
        proof {
            assert(service_name@.subrange(0, i as int)
                =~= service_name@.subrange(0, i - 1).push(service_name@[i - 1]));
        }
    }
    proof {
        assert(service_name@.subrange(0, service_name@.len() as int) =~= service_name@);
        assert(payload@ =~= encode_spec(service_port, service_name@));
    }
    payload
}

/// Decode a received datagram. Returns the advertised service port and the
/// service name, or `None` when the datagram is not a beacon: shorter than
/// the header, or led by anything other than the magic number. Rejection is
/// the silent-discard path, not a fatal error.
pub fn decode(data: &[u8]) -> (r: Option<(u16, Vec<u8>)>)
    ensures
        r is Some <==> is_beacon(data@),
        r matches Some((service_port, service_name)) ==> {
            &&& service_port == decoded_service_port(data@)
            &&& service_name@ == decoded_service_name(data@)
        },
{
    if data.len() < BEACON_HEADER_SIZE {
        return None;
    }
    let magic_number: u16 = array_of_u8_to_u16(vstd::slice::slice_subrange(data, 0, 2));
    if magic_number != MAGIC_NUMBER {
        return None;
    }
    let service_port: u16 = array_of_u8_to_u16(vstd::slice::slice_subrange(data, 2, 4));
    let name_bytes: &[u8] = vstd::slice::slice_subrange(data, BEACON_HEADER_SIZE, data.len());
    let service_name: Vec<u8> = vstd::slice::slice_to_vec(name_bytes);
    Some((service_port, service_name))
}

/// Compare two byte strings for equality, element by element.
pub fn bytes_equal(a: &[u8], b: &[u8]) -> (r: bool)
    ensures
        r <==> a@ == b@,
{
    if a.len() != b.len() {
        return false;
    }
    let mut i: usize = 0;
    while i < a.len()
        invariant
            i <= a@.len(),
            a@.len() == b@.len(),
            forall|j: int| 0 <= j < i ==> a@[j] == b@[j],
        decreases a@.len() - i,
    {
        if *vstd::slice::slice_index_get(a, i) != *vstd::slice::slice_index_get(b, i) {
            return false;
        }
        i = i + 1;
    }
    proof {
        assert(a@ =~= b@);
    }
    true
}

/// Round trip: an encoded beacon payload is a beacon, and decoding it yields
/// back exactly the service port and service name it was encoded from.
pub proof fn lemma_round_trip(service_port: u16, service_name: Seq<u8>)
    ensures
        is_beacon(encode_spec(service_port, service_name)),
        decoded_service_port(encode_spec(service_port, service_name)) == service_port,
        decoded_service_name(encode_spec(service_port, service_name)) == service_name,
{
    let encoded = encode_spec(service_port, service_name);
    lemma_u16_bytes_round_trip(MAGIC_NUMBER);
    lemma_u16_bytes_round_trip(service_port);
    assert(decoded_service_name(encoded) =~= service_name);
}

/// Magic rejection: a buffer whose first two bytes spell anything but the
/// magic number is not a beacon, so decoding discards it.
pub proof fn lemma_magic_rejection(data: Seq<u8>)
    requires
        data.len() < 2 || u16_of_bytes(data[0], data[1]) != MAGIC_NUMBER,
    ensures
        !is_beacon(data),
{
}

} // verus!
