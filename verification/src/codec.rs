//! Packet codec: builds ICMPv4 echo-request byte buffers and parses and
//! validates echo-reply byte buffers, including checksum verification.
//!
//! Wire layout of an ICMP echo message (offsets in bytes):
//! type at 0, code at 1, checksum at 2..4, identifier at 4..6,
//! sequence number at 6..8, payload from 8 on. Multi-byte fields are
//! big-endian. The checksum is the one's-complement Internet checksum over
//! the whole message with the checksum field treated as zero.
use vstd::prelude::*;

verus! {

use vstd::slice::slice_index_get;

/// Bytes in the fixed ICMP echo header.
pub const ICMP_HEADER_LENGTH: usize = 8;
/// Bytes of random payload carried by every outgoing echo request.
pub const ICMP_PAYLOAD_LENGTH: usize = 150;
/// Total length of an outgoing echo request.
pub const ICMP_PACKET_LENGTH: usize = 158;

/// How many 16-bit words the checksum ranges over: bytes are paired up,
/// and a final lone byte still counts as a word of its own.
pub open spec fn word_count(b: Seq<u8>) -> int {
    (b.len() as int + 1) / 2
}

/// The big-endian 16-bit word at word index `i`; a final lone byte is
/// treated as the high byte of a word whose low byte is zero.
pub open spec fn word_at(b: Seq<u8>, i: int) -> int {
    if 2 * i + 1 < b.len() {
        b[2 * i] * 0x100 + b[2 * i + 1]
    } else {
        b[2 * i] * 0x100
    }
}

/// Sum of the words at indices `0 .. n`, with the checksum word (index 1)
/// left out: it is regarded as zero while the checksum is computed.
pub open spec fn sum_words_upto(b: Seq<u8>, n: int) -> int
    decreases n,
{
    if n <= 0 {
        0
    } else if n - 1 == 1 {
        sum_words_upto(b, n - 1)
    } else {
        sum_words_upto(b, n - 1) + word_at(b, n - 1)
    }
}

/// The full one's-complement sum input: every word of the buffer except
/// the embedded checksum word.
pub open spec fn checksum_input_sum(b: Seq<u8>) -> int {
    sum_words_upto(b, word_count(b))
}

/// Folds the carry bits back into the low 16 bits until none are left,
/// as the one's-complement sum requires.
pub open spec fn fold_carries(s: int) -> int
    decreases s,
{
    if s < 0x10000 {
        s
    } else {
        fold_carries(s / 0x10000 + s % 0x10000)
    }
}

/// The Internet checksum of an ICMP message: the complement of the folded
/// one's-complement sum of its words, the checksum word counted as zero.
pub open spec fn icmp_checksum(b: Seq<u8>) -> u16 {
    (0xffff - fold_carries(checksum_input_sum(b))) as u16
}

/// The big-endian 16-bit field whose high byte sits at byte offset `i`.
pub open spec fn be16_at(b: Seq<u8>, i: int) -> u16 {
    (b[i] * 0x100 + b[i + 1]) as u16
}

/// The checksum a received message carries in its header.
pub open spec fn embedded_checksum(b: Seq<u8>) -> u16 {
    be16_at(b, 2)
}

/// The identifier field of an echo message.
pub open spec fn reply_identifier(b: Seq<u8>) -> u16 {
    be16_at(b, 4)
}

/// The sequence-number field of an echo message.
pub open spec fn reply_sequence(b: Seq<u8>) -> u16 {
    be16_at(b, 6)
}

/// The payload of an echo message: everything after the fixed header.
pub open spec fn reply_payload(b: Seq<u8>) -> Seq<u8> {
    b.skip(8)
}

/// A buffer is accepted as an echo reply when it is long enough to hold the
/// fixed ICMP header and its embedded checksum equals a freshly computed one.
pub open spec fn valid_echo_reply(b: Seq<u8>) -> bool {
    b.len() >= 8 && embedded_checksum(b) == icmp_checksum(b)
}

/// The fixed header of an echo request: type 8, code 0, then the checksum,
/// identifier and sequence-number fields, each big-endian.
pub open spec fn echo_request_header(identifier: u16, sequence: u16, checksum: u16) -> Seq<u8> {
    seq![
        8u8,
        0u8,
        (checksum / 0x100) as u8,
        (checksum % 0x100) as u8,
        (identifier / 0x100) as u8,
        (identifier % 0x100) as u8,
        (sequence / 0x100) as u8,
        (sequence % 0x100) as u8,
    ]
}

/// The bytes of a whole echo request: the header around the given payload,
/// carrying the checksum that was computed with the checksum field zero.
pub open spec fn echo_request_packet(identifier: u16, sequence: u16, payload: Seq<u8>) -> Seq<u8> {
    let unsummed = echo_request_header(identifier, sequence, 0) + payload;
    echo_request_header(identifier, sequence, icmp_checksum(unsummed)) + payload
}

proof fn lemma_sum_words_ignores_checksum_field(a: Seq<u8>, b: Seq<u8>, n: int)
    requires
        a.len() == b.len(),
        n <= word_count(a),
        forall|i: int| 0 <= i < a.len() && !(2 <= i < 4) ==> a[i] == b[i],
    ensures
        sum_words_upto(a, n) == sum_words_upto(b, n),
    decreases n,
{
    if n > 0 {
        lemma_sum_words_ignores_checksum_field(a, b, n - 1);
        if n - 1 != 1 {
            assert(0 <= 2 * (n - 1) < a.len());
            assert(a[2 * (n - 1)] == b[2 * (n - 1)]);
            if 2 * (n - 1) + 1 < a.len() {
                assert(a[2 * (n - 1) + 1] == b[2 * (n - 1) + 1]);
            }
            assert(word_at(a, n - 1) == word_at(b, n - 1));
        }
    }
}

/// The Internet checksum never depends on the checksum field itself: two
/// buffers of one length that agree everywhere outside bytes 2..4 have one
/// checksum.
pub proof fn lemma_checksum_ignores_checksum_field(a: Seq<u8>, b: Seq<u8>)
    requires
        a.len() == b.len(),
        forall|i: int| 0 <= i < a.len() && !(2 <= i < 4) ==> a[i] == b[i],
    ensures
        icmp_checksum(a) == icmp_checksum(b),
{
    lemma_sum_words_ignores_checksum_field(a, b, word_count(a));
}

/// Relies on `pnet_packet::icmp::checksum`: the one's-complement Internet
/// checksum over the whole buffer, 16-bit big-endian words, the checksum
/// word (bytes 2..4) skipped, carries folded back in, result complemented;
/// a final lone byte counts as the high byte of a last word.
/// `IcmpPacket::new` returns `Some` for every buffer of at least 4 bytes.
/// The upper bound holds for every ICMP message (an IPv4 datagram carries at
/// most 65535 bytes) and keeps the crate's 32-bit word sum from overflowing.
#[verifier::external_body]
fn compute_checksum(buffer: &[u8]) -> (r: u16)
    requires
        4 <= buffer@.len() <= 0xffff,
    ensures
        r == icmp_checksum(buffer@),
{
    match pnet_packet::icmp::IcmpPacket::new(buffer) {
        Some(packet) => pnet_packet::icmp::checksum(&packet),
        None => 0,
    }
}

/// Reads the big-endian 16-bit field whose high byte sits at `offset`.
pub fn read_u16_be(buffer: &[u8], offset: usize) -> (r: u16)
    requires
        offset + 1 < buffer@.len(),
    ensures
        r == be16_at(buffer@, offset as int),
{
    let _length: usize = buffer.len();
    let hi: u8 = *slice_index_get(buffer, offset);
    let lo: u8 = *slice_index_get(buffer, offset + 1);
    (hi as u16) * 0x100 + (lo as u16)
}

/// Writes `value` as a big-endian 16-bit field whose high byte goes to
/// `offset`.
pub fn write_u16_be(buffer: &mut Vec<u8>, offset: usize, value: u16)
    requires
        offset + 1 < old(buffer)@.len(),
    ensures
        final(buffer)@ == old(buffer)@.update(offset as int, (value / 0x100) as u8).update(
            offset as int + 1,
            (value % 0x100) as u8,
        ),
{
    let _length: usize = buffer.len();
    buffer.set(offset, (value / 0x100) as u8);
    buffer.set(offset + 1, (value % 0x100) as u8);
}

/// One echo request, immutable once built: its protocol fields beside the
/// exact bytes that go out on the wire.
pub struct EchoRequest {
    /// The 16-bit identifier the request carries.
    pub identifier: u16,
    /// The 16-bit sequence number the request carries.
    pub sequence: u16,
    /// The payload bytes the request carries.
    pub payload: Vec<u8>,
    /// The encoded packet, checksum included.
    pub packet: Vec<u8>,
}

impl EchoRequest {
    /// The packet bytes are exactly the encoding of the fields.
    pub open spec fn wf(self) -> bool {
        self.packet@ == echo_request_packet(self.identifier, self.sequence, self.payload@)
    }
}

/// One echo reply, parsed from a received datagram.
pub struct EchoReply {
    /// The 16-bit identifier the reply carries.
    pub identifier: u16,
    /// The 16-bit sequence number the reply carries.
    pub sequence: u16,
    /// The checksum the reply carries; it was checked against a freshly
    /// computed one before the reply was accepted.
    pub checksum: u16,
    /// The payload bytes the reply carries.
    pub payload: Vec<u8>,
}

/// Relies on `rand::fill` through `rand::rng`: fills the buffer with random
/// bytes from the thread-local generator and leaves its length alone.
/// Nothing can be promised of the bytes themselves.
#[verifier::external_body]
fn random_bytes(length: usize) -> (r: Vec<u8>)
    ensures
        r@.len() == length,
{
    let mut buffer = vec![0u8; length];
    rand::fill(&mut buffer[..]);
    buffer
}

/// Encodes an echo request around the given payload: type 8, code 0, the
/// identifier and sequence number, and a correctly computed checksum.
///
/// The embedded checksum equals the checksum recomputed over the finished
/// buffer, since the computation skips the checksum field itself.
pub fn assemble_echo_request(identifier: u16, sequence: u16, payload: Vec<u8>) -> (r: EchoRequest)
    requires
        payload@.len() + 8 <= 0xffff,
    ensures
        r.identifier == identifier,
        r.sequence == sequence,
        r.payload@ == payload@,
        r.wf(),
        r.packet@.len() == 8 + payload@.len(),
        embedded_checksum(r.packet@) == icmp_checksum(r.packet@),
{
    let ghost header_zero = echo_request_header(identifier, sequence, 0);
    let mut packet: Vec<u8> = Vec::new();
    packet.push(8u8);
    packet.push(0u8);
    packet.push(0u8);
    packet.push(0u8);
    packet.push((identifier / 0x100) as u8);
    packet.push((identifier % 0x100) as u8);
    packet.push((sequence / 0x100) as u8);
    packet.push((sequence % 0x100) as u8);
    proof {
        assert(packet@ =~= header_zero);
    }
    let mut k: usize = 0;
    while k < payload.len()
        invariant
            k <= payload.len(),
            packet@ == header_zero + payload@.subrange(0, k as int),
        decreases payload.len() - k,
    {
        packet.push(payload[k]);
        proof {
            assert(packet@ =~= header_zero + payload@.subrange(0, k as int + 1));
        }
        k = k + 1;
    }
    proof {
        assert(payload@.subrange(0, payload@.len() as int) =~= payload@);
    }
    let checksum = compute_checksum(packet.as_slice());
    write_u16_be(&mut packet, 2, checksum);
    proof {
        let with_checksum = echo_request_header(identifier, sequence, checksum) + payload@;
        assert(packet@ =~= with_checksum);
        lemma_checksum_ignores_checksum_field(packet@, header_zero + payload@);
        assert(be16_at(packet@, 2) == checksum) by {
            assert(packet@[2] == (checksum / 0x100) as u8);
            assert(packet@[3] == (checksum % 0x100) as u8);
        }
    }
    EchoRequest { identifier, sequence, payload, packet }
}

/// Builds one echo request: the given identifier and sequence number around
/// `payload_length` random bytes, with a correctly computed checksum.
pub fn build_echo_request(identifier: u16, sequence: u16, payload_length: usize) -> (r: EchoRequest)
    requires
        payload_length + 8 <= 0xffff,
    ensures
        r.identifier == identifier,
        r.sequence == sequence,
        r.payload@.len() == payload_length,
        r.wf(),
        embedded_checksum(r.packet@) == icmp_checksum(r.packet@),
{
    let payload = random_bytes(payload_length);
    assemble_echo_request(identifier, sequence, payload)
}

/// Parses a received ICMP message. Returns the reply exactly when the buffer
/// holds at least the fixed header and its embedded checksum equals a freshly
/// computed one; anything shorter or corrupted is silently rejected.
pub fn parse_echo_reply(buffer: &[u8]) -> (r: Option<EchoReply>)
    requires
        buffer@.len() <= 0xffff,
    ensures
        r is Some <==> valid_echo_reply(buffer@),
        r matches Some(reply) ==> {
            &&& reply.identifier == reply_identifier(buffer@)
            &&& reply.sequence == reply_sequence(buffer@)
            &&& reply.checksum == embedded_checksum(buffer@)
            &&& reply.payload@ == reply_payload(buffer@)
        },
{
    let length: usize = buffer.len();
    if length < 8 {
        return None;
    }
    let computed = compute_checksum(buffer);
    let embedded = read_u16_be(buffer, 2);
    if embedded != computed {
        return None;
    }
    let identifier = read_u16_be(buffer, 4);
    let sequence = read_u16_be(buffer, 6);
    let mut payload: Vec<u8> = Vec::new();
    let mut k: usize = 8;
    while k < length
        invariant
            8 <= k <= length,
            length == buffer@.len(),
            payload@ == buffer@.subrange(8, k as int),
        decreases length - k,
    {
        payload.push(*slice_index_get(buffer, k));
        proof {
            assert(payload@ =~= buffer@.subrange(8, k as int + 1));
        }
        k = k + 1;
    }
    proof {
        assert(payload@ =~= reply_payload(buffer@));
    }
    Some(EchoReply { identifier, sequence, checksum: embedded, payload })
}

/// Whether a request and the fields of a reply agree bit for bit.
pub open spec fn matches_fields(
    req: EchoRequest,
    identifier: u16,
    sequence: u16,
    payload: Seq<u8>,
) -> bool {
    req.identifier == identifier && req.sequence == sequence && req.payload@ == payload
}

/// Whether a parsed reply answers a request: identifier, sequence number and
/// payload all agree.
pub open spec fn reply_matches(req: EchoRequest, reply: EchoReply) -> bool {
    matches_fields(req, reply.identifier, reply.sequence, reply.payload@)
}

fn bytes_equal(a: &Vec<u8>, b: &Vec<u8>) -> (r: bool)
    ensures
        r == (a@ == b@),
{
    if a.len() != b.len() {
        proof {
            assert(a@ != b@);
        }
        return false;
    }
    let mut k: usize = 0;
    while k < a.len()
        invariant
            k <= a.len(),
            a@.len() == b@.len(),
            forall|i: int| 0 <= i < k ==> a@[i] == b@[i],
        decreases a.len() - k,
    {
        if a[k] != b[k] {
            return false;
        }
        k = k + 1;
    }
    proof {
        assert(a@ =~= b@);
    }
    true
}

/// Decides whether the reply answers the request: a match requires exact
/// equality of identifier, sequence number and payload; a mismatch in any
/// one field means no match.
pub fn request_and_response_match(req: &EchoRequest, reply: &EchoReply) -> (r: bool)
    ensures
        r == reply_matches(*req, *reply),
{
    if req.identifier != reply.identifier {
        return false;
    }
    if req.sequence != reply.sequence {
        return false;
    }
    bytes_equal(&req.payload, &reply.payload)
}

} // verus!
