use vstd::prelude::*;

verus! {

/// The length of the fixed part of an echo packet: identifier, sequence
/// number and next level.
pub const HEADER_LEN: usize = 17;

/// One echo packet: a big-endian identifier and sequence number, one byte
/// kept for later use, and the payload.
pub struct UdpEcho {
    /// Generic identifier, different for every client.
    pub identifier: u64,
    /// Sequence number, meaningful only for each client.
    pub sequence: u64,
    /// Unused so far; open for later use, such as different payloads.
    pub next_level: u8,
    pub payload: Vec<u8>,
}

/// The eight bytes of `v`, most significant first.
pub open spec fn be_bytes(v: u64) -> Seq<u8> {
    seq![
        (v >> 56u64) as u8,
        (v >> 48u64) as u8,
        (v >> 40u64) as u8,
        (v >> 32u64) as u8,
        (v >> 24u64) as u8,
        (v >> 16u64) as u8,
        (v >> 8u64) as u8,
        v as u8,
    ]
}

/// The number that eight bytes, most significant first, stand for.
pub open spec fn be_value(b0: u8, b1: u8, b2: u8, b3: u8, b4: u8, b5: u8, b6: u8, b7: u8) -> u64 {
    ((b0 as u64) << 56u64) | ((b1 as u64) << 48u64) | ((b2 as u64) << 40u64) | ((b3 as u64)
        << 32u64) | ((b4 as u64) << 24u64) | ((b5 as u64) << 16u64) | ((b6 as u64) << 8u64) | (
    b7 as u64)
}

/// The number at `start` in `b`, read as eight big-endian bytes.
pub open spec fn be_at(b: Seq<u8>, start: int) -> u64 {
    be_value(
        b[start],
        b[start + 1],
        b[start + 2],
        b[start + 3],
        b[start + 4],
        b[start + 5],
        b[start + 6],
        b[start + 7],
    )
}

/// The wire form of a packet.
pub open spec fn wire(identifier: u64, sequence: u64, next_level: u8, payload: Seq<u8>) -> Seq<
    u8,
> {
    be_bytes(identifier) + be_bytes(sequence) + seq![next_level] + payload
}

proof fn lemma_be_round_trip(v: u64)
    ensures
        be_value(
            (v >> 56u64) as u8,
            (v >> 48u64) as u8,
            (v >> 40u64) as u8,
            (v >> 32u64) as u8,
            (v >> 24u64) as u8,
            (v >> 16u64) as u8,
            (v >> 8u64) as u8,
            v as u8,
        ) == v,
{
    assert(((((v >> 56u64) as u8) as u64) << 56u64) | ((((v >> 48u64) as u8) as u64) << 48u64)
        | ((((v >> 40u64) as u8) as u64) << 40u64) | ((((v >> 32u64) as u8) as u64) << 32u64) | ((
    ((v >> 24u64) as u8) as u64) << 24u64) | ((((v >> 16u64) as u8) as u64) << 16u64) | ((((v
        >> 8u64) as u8) as u64) << 8u64) | ((v as u8) as u64) == v) by (bit_vector);
}

/// Reading the fixed fields back from a packet's wire form gives the
/// packet's own values, and the bytes after them are its payload.
pub proof fn lemma_wire_round_trip(identifier: u64, sequence: u64, next_level: u8, payload: Seq<u8>)
    ensures
        wire(identifier, sequence, next_level, payload).len() == HEADER_LEN + payload.len(),
        be_at(wire(identifier, sequence, next_level, payload), 0) == identifier,
        be_at(wire(identifier, sequence, next_level, payload), 8) == sequence,
        wire(identifier, sequence, next_level, payload)[16] == next_level,
        wire(identifier, sequence, next_level, payload).subrange(
            HEADER_LEN as int,
            HEADER_LEN + payload.len(),
        ) == payload,
{
    let w = wire(identifier, sequence, next_level, payload);
    lemma_be_round_trip(identifier);
    lemma_be_round_trip(sequence);
    assert(w.subrange(HEADER_LEN as int, HEADER_LEN + payload.len()) =~= payload);
}

/// Appends the eight big-endian bytes of `v`.
fn push_be(out: &mut Vec<u8>, v: u64)
    ensures
        final(out)@ == old(out)@ + be_bytes(v),
{
    out.push((v >> 56u64) as u8);
    out.push((v >> 48u64) as u8);
    out.push((v >> 40u64) as u8);
    out.push((v >> 32u64) as u8);
    out.push((v >> 24u64) as u8);
    out.push((v >> 16u64) as u8);
    out.push((v >> 8u64) as u8);
    out.push(v as u8);
    assert(final(out)@ =~= old(out)@ + be_bytes(v));
}

/// Reads eight big-endian bytes at `start`.
fn read_be(b: &[u8], start: usize) -> (r: u64)
    requires
        start + 8 <= b@.len(),
    ensures
        r == be_at(b@, start as int),
{
    ((b[start] as u64) << 56u64) | ((b[start + 1] as u64) << 48u64) | ((b[start + 2] as u64)
        << 40u64) | ((b[start + 3] as u64) << 32u64) | ((b[start + 4] as u64) << 24u64) | ((b[start
        + 5] as u64) << 16u64) | ((b[start + 6] as u64) << 8u64) | (b[start + 7] as u64)
}

impl UdpEcho {
    /// A packet with no payload and next level 0.
    pub fn new(identifier: u64, sequence: u64) -> (r: UdpEcho)
        ensures
            r.identifier == identifier,
            r.sequence == sequence,
            r.next_level == 0,
            r.payload@.len() == 0,
    {
        UdpEcho { identifier, sequence, next_level: 0, payload: Vec::new() }
    }

    /// The packet's wire form.
    pub fn to_bytes(&self) -> (r: Vec<u8>)
        ensures
            r@ == wire(self.identifier, self.sequence, self.next_level, self.payload@),
    {
        let mut out: Vec<u8> = Vec::new();
        push_be(&mut out, self.identifier);
        push_be(&mut out, self.sequence);
        out.push(self.next_level);
        let ghost head = out@;
        let mut i: usize = 0;
        while i < self.payload.len()
            invariant
                0 <= i <= self.payload@.len(),
                out@ == head + self.payload@.take(i as int),
            decreases self.payload@.len() - i,
        {
            out.push(self.payload[i]);
            i = i + 1;
            assert(out@ =~= head + self.payload@.take(i as int));
        }
        assert(self.payload@.take(self.payload@.len() as int) =~= self.payload@);
        assert(out@ =~= wire(self.identifier, self.sequence, self.next_level, self.payload@));
        out
    }

    /// The packet that `buf` holds; `None` where `buf` is shorter than the
    /// fixed part.
    pub fn from_bytes(buf: &[u8]) -> (r: Option<UdpEcho>)
        ensures
            buf@.len() < HEADER_LEN ==> r is None,
            buf@.len() >= HEADER_LEN ==> (r matches Some(p) && p.identifier == be_at(buf@, 0)
                && p.sequence == be_at(buf@, 8) && p.next_level == buf@[16] && p.payload@
                == buf@.subrange(HEADER_LEN as int, buf@.len() as int)),
    {
        if buf.len() < HEADER_LEN {
            return None;
        }
        let identifier = read_be(buf, 0);
        let sequence = read_be(buf, 8);
        let next_level = buf[16];
        let mut payload: Vec<u8> = Vec::new();
        let mut i: usize = HEADER_LEN;
        while i < buf.len()
            invariant
                HEADER_LEN <= i <= buf@.len(),
                payload@ == buf@.subrange(HEADER_LEN as int, i as int),
            decreases buf@.len() - i,
        {
            payload.push(buf[i]);
            i = i + 1;
            assert(payload@ =~= buf@.subrange(HEADER_LEN as int, i as int));
        }
        Some(UdpEcho { identifier, sequence, next_level, payload })
    }
}

} // verus!
