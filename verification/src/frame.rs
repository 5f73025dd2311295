//! How requests and responses are framed on the socket to the daemon: each one is prefixed with
//! how many bytes long it is, as eight bytes, the most significant first.

use vstd::prelude::*;

verus! {

/// The number of bytes the length is encoded in.
pub const LENGTH_SIZE: usize = 8;

/// The eight bytes of a number, the most significant first.
pub open spec fn be_bytes(n: u64) -> Seq<u8> {
    seq![
        (n >> 56u64) as u8,
        (n >> 48u64) as u8,
        (n >> 40u64) as u8,
        (n >> 32u64) as u8,
        (n >> 24u64) as u8,
        (n >> 16u64) as u8,
        (n >> 8u64) as u8,
        n as u8,
    ]
}

/// The number which eight bytes give, the most significant first.
pub open spec fn from_be_bytes(b: Seq<u8>) -> u64 {
    ((b[0] as u64) << 56u64) | ((b[1] as u64) << 48u64) | ((b[2] as u64) << 40u64) | ((b[3] as u64)
        << 32u64) | ((b[4] as u64) << 24u64) | ((b[5] as u64) << 16u64) | ((b[6] as u64) << 8u64)
        | (b[7] as u64)
}

/// Return the eight bytes of a length, the most significant first.
pub fn length_bytes(n: u64) -> (b: [u8; 8])
    ensures
        b@ == be_bytes(n),
{
    let b: [u8; 8] = [
        (n >> 56u64) as u8,
        (n >> 48u64) as u8,
        (n >> 40u64) as u8,
        (n >> 32u64) as u8,
        (n >> 24u64) as u8,
        (n >> 16u64) as u8,
        (n >> 8u64) as u8,
        n as u8,
    ];
    assert(b@ =~= be_bytes(n));
    b
}

/// Return the length which eight bytes give, the most significant first.
pub fn length_of(b: &[u8; 8]) -> (n: u64)
    ensures
        n == from_be_bytes(b@),
{
    ((b[0] as u64) << 56u64) | ((b[1] as u64) << 48u64) | ((b[2] as u64) << 40u64) | ((b[3] as u64)
        << 32u64) | ((b[4] as u64) << 24u64) | ((b[5] as u64) << 16u64) | ((b[6] as u64) << 8u64)
        | (b[7] as u64)
}

/// Return a message as it is sent: its length and then the message itself.
pub fn frame(payload: &[u8]) -> (framed: Vec<u8>)
    ensures
        framed@ == be_bytes(payload@.len() as u64) + payload@,
{
    let header = length_bytes(payload.len() as u64);
    let mut framed: Vec<u8> = Vec::new();
    let mut i: usize = 0;
    while i < 8
        invariant
            i <= 8,
            framed@ == header@.take(i as int),
        decreases 8 - i,
    {
        framed.push(header[i]);
        assert(header@.take(i + 1) =~= header@.take(i as int).push(header@[i as int]));
        i = i + 1;
    }
    assert(header@.take(8) =~= header@);
    let mut j: usize = 0;
    while j < payload.len()
        invariant
            j <= payload@.len(),
            framed@ == header@ + payload@.take(j as int),
        decreases payload.len() - j,
    {
        framed.push(payload[j]);
        assert(payload@.take(j + 1) =~= payload@.take(j as int).push(payload@[j as int]));
        j = j + 1;
    }
    assert(payload@.take(payload.len() as int) =~= payload@);
    framed
}

/// Reading the length of a message gives back the length it was sent with.
pub proof fn lemma_length_round_trip(n: u64)
    ensures
        from_be_bytes(be_bytes(n)) == n,
{
    let b = be_bytes(n);
    let (b0, b1, b2, b3, b4, b5, b6, b7) = (b[0], b[1], b[2], b[3], b[4], b[5], b[6], b[7]);
    assert(b0 == (n >> 56u64) as u8 && b1 == (n >> 48u64) as u8 && b2 == (n >> 40u64) as u8 && b3
        == (n >> 32u64) as u8 && b4 == (n >> 24u64) as u8 && b5 == (n >> 16u64) as u8 && b6 == (n
        >> 8u64) as u8 && b7 == n as u8);
    assert(((b0 as u64) << 56u64) | ((b1 as u64) << 48u64) | ((b2 as u64) << 40u64) | ((b3 as u64)
        << 32u64) | ((b4 as u64) << 24u64) | ((b5 as u64) << 16u64) | ((b6 as u64) << 8u64) | (b7
        as u64) == n) by (bit_vector)
        requires
            b0 == (n >> 56u64) as u8,
            b1 == (n >> 48u64) as u8,
            b2 == (n >> 40u64) as u8,
            b3 == (n >> 32u64) as u8,
            b4 == (n >> 24u64) as u8,
            b5 == (n >> 16u64) as u8,
            b6 == (n >> 8u64) as u8,
            b7 == n as u8,
    ;
}

/// Every eight bytes are the length of some message: writing the length they give gives the same
/// bytes back.
pub proof fn lemma_bytes_round_trip(b: Seq<u8>)
    requires
        b.len() == 8,
    ensures
        be_bytes(from_be_bytes(b)) == b,
{
    let n = from_be_bytes(b);
    let (b0, b1, b2, b3, b4, b5, b6, b7) = (b[0], b[1], b[2], b[3], b[4], b[5], b[6], b[7]);
    assert(n == ((b0 as u64) << 56u64) | ((b1 as u64) << 48u64) | ((b2 as u64) << 40u64) | ((b3
        as u64) << 32u64) | ((b4 as u64) << 24u64) | ((b5 as u64) << 16u64) | ((b6 as u64) << 8u64)
        | (b7 as u64));
    assert((n >> 56u64) as u8 == b0 && (n >> 48u64) as u8 == b1 && (n >> 40u64) as u8 == b2 && (n
        >> 32u64) as u8 == b3 && (n >> 24u64) as u8 == b4 && (n >> 16u64) as u8 == b5 && (n
        >> 8u64) as u8 == b6 && n as u8 == b7) by (bit_vector)
        requires
            n == ((b0 as u64) << 56u64) | ((b1 as u64) << 48u64) | ((b2 as u64) << 40u64) | ((b3
                as u64) << 32u64) | ((b4 as u64) << 24u64) | ((b5 as u64) << 16u64) | ((b6 as u64)
                << 8u64) | (b7 as u64),
    ;
    assert(be_bytes(n) =~= b);
}

/// What is read back of a framed message: the first eight bytes give the length, and that many
/// bytes after them are the message.
pub open spec fn unframed(framed: Seq<u8>) -> Option<Seq<u8>> {
    if framed.len() < 8 {
        None
    } else {
        let length = from_be_bytes(framed.take(8));
        if framed.len() - 8 < length {
            None
        } else {
            Some(framed.subrange(8, 8 + length))
        }
    }
}

/// A message which is framed and then read back is the message which was sent.
pub proof fn lemma_frame_round_trip(payload: Seq<u8>)
    requires
        payload.len() <= u64::MAX,
    ensures
        unframed(be_bytes(payload.len() as u64) + payload) == Some(payload),
{
    let framed = be_bytes(payload.len() as u64) + payload;
    assert(framed.take(8) =~= be_bytes(payload.len() as u64));
    lemma_length_round_trip(payload.len() as u64);
    assert(framed.subrange(8, 8 + payload.len() as int) =~= payload);
}

} // verus!
