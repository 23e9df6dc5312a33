//! Raw remote event records and their decoding into typed bridge events.
//!
//! A bridge event's identity is carried in the first eight payload bytes as a
//! little-endian word; the remaining bytes are the event body. A payload too
//! short to carry the identity is malformed, which is fatal for the whole
//! cycle's batch: skipping a log could silently drop a bridge event.

use vstd::prelude::*;

verus! {

/// Number of leading payload bytes that carry the event identity.
pub const MESSAGE_ID_BYTES: usize = 8;

/// A raw event record fetched from the remote chain: the emitting contract
/// address (as its numeric value), the remote block height the event was
/// observed at, and the opaque payload bytes.
#[derive(Debug)]
pub struct Log {
    pub address: u64,
    pub block_height: u64,
    pub data: Vec<u8>,
}

/// A typed bridge event: an identity key, the remote height at which it was
/// observed, and the event body.
#[derive(Debug)]
pub struct Message {
    pub id: u64,
    pub da_height: u64,
    pub data: Vec<u8>,
}

/// Mathematical model of a [`Message`].
pub struct MessageModel {
    pub id: u64,
    pub da_height: u64,
    pub data: Seq<u8>,
}

impl View for Message {
    type V = MessageModel;

    open spec fn view(&self) -> MessageModel {
        MessageModel { id: self.id, da_height: self.da_height, data: self.data@ }
    }
}

/// A log whose payload cannot be decoded into a bridge event.
#[derive(Clone, Copy, PartialEq, Eq, Structural, Debug)]
pub enum DecodeError {
    /// The payload is shorter than the identity prefix.
    PayloadTooShort,
}

/// Value of a little-endian byte sequence.
pub open spec fn le_word_spec(s: Seq<u8>) -> int
    decreases s.len(),
{
    if s.len() == 0 {
        0
    } else {
        s[0] + 256 * le_word_spec(s.drop_first())
    }
}

/// 256 raised to `n`: the number of values a byte sequence of length `n` can take.
pub open spec fn pow256(n: nat) -> int
    decreases n,
{
    if n == 0 {
        1
    } else {
        256 * pow256((n - 1) as nat)
    }
}

/// A little-endian word of `n` bytes is non-negative and below `256^n`.
pub proof fn lemma_le_word_bound(s: Seq<u8>)
    ensures
        0 <= le_word_spec(s) < pow256(s.len()),
    decreases s.len(),
{
    if s.len() > 0 {
        lemma_le_word_bound(s.drop_first());
    }
}

/// Powers of 256 are positive.
proof fn lemma_pow256_pos(n: nat)
    ensures
        pow256(n) >= 1,
    decreases n,
{
    if n > 0 {
        lemma_pow256_pos((n - 1) as nat);
    }
}

/// Powers of 256 grow with the exponent.
proof fn lemma_pow256_mono(a: nat, b: nat)
    requires
        a <= b,
    ensures
        pow256(a) <= pow256(b),
    decreases b,
{
    if a < b {
        lemma_pow256_mono(a, (b - 1) as nat);
        lemma_pow256_pos((b - 1) as nat);
    }
}

/// Whether a log decodes into a bridge event.
pub open spec fn decode_ok_spec(l: Log) -> bool {
    l.data@.len() >= MESSAGE_ID_BYTES
}

/// The event a well-formed log decodes to: identity from the little-endian
/// prefix, height from the log's block height, body from the remaining bytes.
pub open spec fn decode_spec(l: Log) -> MessageModel {
    MessageModel {
        id: le_word_spec(l.data@.take(MESSAGE_ID_BYTES as int)) as u64,
        da_height: l.block_height,
        data: l.data@.skip(MESSAGE_ID_BYTES as int),
    }
}

/// Copy a byte vector element by element.
pub fn copy_bytes(v: &Vec<u8>) -> (r: Vec<u8>)
    ensures
        r@ == v@,
{
    let mut r: Vec<u8> = Vec::new();
    let mut i: usize = 0;
    while i < v.len()
        invariant
            i <= v@.len(),
            r@ == v@.take(i as int),
        decreases v@.len() - i,
    {
        r.push(v[i]);
        proof {
            assert(v@.take(i as int).push(v@[i as int]) =~= v@.take(i as int + 1));
        }
        i = i + 1;
    }
    proof {
        assert(v@.take(v@.len() as int) =~= v@);
    }
    r
}

impl Message {
    /// A deep copy of this event.
    pub fn duplicate(&self) -> (r: Message)
        ensures
            r@ == self@,
    {
        Message { id: self.id, da_height: self.da_height, data: copy_bytes(&self.data) }
    }
}

/// Read the little-endian word held in the first [`MESSAGE_ID_BYTES`] bytes.
fn read_message_id(data: &Vec<u8>) -> (r: u64)
    requires
        data@.len() >= MESSAGE_ID_BYTES,
    ensures
        r == le_word_spec(data@.take(MESSAGE_ID_BYTES as int)),
{
    let ghost prefix = data@.take(MESSAGE_ID_BYTES as int);
    let mut acc: u64 = 0;
    let mut j: usize = MESSAGE_ID_BYTES;
    proof {
        assert(prefix.subrange(MESSAGE_ID_BYTES as int, MESSAGE_ID_BYTES as int) =~= Seq::<
            u8,
        >::empty());
    }
    while j > 0
        invariant
            j <= MESSAGE_ID_BYTES,
            data@.len() >= MESSAGE_ID_BYTES,
            prefix == data@.take(MESSAGE_ID_BYTES as int),
            acc == le_word_spec(prefix.subrange(j as int, MESSAGE_ID_BYTES as int)),
            acc < pow256((MESSAGE_ID_BYTES - j) as nat),
        decreases j,
    {
        let b = data[j - 1];
        proof {
            let tail = prefix.subrange(j as int, MESSAGE_ID_BYTES as int);
            let whole = prefix.subrange(j - 1, MESSAGE_ID_BYTES as int);
            assert(whole.drop_first() =~= tail);
            assert(whole[0] == prefix[j - 1]);
            assert(prefix[j - 1] == data@[j - 1]);
            lemma_pow256_mono((MESSAGE_ID_BYTES - j) as nat, (MESSAGE_ID_BYTES - 1) as nat);
            lemma_pow256_unfolds();
        }
        acc = acc * 256 + (b as u64);
        j = j - 1;
    }
    proof {
        assert(prefix.subrange(0, MESSAGE_ID_BYTES as int) =~= prefix);
    }
    acc
}

/// The first nine powers of 256, written out so bounds on an eight-byte word
/// are available without unfolding by hand at each use.
proof fn lemma_pow256_unfolds()
    ensures
        pow256(0) == 1,
        pow256(1) == 0x100,
        pow256(2) == 0x10000,
        pow256(3) == 0x1000000,
        pow256(4) == 0x100000000,
        pow256(5) == 0x10000000000,
        pow256(6) == 0x1000000000000,
        pow256(7) == 0x100000000000000,
        pow256(8) == 0x10000000000000000,
{
    reveal_with_fuel(pow256, 9);
}

/// Decode one raw log into a typed bridge event, or report exactly why it is
/// malformed. Succeeds if and only if the payload carries the identity prefix.
pub fn decode_log(l: &Log) -> (r: Result<Message, DecodeError>)
    ensures
        r is Ok <==> decode_ok_spec(*l),
        r matches Ok(m) ==> m@ == decode_spec(*l),
        r matches Err(e) ==> e == DecodeError::PayloadTooShort,
{
    if l.data.len() < MESSAGE_ID_BYTES {
        return Err(DecodeError::PayloadTooShort);
    }
    let id = read_message_id(&l.data);
    let mut body: Vec<u8> = Vec::new();
    let mut i: usize = MESSAGE_ID_BYTES;
    proof {
        assert(body@ =~= l.data@.subrange(MESSAGE_ID_BYTES as int, MESSAGE_ID_BYTES as int));
    }
    while i < l.data.len()
        invariant
            MESSAGE_ID_BYTES <= i <= l.data@.len(),
            body@ == l.data@.subrange(MESSAGE_ID_BYTES as int, i as int),
        decreases l.data@.len() - i,
    {
        body.push(l.data[i]);
        proof {
            assert(l.data@.subrange(MESSAGE_ID_BYTES as int, i as int).push(l.data@[i as int])
                =~= l.data@.subrange(MESSAGE_ID_BYTES as int, i as int + 1));
        }
        i = i + 1;
    }
    proof {
        assert(body@ =~= l.data@.skip(MESSAGE_ID_BYTES as int));
        lemma_le_word_bound(l.data@.take(MESSAGE_ID_BYTES as int));
        lemma_pow256_unfolds();
    }
    Ok(Message { id, da_height: l.block_height, data: body })
}

} // verus!
