//! The length-prefixed wire format of a framed link.
//!
//! Each message on the byte stream is a 4-byte unsigned length in network
//! byte order followed by exactly that many payload bytes. [`encode_frame`]
//! produces the bytes for one message; [`FrameDecoder`] consumes the stream
//! in arbitrary chunks — however the transport splits its reads — and yields
//! each message whole and unmodified.

use vstd::prelude::*;

verus! {

/// The four header bytes for a payload of `len` bytes: the length in network
/// (big-endian) byte order.
pub open spec fn frame_header(len: u32) -> Seq<u8> {
    seq![
        (len >> 24) as u8,
        (len >> 16) as u8,
        (len >> 8) as u8,
        len as u8,
    ]
}

/// The length a four-byte header denotes.
pub open spec fn header_value(b: Seq<u8>) -> u32
    recommends
        b.len() >= 4,
{
    ((b[0] as u32) << 24) | ((b[1] as u32) << 16) | ((b[2] as u32) << 8) | (b[3] as u32)
}

/// Reading back an encoded header yields the encoded length.
pub proof fn lemma_header_round_trip(len: u32)
    ensures
        header_value(frame_header(len)) == len,
{
    assert((((((len >> 24) as u8) as u32) << 24) | ((((len >> 16) as u8) as u32) << 16) | ((((len
        >> 8) as u8) as u32) << 8) | ((len as u8) as u32)) == len) by (bit_vector);
}

/// A four-byte header is determined by the length it denotes.
pub proof fn lemma_header_injective(b: Seq<u8>)
    requires
        b.len() == 4,
    ensures
        b =~= frame_header(header_value(b)),
{
    let b0 = b[0];
    let b1 = b[1];
    let b2 = b[2];
    let b3 = b[3];
    let v = header_value(b);
    assert((((b0 as u32) << 24) | ((b1 as u32) << 16) | ((b2 as u32) << 8) | (b3 as u32)) == v
        ==> b0 == (v >> 24) as u8 && b1 == (v >> 16) as u8 && b2 == (v >> 8) as u8 && b3
        == v as u8) by (bit_vector);
}

/// Encode one message: its length in network byte order, then its bytes.
pub fn encode_frame(payload: &Vec<u8>) -> (r: Vec<u8>)
    requires
        payload@.len() <= u32::MAX,
    ensures
        r@ == frame_header(payload@.len() as u32) + payload@,
{
    let len: u32 = payload.len() as u32;
    let mut r: Vec<u8> = Vec::new();
    r.push((len >> 24) as u8);
    r.push((len >> 16) as u8);
    r.push((len >> 8) as u8);
    r.push(len as u8);
    let n = payload.len();
    let mut i: usize = 0;
    #[verifier::loop_isolation(false)]
    while i < n
        invariant
            0 <= i <= n,
            r@ == frame_header(len) + payload@.take(i as int),
        decreases n - i,
    {
        r.push(payload[i]);
        proof {
            assert(payload@.take(i + 1 as int) =~= payload@.take(i as int).push(payload@[i as int]));
            assert(r@ =~= frame_header(len) + payload@.take(i + 1 as int));
        }
        i = i + 1;
    }
    proof {
        assert(payload@.take(n as int) =~= payload@);
        assert(r@ =~= frame_header(len) + payload@);
    }
    r
}

/// Do the buffered bytes begin with one complete frame?
pub open spec fn has_complete_frame(b: Seq<u8>) -> bool {
    b.len() >= 4 && b.len() - 4 >= header_value(b.take(4))
}

/// Reassembles length-prefixed messages from a byte stream delivered in
/// arbitrary chunks.
///
/// `buf` holds the bytes received and not yet decoded, in stream order. Only
/// how the bytes were concatenated matters, not how the reads were split, so
/// a message is delivered whole however the transport fragments it.
pub struct FrameDecoder {
    pub buf: Vec<u8>,
}

impl FrameDecoder {
    /// A decoder with nothing buffered.
    pub fn new() -> (r: FrameDecoder)
        ensures
            r.buf@ =~= Seq::<u8>::empty(),
    {
        FrameDecoder { buf: Vec::new() }
    }

    /// Append one chunk of received bytes, however the transport split them.
    pub fn feed(&mut self, chunk: &[u8])
        ensures
            final(self).buf@ == old(self).buf@ + chunk@,
    {
        let n = chunk.len();
        let mut i: usize = 0;
        #[verifier::loop_isolation(false)]
        while i < n
            invariant
                0 <= i <= n,
                self.buf@ == old(self).buf@ + chunk@.take(i as int),
            decreases n - i,
        {
            let b = chunk[i];
            self.buf.push(b);
            proof {
                assert(chunk@.take(i + 1 as int) =~= chunk@.take(i as int).push(chunk@[i as int]));
                assert(self.buf@ =~= old(self).buf@ + chunk@.take(i + 1 as int));
            }
            i = i + 1;
        }
        proof {
            assert(chunk@.take(n as int) =~= chunk@);
            assert(self.buf@ =~= old(self).buf@ + chunk@);
        }
    }

    /// Extract the next complete message, if the buffered bytes hold one.
    ///
    /// On `Some`, the old buffer was exactly the returned message's frame
    /// followed by what remains buffered; on `None`, nothing is consumed.
    pub fn next_frame(&mut self) -> (r: Option<Vec<u8>>)
        ensures
            r is Some <==> has_complete_frame(old(self).buf@),
            r is None ==> *final(self) == *old(self),
            r matches Some(p) ==> {
                &&& p@.len() <= u32::MAX
                &&& old(self).buf@ == frame_header(p@.len() as u32) + p@ + final(self).buf@
            },
    {
        let ghost pre = self.buf@;
        if self.buf.len() < 4 {
            return None;
        }
        let len: u32 = ((self.buf[0] as u32) << 24) | ((self.buf[1] as u32) << 16) | ((self.buf[2]
            as u32) << 8) | (self.buf[3] as u32);
        proof {
            assert(pre.take(4)[0] == pre[0] && pre.take(4)[1] == pre[1] && pre.take(4)[2] == pre[2]
                && pre.take(4)[3] == pre[3]);
            assert(len == header_value(pre.take(4)));
        }
        if self.buf.len() - 4 < len as usize {
            return None;
        }
        let total: usize = 4 + len as usize;
        let mut payload: Vec<u8> = Vec::new();
        let mut i: usize = 4;
        #[verifier::loop_isolation(false)]
        while i < total
            invariant
                4 <= i <= total,
                payload@ == pre.subrange(4, i as int),
            decreases total - i,
        {
            payload.push(self.buf[i]);
            proof {
                assert(pre.subrange(4, i + 1 as int) =~= pre.subrange(4, i as int).push(
                    pre[i as int]));
            }
            i = i + 1;
        }
        let mut rest: Vec<u8> = Vec::new();
        let n = self.buf.len();
        let mut j: usize = total;
        #[verifier::loop_isolation(false)]
        while j < n
            invariant
                total <= j <= n,
                rest@ == pre.subrange(total as int, j as int),
            decreases n - j,
        {
            rest.push(self.buf[j]);
            proof {
                assert(pre.subrange(total as int, j + 1 as int) =~= pre.subrange(
                    total as int,
                    j as int,
                ).push(pre[j as int]));
            }
            j = j + 1;
        }
        self.buf = rest;
        proof {
            lemma_header_injective(pre.take(4));
            assert(pre =~= frame_header(len) + pre.subrange(4, total as int) + pre.subrange(
                total as int,
                pre.len() as int,
            ));
        }
        Some(payload)
    }
}

/// A byte stream is unambiguous: if it reads as one whole frame followed by
/// a remainder in two ways, the message and the remainder are the same. A
/// message sent through a framed link is therefore reassembled whole and
/// unmodified, however the underlying bytes were split across reads.
pub proof fn lemma_frame_unambiguous(p1: Seq<u8>, r1: Seq<u8>, p2: Seq<u8>, r2: Seq<u8>)
    requires
        p1.len() <= u32::MAX,
        p2.len() <= u32::MAX,
        frame_header(p1.len() as u32) + p1 + r1 == frame_header(p2.len() as u32) + p2 + r2,
    ensures
        p1 == p2,
        r1 == r2,
{
    let s1 = frame_header(p1.len() as u32) + p1 + r1;
    let s2 = frame_header(p2.len() as u32) + p2 + r2;
    assert(s1.take(4) =~= frame_header(p1.len() as u32));
    assert(s2.take(4) =~= frame_header(p2.len() as u32));
    lemma_header_round_trip(p1.len() as u32);
    lemma_header_round_trip(p2.len() as u32);
    assert(p1.len() == p2.len());
    assert(p1 =~= s1.subrange(4, 4 + p1.len() as int));
    assert(p2 =~= s2.subrange(4, 4 + p2.len() as int));
    assert(p1 == p2);
    assert(r1 =~= s1.subrange(4 + p1.len() as int, s1.len() as int));
    assert(r2 =~= s2.subrange(4 + p2.len() as int, s2.len() as int));
    assert(r1 == r2);
}

} // verus!
