//! Length-delimited framing of the agent connection: each frame is a 32-bit
//! big-endian length followed by that many bytes of payload.

use vstd::prelude::*;
use super::fernbedienung::Error;

verus! {

/// The largest payload a frame may carry.
pub const MAX_FRAME_LEN: usize = 8388608;

/// The 32-bit big-endian length field for `n`.
pub open spec fn length_field(n: nat) -> Seq<u8> {
    seq![(n / 16777216) as u8, ((n / 65536) % 256) as u8, ((n / 256) % 256) as u8, (n % 256) as u8]
}

/// The number that the first four bytes of `b` write in big-endian order.
pub open spec fn length_of(b: Seq<u8>) -> nat {
    (b[0] as nat) * 16777216 + (b[1] as nat) * 65536 + (b[2] as nat) * 256 + (b[3] as nat)
}

/// The frame at the front of `b`: `None` when its length exceeds the limit,
/// `Some(None)` when `b` does not hold the whole frame yet, and otherwise its
/// payload.
pub open spec fn front_frame(b: Seq<u8>) -> Option<Option<Seq<u8>>> {
    if b.len() < 4 {
        Some(None)
    } else if length_of(b) > MAX_FRAME_LEN {
        None
    } else if b.len() < 4 + length_of(b) {
        Some(None)
    } else {
        Some(Some(b.subrange(4, 4 + length_of(b) as int)))
    }
}

/// The result of decoding the front of a buffer.
#[derive(Debug, PartialEq, Eq)]
pub enum Decoded {
    Incomplete,
    TooLong,
    Frame(Vec<u8>),
}

/// Relies on tokio-util's `LengthDelimitedCodec` in its default
/// configuration, as an `Encoder`: a 4-byte big-endian length, then the
/// payload.
#[verifier::external_body]
fn encode_frame(payload: &[u8]) -> (r: Vec<u8>)
    requires
        payload@.len() <= MAX_FRAME_LEN,
    ensures
        r@ == length_field(payload@.len()) + payload@,
{
    let mut dst = bytes::BytesMut::new();
    let mut codec = tokio_util::codec::LengthDelimitedCodec::new();
    let _ = tokio_util::codec::Encoder::<&[u8]>::encode(&mut codec, payload, &mut dst);
    dst.to_vec()
}

/// Relies on tokio-util's `LengthDelimitedCodec` in its default
/// configuration, as a `Decoder`: the payload of the frame at the front of
/// `buf`, nothing while it is incomplete, an error when its length is over
/// the limit.
#[verifier::external_body]
fn decode_frame(buf: &[u8]) -> (r: Decoded)
    ensures
        match front_frame(buf@) {
            None => r is TooLong,
            Some(None) => r is Incomplete,
            Some(Some(p)) => (r matches Decoded::Frame(f) && f@ == p),
        },
{
    let mut src = bytes::BytesMut::from(buf);
    let mut codec = tokio_util::codec::LengthDelimitedCodec::new();
    match tokio_util::codec::Decoder::decode(&mut codec, &mut src) {
        Ok(Some(frame)) => Decoded::Frame(frame.to_vec()),
        Ok(None) => Decoded::Incomplete,
        Err(_) => Decoded::TooLong,
    }
}

/// A frame carrying `payload`; `Transport` when the payload is over the limit.
pub fn frame(payload: &[u8]) -> (r: Result<Vec<u8>, Error>)
    ensures
        payload@.len() <= MAX_FRAME_LEN ==> (r matches Ok(f) && f@ == length_field(payload@.len())
            + payload@),
        payload@.len() > MAX_FRAME_LEN ==> r == Err::<Vec<u8>, Error>(Error::Transport),
{
    if payload.len() > MAX_FRAME_LEN {
        Err(Error::Transport)
    } else {
        Ok(encode_frame(payload))
    }
}

/// A frame's length field reads back as its length, so the payload of a
/// frame comes back out of it whole, whatever follows it.
pub proof fn lemma_frame_round_trip(payload: Seq<u8>, rest: Seq<u8>)
    requires
        payload.len() <= MAX_FRAME_LEN,
    ensures
        front_frame(length_field(payload.len()) + payload + rest) == Some(Some(payload)),
{
    let n = payload.len();
    let b = length_field(n) + payload + rest;
    let b0 = n / 16777216;
    let b1 = (n / 65536) % 256;
    let b2 = (n / 256) % 256;
    let b3 = n % 256;
    assert(b0 < 256);
    assert(b0 * 16777216 + b1 * 65536 + b2 * 256 + b3 == n) by {
        vstd::arithmetic::div_mod::lemma_fundamental_div_mod(n as int, 256);
        vstd::arithmetic::div_mod::lemma_fundamental_div_mod((n / 256) as int, 256);
        vstd::arithmetic::div_mod::lemma_fundamental_div_mod((n / 65536) as int, 256);
        vstd::arithmetic::div_mod::lemma_div_denominator(n as int, 256, 256);
        vstd::arithmetic::div_mod::lemma_div_denominator(n as int, 65536, 256);
    }
    assert(b[0] == b0 as u8 && b[1] == b1 as u8 && b[2] == b2 as u8 && b[3] == b3 as u8);
    assert(length_of(b) == n);
    assert(b.subrange(4, 4 + n as int) =~= payload);
}

/// Collects frames out of the bytes received so far.
pub struct FrameReader {
    buf: Vec<u8>,
}

impl FrameReader {
    /// The bytes received and not yet taken as frames.
    pub closed spec fn pending(&self) -> Seq<u8> {
        self.buf@
    }

    pub fn new() -> (r: FrameReader)
        ensures
            r.pending().len() == 0,
    {
        FrameReader { buf: Vec::new() }
    }

    /// Appends received bytes.
    pub fn push(&mut self, bytes: &[u8])
        ensures
            final(self).pending() == old(self).pending() + bytes@,
    {
        let mut i: usize = 0;
        while i < bytes.len()
            invariant
                i <= bytes@.len(),
                self.buf@ == old(self).buf@ + bytes@.subrange(0, i as int),
            decreases bytes@.len() - i,
        {
            self.buf.push(bytes[i]);
            i = i + 1;
            assert(self.buf@ =~= old(self).buf@ + bytes@.subrange(0, i as int));
        }
        assert(bytes@.subrange(0, bytes@.len() as int) =~= bytes@);
    }

    /// Takes the next whole frame: `Ok(None)` while it is incomplete, and
    /// `Transport` when its length is over the limit, which is fatal to the
    /// connection.
    pub fn next_frame(&mut self) -> (r: Result<Option<Vec<u8>>, Error>)
        ensures
            match front_frame(old(self).pending()) {
                None => r == Err::<Option<Vec<u8>>, Error>(Error::Transport) && final(self).pending()
                    == old(self).pending(),
                Some(None) => r matches Ok(None) && final(self).pending() == old(self).pending(),
                Some(Some(p)) => (r matches Ok(Some(f)) && f@ == p) && final(self).pending() == old(
                    self,
                ).pending().subrange(4 + p.len() as int, old(self).pending().len() as int),
            },
    {
        match decode_frame(self.buf.as_slice()) {
            Decoded::TooLong => Err(Error::Transport),
            Decoded::Incomplete => Ok(None),
            Decoded::Frame(f) => {
                let used = 4 + f.len();
                let mut rest: Vec<u8> = Vec::new();
                let mut i: usize = used;
                while i < self.buf.len()
                    invariant
                        used <= i <= self.buf@.len(),
                        self.buf@ == old(self).buf@,
                        rest@ == self.buf@.subrange(used as int, i as int),
                    decreases self.buf@.len() - i,
                {
                    rest.push(self.buf[i]);
                    i = i + 1;
                    assert(rest@ =~= self.buf@.subrange(used as int, i as int));
                }
                self.buf = rest;
                Ok(Some(f))
            },
        }
    }
}

} // verus!
