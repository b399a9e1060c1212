//! Length-prefixed framing: every message on the wire is a four-byte big-endian
//! length followed by that many payload bytes.

use vstd::prelude::*;

verus! {

/// Width of the length prefix in bytes.
pub const PREFIX_LEN: usize = 4;

/// Largest payload a single frame may carry.
pub const MAX_FRAME_LEN: u32 = 0x7fff_ffff;

/// A frame whose payload is longer than [`MAX_FRAME_LEN`].
#[derive(Debug, Clone, Copy, PartialEq, Eq)]
pub struct FrameTooLong {
    pub declared: u64,
}

/// The four bytes that announce a payload of `n` bytes, most significant first.
pub open spec fn prefix_of(n: nat) -> Seq<u8> {
    seq![
        ((n / 0x100_0000) % 0x100) as u8,
        ((n / 0x1_0000) % 0x100) as u8,
        ((n / 0x100) % 0x100) as u8,
        (n % 0x100) as u8,
    ]
}

/// The payload length announced by the first four bytes of `buf`.
pub open spec fn declared_len(buf: Seq<u8>) -> nat
    recommends
        buf.len() >= 4,
{
    (buf[0] as nat) * 0x100_0000 + (buf[1] as nat) * 0x1_0000 + (buf[2] as nat) * 0x100
        + (buf[3] as nat)
}

/// The frame that carries `payload`.
pub open spec fn frame_of(payload: Seq<u8>) -> Seq<u8> {
    prefix_of(payload.len()) + payload
}

/// `buf` starts with a prefix that announces more than a frame may carry.
pub open spec fn oversized(buf: Seq<u8>) -> bool {
    buf.len() >= 4 && declared_len(buf) > MAX_FRAME_LEN
}

/// `buf` starts with a whole frame.
pub open spec fn complete(buf: Seq<u8>) -> bool {
    buf.len() >= 4 && declared_len(buf) <= MAX_FRAME_LEN && buf.len() >= 4 + declared_len(buf)
}

/// Total length of the first frame of `buf`, prefix included.
pub open spec fn frame_len(buf: Seq<u8>) -> int {
    4 + (declared_len(buf) as int)
}

/// `buf` is one whole frame and nothing more.
pub open spec fn is_single_frame(buf: Seq<u8>) -> bool {
    complete(buf) && frame_len(buf) == buf.len()
}

/// Payload of the first frame of `buf`.
pub open spec fn first_payload(buf: Seq<u8>) -> Seq<u8> {
    buf.subrange(4, frame_len(buf))
}

/// What is left of `buf` once its first frame is taken away.
pub open spec fn after_frame(buf: Seq<u8>) -> Seq<u8> {
    buf.subrange(frame_len(buf), buf.len() as int)
}

/// A prefix read back gives the length it was written for.
pub proof fn lemma_prefix_declares(n: nat)
    requires
        n < 0x1_0000_0000,
    ensures
        prefix_of(n).len() == 4,
        declared_len(prefix_of(n)) == n,
{
}

/// A frame followed by anything is complete; its payload and the rest come back
/// unchanged.
pub proof fn lemma_frame_round_trip(payload: Seq<u8>, tail: Seq<u8>)
    requires
        payload.len() <= MAX_FRAME_LEN,
    ensures
        complete(frame_of(payload) + tail),
        frame_len(frame_of(payload) + tail) == frame_of(payload).len(),
        first_payload(frame_of(payload) + tail) == payload,
        after_frame(frame_of(payload) + tail) == tail,
{
    let buf = frame_of(payload) + tail;
    lemma_prefix_declares(payload.len());
    assert(buf.len() == 4 + payload.len() + tail.len());
    assert(buf[0] == prefix_of(payload.len())[0]);
    assert(buf[1] == prefix_of(payload.len())[1]);
    assert(buf[2] == prefix_of(payload.len())[2]);
    assert(buf[3] == prefix_of(payload.len())[3]);
    assert(declared_len(buf) == payload.len());
    assert(first_payload(buf) =~= payload);
    assert(after_frame(buf) =~= tail);
}

/// A frame cut short anywhere is neither complete nor oversized: a reader keeps
/// waiting for it.
pub proof fn lemma_partial_frame_waits(payload: Seq<u8>, got: int)
    requires
        payload.len() <= MAX_FRAME_LEN,
        0 <= got < frame_of(payload).len(),
    ensures
        !complete(frame_of(payload).subrange(0, got)),
        !oversized(frame_of(payload).subrange(0, got)),
{
    let part = frame_of(payload).subrange(0, got);
    lemma_prefix_declares(payload.len());
    if got >= 4 {
        assert(part[0] == prefix_of(payload.len())[0]);
        assert(part[1] == prefix_of(payload.len())[1]);
        assert(part[2] == prefix_of(payload.len())[2]);
        assert(part[3] == prefix_of(payload.len())[3]);
        assert(declared_len(part) == payload.len());
    }
}

/// Appends the frame that carries `payload` to `dst`, or leaves `dst` alone when
/// the payload is too long for one frame.
pub fn write_frame(payload: &Vec<u8>, dst: &mut Vec<u8>) -> (r: Result<(), FrameTooLong>)
    ensures
        payload@.len() <= MAX_FRAME_LEN ==> r is Ok
            && final(dst)@ == old(dst)@ + frame_of(payload@),
        payload@.len() > MAX_FRAME_LEN ==> r == Err::<(), FrameTooLong>(
            FrameTooLong { declared: payload@.len() as u64 },
        ) && final(dst)@ == old(dst)@,
{
    let n: usize = payload.len();
    if n as u64 > MAX_FRAME_LEN as u64 {
        return Err(FrameTooLong { declared: n as u64 });
    }
    let len: u32 = n as u32;
    dst.push(((len / 0x100_0000) % 0x100) as u8);
    dst.push(((len / 0x1_0000) % 0x100) as u8);
    dst.push(((len / 0x100) % 0x100) as u8);
    dst.push((len % 0x100) as u8);
    assert(dst@ =~= old(dst)@ + prefix_of(n as nat));
    let mut i: usize = 0;
    while i < n
        invariant
            n == payload@.len(),
            0 <= i <= n,
            dst@ == old(dst)@ + prefix_of(n as nat) + payload@.subrange(0, i as int),
        decreases n - i,
    {
        dst.push(payload[i]);
        assert(payload@.subrange(0, i + 1) =~= payload@.subrange(0, i as int).push(
            payload@[i as int],
        ));
        i = i + 1;
    }
    assert(payload@.subrange(0, n as int) =~= payload@);
    assert(dst@ =~= old(dst)@ + frame_of(payload@));
    Ok(())
}

/// Takes the first frame off the front of `src` once all of it is there.
///
/// Nothing is consumed while the frame is incomplete or when its prefix
/// announces more than a frame may carry; a complete frame is consumed whole,
/// prefix included, and its payload returned.
pub fn read_frame(src: &mut Vec<u8>) -> (r: Result<Option<Vec<u8>>, FrameTooLong>)
    ensures
        match r {
            Err(e) => oversized(old(src)@) && e.declared == declared_len(old(src)@)
                && final(src)@ == old(src)@,
            Ok(None) => !oversized(old(src)@) && !complete(old(src)@)
                && final(src)@ == old(src)@,
            Ok(Some(p)) => complete(old(src)@) && p@ == first_payload(old(src)@) && final(src)@
                == after_frame(old(src)@),
        },
{
    if src.len() < PREFIX_LEN {
        return Ok(None);
    }
    let declared: u64 = (src[0] as u64) * 0x100_0000 + (src[1] as u64) * 0x1_0000 + (
    src[2] as u64) * 0x100 + (src[3] as u64);
    if declared > MAX_FRAME_LEN as u64 {
        return Err(FrameTooLong { declared });
    }
    if (src.len() as u64) < declared + 4 {
        return Ok(None);
    }
    let total: usize = (declared + 4) as usize;
    let rest = src.split_off(total);
    let payload = src.split_off(PREFIX_LEN);
    *src = rest;
    assert(payload@ =~= first_payload(old(src)@));
    Ok(Some(payload))
}

} // verus!
