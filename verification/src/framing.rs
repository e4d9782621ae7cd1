//! The message framing rule: one frame per read cycle, terminated by the
//! first newline byte or by reaching the frame-size cap, whichever comes
//! first. The cap matches the sink's message-size limit.

use vstd::prelude::*;

verus! {

/// Largest frame the sink accepts, in bytes.
pub const MAX_FRAME: usize = 2000;

/// The byte that terminates a frame early.
pub const NEWLINE: u8 = 10;

/// `k` is the place where a frame read over the byte stream `input` stops:
/// the reader takes bytes one at a time and stops as soon as the byte just
/// taken is a newline, or the buffer holds `MAX_FRAME` bytes.
pub open spec fn is_frame_end(input: Seq<u8>, k: int) -> bool {
    &&& 1 <= k <= input.len()
    &&& k <= MAX_FRAME
    &&& (input[k - 1] == NEWLINE || k == MAX_FRAME)
    &&& forall|j: int| 0 <= j < k - 1 ==> input[j] != NEWLINE
}

/// The stream `input` holds at least one complete frame.
pub open spec fn has_frame(input: Seq<u8>) -> bool {
    exists|k: int| is_frame_end(input, k)
}

/// Length of the frame at the front of `input`.
pub open spec fn frame_len(input: Seq<u8>) -> int {
    choose|k: int| is_frame_end(input, k)
}

/// The frame at the front of `input`: everything up to and including the
/// terminating newline, or the first `MAX_FRAME` bytes when no newline
/// arrives in time.
pub open spec fn frame_of(input: Seq<u8>) -> Seq<u8> {
    input.take(frame_len(input))
}

/// A stream has at most one frame end: both candidates see no newline
/// strictly before the other's last byte, so neither can stop first.
pub proof fn lemma_frame_end_unique(input: Seq<u8>, k1: int, k2: int)
    requires
        is_frame_end(input, k1),
        is_frame_end(input, k2),
    ensures
        k1 == k2,
{
    if k1 < k2 {
        assert(input[k1 - 1] != NEWLINE);
    }
    if k2 < k1 {
        assert(input[k2 - 1] != NEWLINE);
    }
}

/// Extracts one frame from the bytes available on a stream, or reports that
/// the stream is still incomplete (the reader must keep waiting for more
/// bytes). Each call is independent: nothing is retained between frames, so
/// whatever follows the returned frame in `input` is not buffered.
pub fn extract_frame(input: &[u8]) -> (r: Option<Vec<u8>>)
    ensures
        r is Some <==> has_frame(input@),
        r is Some ==> is_frame_end(input@, r->0@.len() as int),
        r is Some ==> r->0@ == frame_of(input@),
{
    let mut buf: Vec<u8> = Vec::new();
    let mut i: usize = 0;
    while i < input.len()
        invariant
            0 <= i <= input@.len(),
            i < MAX_FRAME,
            buf@ == input@.take(i as int),
            forall|j: int| 0 <= j < i ==> input@[j] != NEWLINE,
        decreases input@.len() - i,
    {
        let byte = input[i];
        buf.push(byte);
        i = i + 1;
        if byte == NEWLINE || i == MAX_FRAME {
            proof {
                assert(is_frame_end(input@, i as int));
                lemma_frame_end_unique(input@, i as int, frame_len(input@));
            }
            return Some(buf);
        }
    }
    proof {
        if has_frame(input@) {
            let k = choose|k: int| is_frame_end(input@, k);
            assert(k <= input@.len() < MAX_FRAME);
            assert(input@[k - 1] != NEWLINE);
            assert(false);
        }
    }
    None
}

/// Accumulates the bytes of one frame as they arrive from a blocking
/// stream. The caller feeds bytes one at a time and stops at the first
/// complete frame; the buffer is consumed by `take` and built fresh for the
/// next cycle, so nothing carries over between frames.
pub struct FrameBuffer {
    buf: Vec<u8>,
}

impl View for FrameBuffer {
    type V = Seq<u8>;

    closed spec fn view(&self) -> Seq<u8> {
        self.buf@
    }
}

impl FrameBuffer {
    /// The buffer still awaits more bytes: under the cap, no newline yet.
    pub open spec fn incomplete(&self) -> bool {
        &&& self@.len() < MAX_FRAME
        &&& forall|j: int| 0 <= j < self@.len() ==> self@[j] != NEWLINE
    }

    pub fn new() -> (r: FrameBuffer)
        ensures
            r@ == Seq::<u8>::empty(),
            r.incomplete(),
    {
        FrameBuffer { buf: Vec::new() }
    }

    /// Takes the next byte from the stream; reports whether it completed
    /// the frame (it was a newline, or the buffer just reached the cap).
    pub fn push(&mut self, byte: u8) -> (complete: bool)
        requires
            old(self).incomplete(),
        ensures
            final(self)@ == old(self)@.push(byte),
            complete == (byte == NEWLINE || final(self)@.len() == MAX_FRAME),
            !complete ==> final(self).incomplete(),
            complete ==> is_frame_end(final(self)@, final(self)@.len() as int),
            complete ==> frame_of(final(self)@) == final(self)@,
    {
        self.buf.push(byte);
        let complete = byte == NEWLINE || self.buf.len() == MAX_FRAME;
        proof {
            if complete {
                assert(is_frame_end(self@, self@.len() as int));
                lemma_frame_end_unique(self@, self@.len() as int, frame_len(self@));
                assert(frame_of(self@) =~= self@);
            }
        }
        complete
    }

    /// Hands the finished frame out; the buffer is gone afterwards.
    pub fn take(self) -> (r: Vec<u8>)
        ensures
            r@ == self@,
    {
        self.buf
    }
}

/// A frame that ends in a newline within the cap is exactly the bytes up to
/// and including that first newline.
pub proof fn lemma_newline_frame(input: Seq<u8>, p: int)
    requires
        0 <= p < input.len(),
        p + 1 < MAX_FRAME,
        input[p] == NEWLINE,
        forall|j: int| 0 <= j < p ==> input[j] != NEWLINE,
    ensures
        has_frame(input),
        frame_of(input) == input.take(p + 1),
{
    assert(is_frame_end(input, p + 1));
    lemma_frame_end_unique(input, p + 1, frame_len(input));
}

/// A stream that reaches the cap without a newline yields exactly the first
/// `MAX_FRAME` bytes; the remainder is truncated away, not buffered for the
/// next read.
pub proof fn lemma_cap_frame(input: Seq<u8>)
    requires
        input.len() >= MAX_FRAME,
        forall|j: int| 0 <= j < MAX_FRAME ==> input[j] != NEWLINE,
    ensures
        has_frame(input),
        frame_of(input) == input.take(MAX_FRAME as int),
        frame_of(input).len() == MAX_FRAME,
{
    assert(is_frame_end(input, MAX_FRAME as int));
    lemma_frame_end_unique(input, MAX_FRAME as int, frame_len(input));
}

} // verus!
