//! Frames: a payload of bytes, byte-stuffed so that it holds no zero byte, and
//! ended by one.

use vstd::prelude::*;

verus! {

/// `postcard::Error`, the error of the serialiser's output stages: none of
/// them fails over a growing vector.
#[verifier::external_type_specification]
#[verifier::external_body]
pub struct ExPostcardError(postcard::Error);

/// `cobs::DecodeError`, the error of the decoder: only that there was one
/// is used.
#[verifier::external_type_specification]
#[verifier::external_body]
pub struct ExDecodeError(cobs::DecodeError);

/// The frame of the payload `payload`: its bytes stuffed, then the
/// terminator.
pub uninterp spec fn cobs_frame(payload: Seq<u8>) -> Seq<u8>;

/// The payload that the bytes `frame` decode to, up to their first zero byte
/// if they hold one, or `None` where they are no stuffed payload.
pub uninterp spec fn cobs_payload(frame: Seq<u8>) -> Option<Seq<u8>>;

/// The reserved byte that ends a frame.
pub const TERMINATOR: u8 = 0;

/// Whether the terminator stands at the end of `bytes` and nowhere else.
pub open spec fn ends_only_with_terminator(bytes: Seq<u8>) -> bool {
    &&& bytes.len() >= 1
    &&& bytes[bytes.len() - 1] == TERMINATOR
    &&& forall|i: int| 0 <= i < bytes.len() - 1 ==> bytes[i] != TERMINATOR
}

/// Feeds `payload` through `postcard::ser_flavors::Cobs` over a `StdVec`:
/// `try_new`, `try_extend`, `finalize`, as `postcard::to_stdvec_cobs` does
/// with the bytes of a serialised value.
///
/// Taken on trust: over a `StdVec` no step fails; the output is the named
/// `cobs_frame(payload@)`; it ends with the terminator, which the flavor
/// appends, and holds it nowhere else, which is what byte stuffing is for;
/// it holds a first code byte, at least one byte for every byte of the
/// payload, and the terminator; and `cobs::decode_in_place` gives the payload
/// back from it.
#[verifier::external_body]
fn stuff(payload: &[u8]) -> (r: Result<Vec<u8>, postcard::Error>)
    ensures
        r is Ok,
        r.unwrap()@ == cobs_frame(payload@),
        ends_only_with_terminator(r.unwrap()@),
        r.unwrap()@.len() >= payload@.len() + 2,
        cobs_payload(r.unwrap()@) == Some(payload@),
{
    let mut flavor = postcard::ser_flavors::Cobs::try_new(postcard::ser_flavors::StdVec::new())?;
    postcard::ser_flavors::Flavor::try_extend(&mut flavor, payload)?;
    postcard::ser_flavors::Flavor::finalize(flavor)
}

/// Decodes `frame` where it stands with `cobs::decode_in_place`, which
/// `postcard::from_bytes_cobs` calls before it deserialises.
///
/// Taken on trust: the outcome is the named `cobs_payload` of the bytes
/// handed in. On success the payload stands at the start of the buffer and
/// the result is its length; the buffer keeps its length. An empty buffer is
/// refused.
#[verifier::external_body]
fn unstuff(frame: &mut Vec<u8>) -> (r: Result<usize, cobs::DecodeError>)
    ensures
        final(frame)@.len() == old(frame)@.len(),
        r is Ok <==> cobs_payload(old(frame)@) is Some,
        r matches Ok(n) ==> n <= old(frame)@.len() && final(frame)@.subrange(0, n as int)
            == cobs_payload(old(frame)@).unwrap(),
        old(frame)@.len() == 0 ==> r is Err,
{
    cobs::decode_in_place(frame.as_mut_slice())
}

/// Why bytes were refused as a frame.
#[derive(Debug, Clone, Copy, PartialEq, Eq, Structural)]
pub enum FrameError {
    /// The bytes are no stuffed payload.
    BadEncoding,
}

/// What `decode_frame` gives for the bytes `frame`.
pub open spec fn decoded(frame: Seq<u8>) -> Result<Seq<u8>, FrameError> {
    match cobs_payload(frame) {
        Some(payload) => Ok(payload),
        None => Err(FrameError::BadEncoding),
    }
}

/// The frame that carries `payload`: ready to be written to the stream as one
/// unit.
///
/// The terminator ends the frame and stands nowhere else in it, whatever the
/// payload holds. The frame is longer than the payload by two bytes or more:
/// a code byte before it and the terminator after it. Decoding the frame
/// gives the payload back.
pub fn encode_frame(payload: &[u8]) -> (frame: Vec<u8>)
    ensures
        frame@ == cobs_frame(payload@),
        ends_only_with_terminator(frame@),
        frame@.len() >= payload@.len() + 2,
        decoded(frame@) == Ok::<Seq<u8>, FrameError>(payload@),
{
    match stuff(payload) {
        Ok(frame) => frame,
        // Over a growing vector the stuffing has no way to fail.
        Err(_) => Vec::new(),
    }
}

/// The payload of the frame `frame`, as read from the stream up to and
/// with its terminator.
pub fn decode_frame(frame: Vec<u8>) -> (r: Result<Vec<u8>, FrameError>)
    ensures
        r is Ok <==> decoded(frame@) is Ok,
        r matches Ok(payload) ==> decoded(frame@) == Ok::<Seq<u8>, FrameError>(payload@),
        r matches Err(e) ==> decoded(frame@) == Err::<Seq<u8>, FrameError>(e),
        frame@.len() == 0 ==> r is Err,
{
    let mut frame = frame;
    match unstuff(&mut frame) {
        Ok(n) => {
            frame.truncate(n);
            Ok(frame)
        },
        Err(_) => Err(FrameError::BadEncoding),
    }
}

/// What is left of the stream `s` after its last terminator: the start of a
/// frame that has not ended yet.
pub open spec fn rest_of(s: Seq<u8>) -> Seq<u8>
    decreases s.len(),
{
    if s.len() == 0 || s.last() == TERMINATOR {
        Seq::empty()
    } else {
        rest_of(s.drop_last()).push(s.last())
    }
}

/// The frames that the stream `s` holds: it is cut after every terminator,
/// whatever stands between the terminators.
pub open spec fn frames_of(s: Seq<u8>) -> Seq<Seq<u8>>
    decreases s.len(),
{
    if s.len() == 0 {
        Seq::empty()
    } else if s.last() == TERMINATOR {
        frames_of(s.drop_last()).push(rest_of(s.drop_last()).push(TERMINATOR))
    } else {
        frames_of(s.drop_last())
    }
}

/// The bytes of `frames`, one frame after the other.
pub open spec fn joined(frames: Seq<Seq<u8>>) -> Seq<u8>
    decreases frames.len(),
{
    if frames.len() == 0 {
        Seq::empty()
    } else {
        joined(frames.drop_last()) + frames.last()
    }
}

/// The byte strings that the vectors of `frames` hold.
pub open spec fn frame_views(frames: Seq<Vec<u8>>) -> Seq<Seq<u8>> {
    frames.map_values(|f: Vec<u8>| f@)
}

/// Cutting a stream loses nothing and cuts at the terminators only: the
/// frames and the rest, put together again, are the stream; every frame ends
/// with the terminator and holds it nowhere else; the rest holds none.
pub proof fn lemma_frames_of(s: Seq<u8>)
    ensures
        joined(frames_of(s)) + rest_of(s) == s,
        forall|i: int|
            0 <= i < frames_of(s).len() ==> ends_only_with_terminator(#[trigger] frames_of(s)[i]),
        forall|i: int| 0 <= i < rest_of(s).len() ==> rest_of(s)[i] != TERMINATOR,
    decreases s.len(),
{
    if s.len() == 0 {
        assert(joined(frames_of(s)) + rest_of(s) =~= s);
    } else {
        let before = s.drop_last();
        lemma_frames_of(before);
        assert(before.push(s.last()) =~= s);
        if s.last() == TERMINATOR {
            let frame = rest_of(before).push(TERMINATOR);
            assert(frames_of(s).drop_last() =~= frames_of(before));
            assert(frames_of(s).last() == frame);
            assert(joined(frames_of(s)) + rest_of(s) =~= s);
            assert(ends_only_with_terminator(frame));
        } else {
            assert(joined(frames_of(s)) + rest_of(s) =~= s);
        }
    }
}

/// A stream without a terminator holds no frame: all of it is the rest.
pub proof fn lemma_no_terminator_no_frame(s: Seq<u8>)
    requires
        forall|i: int| 0 <= i < s.len() ==> s[i] != TERMINATOR,
    ensures
        frames_of(s).len() == 0,
        rest_of(s) == s,
    decreases s.len(),
{
    if s.len() > 0 {
        lemma_no_terminator_no_frame(s.drop_last());
        assert(s.drop_last().push(s.last()) =~= s);
    }
}

/// Frame boundaries are found again after anything: where a stream that ends
/// with a terminator, or is empty, is followed by a frame, that frame is the
/// last of the frames that are cut, and nothing is left over; so what it
/// decodes to does not depend on what the stream held before.
pub proof fn lemma_frame_after_anything(before: Seq<u8>, frame: Seq<u8>)
    requires
        before.len() == 0 || before.last() == TERMINATOR,
        ends_only_with_terminator(frame),
    ensures
        frames_of(before + frame) == frames_of(before).push(frame),
        rest_of(before + frame).len() == 0,
{
    let body = frame.drop_last();
    lemma_after_boundary(before, body);
    assert((before + frame).drop_last() =~= before + body);
    assert(body.push(TERMINATOR) =~= frame);
}

/// What is written is what is read: a stream made of frames, one after the
/// other, is cut into just those frames, in their order, with nothing left
/// over.
pub proof fn lemma_frames_of_joined(frames: Seq<Seq<u8>>)
    requires
        forall|i: int| 0 <= i < frames.len() ==> ends_only_with_terminator(#[trigger] frames[i]),
    ensures
        frames_of(joined(frames)) == frames,
        rest_of(joined(frames)).len() == 0,
        joined(frames).len() == 0 || joined(frames).last() == TERMINATOR,
    decreases frames.len(),
{
    if frames.len() > 0 {
        let before = frames.drop_last();
        let last = frames.last();
        lemma_frames_of_joined(before);
        lemma_frame_after_anything(joined(before), last);
        assert(before.push(last) =~= frames);
        assert(ends_only_with_terminator(last));
        assert((joined(before) + last).last() == last.last());
    }
}

/// After a frame boundary, bytes without a terminator add no frame and are
/// the rest.
proof fn lemma_after_boundary(before: Seq<u8>, body: Seq<u8>)
    requires
        before.len() == 0 || before.last() == TERMINATOR,
        forall|i: int| 0 <= i < body.len() ==> body[i] != TERMINATOR,
    ensures
        frames_of(before + body) == frames_of(before),
        rest_of(before + body) == body,
    decreases body.len(),
{
    if body.len() == 0 {
        assert(before + body =~= before);
        assert(rest_of(before) =~= body);
    } else {
        lemma_after_boundary(before, body.drop_last());
        assert((before + body).drop_last() =~= before + body.drop_last());
        assert((before + body).last() == body.last());
        assert(body.drop_last().push(body.last()) =~= body);
    }
}

/// The reading side of a stream of frames: it takes the bytes as they come,
/// in pieces of any length, and hands out the frames that are complete.
pub struct FrameBuffer {
    pending: Vec<u8>,
}

impl View for FrameBuffer {
    type V = Seq<u8>;

    /// The bytes that have come in since the last terminator.
    closed spec fn view(&self) -> Seq<u8> {
        self.pending@
    }
}

impl FrameBuffer {
    /// Whether the buffer is sound: it holds the start of one frame, hence no
    /// terminator.
    pub closed spec fn wf(&self) -> bool {
        forall|i: int| 0 <= i < self.pending@.len() ==> self.pending@[i] != TERMINATOR
    }

    /// A buffer at the start of a stream.
    pub fn new() -> (r: Self)
        ensures
            r.wf(),
            r@.len() == 0,
    {
        FrameBuffer { pending: Vec::new() }
    }

    /// Takes the next bytes of the stream and hands out the frames that they
    /// complete, in order, each with its terminator. What comes after the
    /// last terminator is kept for the next call.
    pub fn feed(&mut self, chunk: &[u8]) -> (frames: Vec<Vec<u8>>)
        requires
            old(self).wf(),
        ensures
            final(self).wf(),
            frame_views(frames@) == frames_of(old(self)@ + chunk@),
            final(self)@ == rest_of(old(self)@ + chunk@),
    {
        let ghost start = self.pending@;
        let mut frames: Vec<Vec<u8>> = Vec::new();
        let n = chunk.len();
        let mut i: usize = 0;
        proof {
            lemma_no_terminator_no_frame(start);
            assert(start + chunk@.take(0) =~= start);
            assert(frame_views(frames@) =~= frames_of(start));
        }
        while i < n
            invariant
                i <= n,
                n == chunk@.len(),
                self.wf(),
                frame_views(frames@) == frames_of(start + chunk@.take(i as int)),
                self.pending@ == rest_of(start + chunk@.take(i as int)),
            decreases n - i,
        {
            let byte = chunk[i];
            let ghost before = start + chunk@.take(i as int);
            let ghost had = frames@;
            proof {
                assert((start + chunk@.take(i + 1)).drop_last() =~= before);
                assert((start + chunk@.take(i + 1)).last() == byte);
            }
            self.pending.push(byte);
            if byte == TERMINATOR {
                let mut frame: Vec<u8> = Vec::new();
                core::mem::swap(&mut frame, &mut self.pending);
                frames.push(frame);
                proof {
                    assert(frame_views(frames@) =~= frame_views(had).push(
                        rest_of(before).push(TERMINATOR),
                    ));
                }
            } else {
                proof {
                    assert(frame_views(frames@) =~= frame_views(had));
                }
            }
            i = i + 1;
        }
        proof {
            assert(chunk@.take(n as int) =~= chunk@);
        }
        frames
    }

    /// Hands out what came in after the last terminator, if anything: at the
    /// end of the stream, a last frame that lacks its terminator. The buffer
    /// is empty afterwards.
    pub fn take_rest(&mut self) -> (r: Option<Vec<u8>>)
        requires
            old(self).wf(),
        ensures
            final(self).wf(),
            final(self)@.len() == 0,
            r is Some <==> old(self)@.len() > 0,
            r matches Some(bytes) ==> bytes@ == old(self)@,
    {
        if self.pending.len() == 0 {
            None
        } else {
            let mut rest: Vec<u8> = Vec::new();
            core::mem::swap(&mut rest, &mut self.pending);
            Some(rest)
        }
    }
}

} // verus!
