//! Framing: finding ten-byte frames in an unstructured stream of bytes.
//!
//! The accumulator is idle until it sees the header byte and then gathers
//! bytes until it holds ten, which it hands to the decoder. Whatever the
//! decoder says, the accumulator is idle again afterwards, so one bad frame
//! never costs more than itself.

use crate::buffer::{as_slice, contents, put_u8};
use crate::error::Error;
use crate::packet::{
    decode_frame, is_intact, parse_packet, registered_response, renders, too_long_error,
    FrameFault, FRAME_LEN, HEADER,
};
use crate::response::Resp;
use bytes::BytesMut;
use vstd::prelude::*;

verus! {

/// What the accumulator holds: nothing, or the bytes of the frame in
/// progress.
pub enum Gathering {
    Idle,
    Accumulating(Seq<u8>),
}

impl Gathering {
    /// A state that framing itself reaches: idle, or holding one to nine
    /// bytes that begin with the header.
    pub open spec fn is_sound(self) -> bool {
        match self {
            Gathering::Idle => true,
            Gathering::Accumulating(packet) => 1 <= packet.len() < FRAME_LEN && packet[0] == HEADER,
        }
    }
}

/// What one byte does to the accumulator: the state afterwards, and what is
/// emitted, if anything.
///
/// Idle, only the header byte counts; it opens a frame. With a frame in
/// progress the byte is appended, and the tenth byte completes the frame,
/// which is decoded. A buffer that already holds a frame's length or more is
/// given up as too long, together with the byte that found it so.
pub open spec fn step(state: Gathering, byte: u8) -> (Gathering, Option<Result<Resp, FrameFault>>) {
    match state {
        Gathering::Idle => if byte == HEADER {
            (Gathering::Accumulating(seq![byte]), None)
        } else {
            (Gathering::Idle, None)
        },
        Gathering::Accumulating(packet) => if packet.len() >= FRAME_LEN {
            (Gathering::Idle, Some(Err(FrameFault::TooLong { packet })))
        } else if packet.len() + 1 == FRAME_LEN {
            (Gathering::Idle, Some(decode_frame(packet.push(byte))))
        } else {
            (Gathering::Accumulating(packet.push(byte)), None)
        },
    }
}

/// What was emitted, as a sequence of none or one.
pub open spec fn emitted(output: Option<Result<Resp, FrameFault>>) -> Seq<Result<Resp, FrameFault>> {
    match output {
        Some(outcome) => seq![outcome],
        None => Seq::empty(),
    }
}

/// What a run of bytes does to the accumulator: the state after the last
/// byte, and everything emitted on the way, in order.
pub open spec fn run(state: Gathering, bytes: Seq<u8>) -> (Gathering, Seq<Result<Resp, FrameFault>>)
    decreases bytes.len(),
{
    if bytes.len() == 0 {
        (state, Seq::empty())
    } else {
        let (before, outcomes) = run(state, bytes.drop_last());
        let (after, output) = step(before, bytes.last());
        (after, outcomes + emitted(output))
    }
}

/// Whether each of `outs` is what decoding gives for the outcome in its
/// place.
pub open spec fn renders_all(outs: Seq<Result<Resp, Error>>, outcomes: Seq<Result<Resp, FrameFault>>) -> bool {
    &&& outs.len() == outcomes.len()
    &&& forall|i: int| 0 <= i < outs.len() ==> renders(#[trigger] outs[i], outcomes[i])
}

/// Gathers the bytes of a stream into frames.
#[derive(Debug)]
pub struct FrameAccumulator {
    current_packet: Option<BytesMut>,
}

impl View for FrameAccumulator {
    type V = Gathering;

    closed spec fn view(&self) -> Gathering {
        match self.current_packet {
            Some(packet) => Gathering::Accumulating(contents(packet)),
            None => Gathering::Idle,
        }
    }
}

impl FrameAccumulator {
    /// An idle accumulator.
    pub fn new() -> (accumulator: Self)
        ensures
            accumulator@ == Gathering::Idle,
            accumulator@.is_sound(),
    {
        FrameAccumulator { current_packet: None }
    }

    /// Takes the next byte of the stream. Returns the decoded response, or
    /// the error to report, where the byte completes a frame or finds the
    /// buffer too long; `None` otherwise.
    pub fn push(&mut self, byte: u8) -> (out: Option<Result<Resp, Error>>)
        ensures
            final(self)@ == step(old(self)@, byte).0,
            match step(old(self)@, byte).1 {
                Some(outcome) => out matches Some(result) && renders(result, outcome),
                None => out is None,
            },
            old(self)@.is_sound() ==> final(self)@.is_sound(),
    {
        match self.current_packet.take() {
            Some(mut packet) => {
                if packet.len() >= FRAME_LEN {
                    Some(Err(too_long_error(as_slice(&packet))))
                } else {
                    put_u8(&mut packet, byte);
                    if packet.len() == FRAME_LEN {
                        Some(parse_packet(as_slice(&packet)))
                    } else {
                        self.current_packet = Some(packet);
                        None
                    }
                }
            },
            None => {
                if byte == HEADER {
                    let mut packet = BytesMut::with_capacity(FRAME_LEN);
                    put_u8(&mut packet, byte);
                    self.current_packet = Some(packet);
                }
                None
            },
        }
    }

    /// Takes a run of bytes, one after the other, and returns what they
    /// completed, in order.
    pub fn feed(&mut self, bytes: &[u8]) -> (outs: Vec<Result<Resp, Error>>)
        ensures
            final(self)@ == run(old(self)@, bytes@).0,
            renders_all(outs@, run(old(self)@, bytes@).1),
            old(self)@.is_sound() ==> final(self)@.is_sound(),
    {
        let mut outs: Vec<Result<Resp, Error>> = Vec::new();
        let mut i: usize = 0;
        while i < bytes.len()
            invariant
                i <= bytes.len(),
                self@ == run(old(self)@, bytes@.take(i as int)).0,
                renders_all(outs@, run(old(self)@, bytes@.take(i as int)).1),
                old(self)@.is_sound() ==> self@.is_sound(),
            decreases bytes.len() - i,
        {
            assert(bytes@.take(i + 1).drop_last() =~= bytes@.take(i as int));
            if let Some(result) = self.push(bytes[i]) {
                outs.push(result);
            }
            i += 1;
        }
        assert(bytes@.take(i as int) =~= bytes@);
        outs
    }
}

/// Whether no byte of `bytes` is the header byte.
pub open spec fn is_noise(bytes: Seq<u8>) -> bool {
    forall|i: int| 0 <= i < bytes.len() ==> bytes[i] != HEADER
}

/// Whether `bytes` has the length of a frame and begins with the header.
pub open spec fn is_framed(bytes: Seq<u8>) -> bool {
    bytes.len() == FRAME_LEN && bytes[0] == HEADER
}

/// Running over two runs of bytes, one after the other, is running over the
/// first and then, from where that ended, over the second.
pub proof fn lemma_run_concat(state: Gathering, first: Seq<u8>, second: Seq<u8>)
    ensures
        run(state, first + second).0 == run(run(state, first).0, second).0,
        run(state, first + second).1 == run(state, first).1 + run(run(state, first).0, second).1,
    decreases second.len(),
{
    if second.len() == 0 {
        assert(first + second =~= first);
        assert(run(state, first).1 + Seq::<Result<Resp, FrameFault>>::empty() =~= run(
            state,
            first,
        ).1);
    } else {
        assert((first + second).drop_last() =~= first + second.drop_last());
        lemma_run_concat(state, first, second.drop_last());
        let middle = run(state, first).0;
        let output = emitted(step(run(middle, second.drop_last()).0, second.last()).1);
        assert((run(state, first).1 + run(middle, second.drop_last()).1) + output =~= run(
            state,
            first,
        ).1 + (run(middle, second.drop_last()).1 + output));
    }
}

/// Running over a single byte is taking one step.
pub proof fn lemma_run_single(state: Gathering, byte: u8)
    ensures
        run(state, seq![byte]) == (step(state, byte).0, emitted(step(state, byte).1)),
{
    reveal_with_fuel(run, 2);
    assert(seq![byte].drop_last() =~= Seq::<u8>::empty());
    assert(Seq::<Result<Resp, FrameFault>>::empty() + emitted(step(state, byte).1) =~= emitted(
        step(state, byte).1,
    ));
}

/// Whatever the accumulator held, after one byte it holds less than a
/// frame's length: an overflow does not outlast the byte that meets it.
pub proof fn lemma_step_recovers(state: Gathering, byte: u8)
    ensures
        step(state, byte).0 matches Gathering::Accumulating(packet) ==> packet.len() < FRAME_LEN,
        state.is_sound() ==> step(state, byte).0.is_sound(),
        state.is_sound() ==> !(step(state, byte).1 matches Some(Err(FrameFault::TooLong { .. }))),
{
}

/// From an idle start the accumulator never holds a frame's length or more,
/// and never gives a buffer up as too long.
pub proof fn lemma_run_stays_sound(state: Gathering, bytes: Seq<u8>)
    requires
        state.is_sound(),
    ensures
        run(state, bytes).0.is_sound(),
        forall|i: int|
            0 <= i < run(state, bytes).1.len() ==> !(#[trigger] run(state, bytes).1[i] matches Err(
                FrameFault::TooLong { .. },
            )),
    decreases bytes.len(),
{
    if bytes.len() > 0 {
        lemma_run_stays_sound(state, bytes.drop_last());
        lemma_step_recovers(run(state, bytes.drop_last()).0, bytes.last());
    }
}

/// Bytes that arrive while the accumulator is idle, none of them the header,
/// are dropped without a trace.
pub proof fn lemma_noise_is_discarded(noise: Seq<u8>)
    requires
        is_noise(noise),
    ensures
        run(Gathering::Idle, noise) == (Gathering::Idle, Seq::<Result<Resp, FrameFault>>::empty()),
    decreases noise.len(),
{
    if noise.len() > 0 {
        lemma_noise_is_discarded(noise.drop_last());
    }
}

/// The first `count` bytes of a header-led run, fewer than a frame's length,
/// are all held and nothing is emitted yet.
proof fn lemma_frame_in_progress(frame: Seq<u8>, count: int)
    requires
        1 <= count < FRAME_LEN,
        count <= frame.len(),
        frame[0] == HEADER,
    ensures
        run(Gathering::Idle, frame.take(count)) == (
            Gathering::Accumulating(frame.take(count)),
            Seq::<Result<Resp, FrameFault>>::empty(),
        ),
    decreases count,
{
    let held = frame.take(count);
    assert(held.drop_last() =~= frame.take(count - 1));
    if count == 1 {
        assert(held =~= seq![frame[0]]);
        lemma_run_single(Gathering::Idle, frame[0]);
    } else {
        lemma_frame_in_progress(frame, count - 1);
        assert(frame.take(count - 1).push(held.last()) =~= held);
        assert(run(Gathering::Idle, held).1 =~= Seq::<Result<Resp, FrameFault>>::empty());
    }
}

/// Ten bytes that begin with the header, arriving while the accumulator is
/// idle, are decoded as one frame, and the accumulator is idle again.
pub proof fn lemma_frame_is_emitted(frame: Seq<u8>)
    requires
        is_framed(frame),
    ensures
        run(Gathering::Idle, frame) == (Gathering::Idle, seq![decode_frame(frame)]),
{
    lemma_frame_in_progress(frame, FRAME_LEN - 1);
    assert(frame.drop_last() =~= frame.take(FRAME_LEN - 1));
    assert(frame.take(FRAME_LEN - 1).push(frame.last()) =~= frame);
    assert(Seq::<Result<Resp, FrameFault>>::empty() + seq![decode_frame(frame)] =~= seq![
        decode_frame(frame),
    ]);
}

/// Resynchronization: noise, then a frame. The noise is dropped and exactly
/// the one frame is decoded.
pub proof fn lemma_resynchronizes_after_noise(noise: Seq<u8>, frame: Seq<u8>)
    requires
        is_noise(noise),
        is_framed(frame),
    ensures
        run(Gathering::Idle, noise + frame) == (Gathering::Idle, seq![decode_frame(frame)]),
{
    lemma_run_concat(Gathering::Idle, noise, frame);
    lemma_noise_is_discarded(noise);
    lemma_frame_is_emitted(frame);
    assert(Seq::<Result<Resp, FrameFault>>::empty() + seq![decode_frame(frame)] =~= seq![
        decode_frame(frame),
    ]);
}

/// A frame that begins where the accumulator is idle is decoded, whatever
/// came before: everything that the earlier bytes gave is emitted first, and
/// then what the frame decodes to.
pub proof fn lemma_frame_after_any_run(state: Gathering, before: Seq<u8>, frame: Seq<u8>)
    requires
        run(state, before).0 == Gathering::Idle,
        is_framed(frame),
    ensures
        run(state, before + frame) == (
            Gathering::Idle,
            run(state, before).1.push(decode_frame(frame)),
        ),
{
    lemma_run_concat(state, before, frame);
    lemma_frame_is_emitted(frame);
    assert(run(state, before).1 + seq![decode_frame(frame)] =~= run(state, before).1.push(
        decode_frame(frame),
    ));
}

/// Recovery: ten header-led bytes that do not decode, then noise, then a
/// frame. The first ten are reported as the fault that they show, and the
/// frame that follows is decoded all the same.
pub proof fn lemma_resumes_after_bad_frame(bad: Seq<u8>, noise: Seq<u8>, frame: Seq<u8>)
    requires
        is_framed(bad),
        is_noise(noise),
        is_framed(frame),
    ensures
        run(Gathering::Idle, bad + (noise + frame)) == (
            Gathering::Idle,
            seq![decode_frame(bad), decode_frame(frame)],
        ),
        !is_intact(bad) || registered_response(bad) is None ==> decode_frame(bad) is Err,
{
    lemma_run_concat(Gathering::Idle, bad, noise + frame);
    lemma_frame_is_emitted(bad);
    lemma_resynchronizes_after_noise(noise, frame);
    assert(seq![decode_frame(bad)] + seq![decode_frame(frame)] =~= seq![
        decode_frame(bad),
        decode_frame(frame),
    ]);
}

/// Overflow: a buffer that holds a frame's length or more is given up at the
/// next byte, whatever that byte is, and the accumulator is idle again; a
/// frame that follows, after any noise, is decoded.
pub proof fn lemma_resumes_after_overflow(
    packet: Seq<u8>,
    byte: u8,
    noise: Seq<u8>,
    frame: Seq<u8>,
)
    requires
        packet.len() >= FRAME_LEN,
        is_noise(noise),
        is_framed(frame),
    ensures
        step(Gathering::Accumulating(packet), byte) == (
            Gathering::Idle,
            Some(Err::<Resp, FrameFault>(FrameFault::TooLong { packet })),
        ),
        run(Gathering::Accumulating(packet), seq![byte] + (noise + frame)) == (
            Gathering::Idle,
            seq![Err(FrameFault::TooLong { packet }), decode_frame(frame)],
        ),
{
    let start = Gathering::Accumulating(packet);
    let fault = Err::<Resp, FrameFault>(FrameFault::TooLong { packet });
    lemma_run_single(start, byte);
    lemma_run_concat(start, seq![byte], noise + frame);
    lemma_resynchronizes_after_noise(noise, frame);
    assert(seq![fault] + seq![decode_frame(frame)] =~= seq![fault, decode_frame(frame)]);
}

} // verus!
