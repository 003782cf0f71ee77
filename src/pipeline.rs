use vstd::prelude::*;

use crate::frame::{feed, frames_between, FrameDecoder};
use crate::message::{extract_spec, parse_frame, parsed_entries, DecodedMessage, ListEntry};
use crate::metering::{apply_effects, apply_state, process_sml_messages, SensorData, SideEffects};

verus! {

/// The state after one decoded frame at `now`: a frame that does not parse
/// changes nothing.
pub open spec fn frame_step(s: SensorData, frame: Seq<u8>, now: u64) -> SensorData {
    match parsed_entries(frame) {
        Some(es) => apply_state(s, extract_spec(es), now),
        None => s,
    }
}

/// The state after the decoded frames `frames`, all at `now`.
pub open spec fn run_frames(s: SensorData, frames: Seq<Seq<u8>>, now: u64) -> SensorData
    decreases frames.len(),
{
    if frames.len() == 0 {
        s
    } else {
        frame_step(run_frames(s, frames.drop_last(), now), frames.last(), now)
    }
}

/// What processing one parsed frame produced.
pub struct TickOutput {
    /// The parsed message.
    pub message: DecodedMessage,
    /// The side effects, if the message carried a register of interest.
    pub effects: Option<SideEffects>,
    /// The state right after the message.
    pub state: SensorData,
}

/// The contents of one output: message entries, side effects, state.
pub open spec fn output_view(o: TickOutput) -> (Seq<ListEntry>, Option<SideEffects>, SensorData) {
    (o.message.entries@, o.effects, o.state)
}

/// The outputs of the frames `frames` at `now`, one per frame that parses.
pub open spec fn tick_outputs(s: SensorData, frames: Seq<Seq<u8>>, now: u64) -> Seq<
    (Seq<ListEntry>, Option<SideEffects>, SensorData),
>
    decreases frames.len(),
{
    if frames.len() == 0 {
        Seq::empty()
    } else {
        let init = frames.drop_last();
        let before = tick_outputs(s, init, now);
        let s0 = run_frames(s, init, now);
        match parsed_entries(frames.last()) {
            Some(es) => before.push(
                (es, apply_effects(s0, extract_spec(es), now), apply_state(s0, extract_spec(es), now)),
            ),
            None => before,
        }
    }
}

/// Parses one decoded frame and runs it through the state machine; a frame
/// that does not parse is dropped and returns `None`.
pub fn process_frame(sensor: &mut SensorData, frame: &[u8], now: u64) -> (r: Option<(DecodedMessage, Option<SideEffects>)>)
    ensures
        *final(sensor) == frame_step(*old(sensor), frame@, now),
        match r {
            Some((m, e)) => parsed_entries(frame@) == Some(m.entries@) && e == apply_effects(
                *old(sensor),
                extract_spec(m.entries@),
                now,
            ),
            None => parsed_entries(frame@) is None,
        },
{
    match parse_frame(frame) {
        Some(msg) => {
            let e = process_sml_messages(sensor, &msg, now);
            Some((msg, e))
        },
        None => None,
    }
}

/// The ingestion pipeline: frame decoding followed by the metering state machine.
pub struct Pipeline {
    decoder: FrameDecoder,
    sensor: SensorData,
}

impl Pipeline {
    /// The bytes the frame decoder has seen since it was (re)started.
    pub closed spec fn transcript(&self) -> Seq<u8> {
        self.decoder.transcript()
    }

    /// The metering state.
    pub closed spec fn state(&self) -> SensorData {
        self.sensor
    }

    /// The frame decoder is well formed.
    pub closed spec fn wf(&self) -> bool {
        self.decoder.wf()
    }

    /// The current metering state.
    pub fn sensor(&self) -> (r: &SensorData)
        ensures
            *r == self.state(),
    {
        &self.sensor
    }

    /// A pipeline with a fresh decoder and the initial metering state.
    pub fn new() -> (r: Pipeline)
        ensures
            r.wf(),
            r.transcript() == Seq::<u8>::empty(),
            r.state() == crate::metering::initial_state(),
    {
        Pipeline { decoder: FrameDecoder::new(), sensor: SensorData::new() }
    }

    /// Pushes a chunk of bytes read at `now` through the decoder and runs each
    /// completed frame, in order, through the state machine.
    pub fn ingest(&mut self, chunk: &[u8], now: u64) -> (r: Vec<TickOutput>)
        requires
            old(self).wf(),
        ensures
            final(self).wf(),
            final(self).transcript() == feed(old(self).transcript(), chunk@),
            final(self).state() == run_frames(
                old(self).state(),
                frames_between(old(self).transcript(), chunk@),
                now,
            ),
            r@.map_values(|o: TickOutput| output_view(o)) == tick_outputs(
                old(self).state(),
                frames_between(old(self).transcript(), chunk@),
                now,
            ),
    {
        let ghost s0 = self.sensor;
        let ghost t0 = self.decoder.transcript();
        let frames = self.decoder.push_bytes(chunk);
        let ghost fs = frames@.map_values(|f: Vec<u8>| f@);
        let mut out: Vec<TickOutput> = Vec::new();
        let mut i: usize = 0;
        while i < frames.len()
            invariant
                0 <= i <= frames@.len(),
                self.decoder.wf(),
                self.decoder.transcript() == feed(t0, chunk@),
                fs == frames_between(t0, chunk@),
                fs.len() == frames@.len(),
                forall|j: int| 0 <= j < frames@.len() ==> #[trigger] fs[j] == frames@[j]@,
                self.sensor == run_frames(s0, fs.take(i as int), now),
                out@.map_values(|o: TickOutput| output_view(o)) == tick_outputs(s0, fs.take(i as int), now),
            decreases frames@.len() - i,
        {
            proof {
                assert(fs.take(i as int + 1).drop_last() =~= fs.take(i as int));
            }
            match process_frame(&mut self.sensor, frames[i].as_slice(), now) {
                Some((message, effects)) => {
                    let o = TickOutput { message, effects, state: self.sensor };
                    out.push(o);
                    assert(out@.map_values(|o: TickOutput| output_view(o)) =~= tick_outputs(
                        s0,
                        fs.take(i as int),
                        now,
                    ).push(output_view(o)));
                },
                None => {},
            }
            i = i + 1;
        }
        assert(fs.take(i as int) =~= fs);
        out
    }
}

/// Running two lists of frames one after the other is running their concatenation.
pub proof fn lemma_run_frames_concat(s: SensorData, x: Seq<Seq<u8>>, y: Seq<Seq<u8>>, now: u64)
    ensures
        run_frames(s, x + y, now) == run_frames(run_frames(s, x, now), y, now),
        tick_outputs(s, x + y, now) == tick_outputs(s, x, now) + tick_outputs(run_frames(s, x, now), y, now),
    decreases y.len(),
{
    if y.len() == 0 {
        assert(x + y =~= x);
        assert(tick_outputs(s, x, now) + tick_outputs(run_frames(s, x, now), y, now) =~= tick_outputs(s, x, now));
    } else {
        lemma_run_frames_concat(s, x, y.drop_last(), now);
        assert((x + y).drop_last() =~= x + y.drop_last());
        assert((x + y).last() == y.last());
        let a = tick_outputs(s, x, now);
        let b = tick_outputs(run_frames(s, x, now), y.drop_last(), now);
        let s1 = run_frames(s, x + y.drop_last(), now);
        match parsed_entries(y.last()) {
            Some(es) => {
                let item = (es, apply_effects(s1, extract_spec(es), now), apply_state(s1, extract_spec(es), now));
                assert((a + b).push(item) =~= a + b.push(item));
            },
            None => {},
        }
    }
}

/// Ingesting a stream in two reads gives the state and the outputs of
/// ingesting it in one: the outputs of the second read follow those of the
/// first, and the state ends the same.
pub proof fn lemma_ingest_split(s: SensorData, t: Seq<u8>, a: Seq<u8>, b: Seq<u8>, now: u64)
    ensures
        run_frames(s, frames_between(t, a + b), now) == run_frames(
            run_frames(s, frames_between(t, a), now),
            frames_between(feed(t, a), b),
            now,
        ),
        tick_outputs(s, frames_between(t, a + b), now) == tick_outputs(s, frames_between(t, a), now)
            + tick_outputs(run_frames(s, frames_between(t, a), now), frames_between(feed(t, a), b), now),
{
    crate::frame::lemma_split_feed(t, a, b);
    lemma_run_frames_concat(s, frames_between(t, a), frames_between(feed(t, a), b), now);
}

} // verus!
