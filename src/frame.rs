use vstd::prelude::*;

verus! {

/// Holds an SML transport decoder (sml_rs::transport::Decoder over a
/// growable buffer); Verus sees it only through the items below.
#[verifier::external_body]
pub struct TransportDecoder {
    inner: sml_rs::transport::Decoder<Vec<u8>>,
}

/// The bytes pushed into an SML transport decoder since it was constructed.
pub uninterp spec fn decoder_transcript(d: TransportDecoder) -> Seq<u8>;

/// The complete, checksum-valid frame payload that the SML transport decoder
/// hands back when the last byte of `transcript` is pushed into a fresh decoder
/// after the bytes before it; `None` when that push yields no frame. Like
/// every growable buffer in this library, the decoder's buffer is taken to
/// grow whenever asked (its allocation failure is not modelled).
pub uninterp spec fn transport_frame(transcript: Seq<u8>) -> Option<Seq<u8>>;

/// A malformed, truncated or checksum-corrupt frame was discarded.
#[derive(Clone, Copy, Debug, PartialEq, Eq)]
pub struct FramingError;

/// The frame carried by one push result.
pub open spec fn frame_of(r: Result<Option<Vec<u8>>, FramingError>) -> Option<Seq<u8>> {
    match r {
        Ok(Some(f)) => Some(f@),
        _ => None,
    }
}

/// Relies on sml_rs::transport::Decoder::new: an empty decoder in its
/// initial state.
#[verifier::external_body]
fn new_transport_decoder() -> (r: TransportDecoder)
    ensures
        decoder_transcript(r) == Seq::<u8>::empty(),
{
    TransportDecoder { inner: sml_rs::transport::Decoder::new() }
}

/// Relies on sml_rs::transport::Decoder::push_byte: the decoder is
/// deterministic, so what a push returns depends only on the bytes pushed so
/// far; a returned frame is copied out of the decoder's buffer. While looking
/// for a start sequence the decoder counts discarded bytes in a `u16`, at most
/// one per byte pushed since its last frame, so that count must stay below
/// 65536.
#[verifier::external_body]
fn push_transport_byte(d: &mut TransportDecoder, b: u8) -> (r: Result<
    Option<Vec<u8>>,
    FramingError,
>)
    requires
        bytes_since_frame(decoder_transcript(*old(d))) < 65535,
    ensures
        decoder_transcript(*final(d)) == decoder_transcript(*old(d)).push(b),
        frame_of(r) == transport_frame(decoder_transcript(*final(d))),
{
    match d.inner.push_byte(b) {
        Ok(Some(frame)) => Ok(Some(frame.to_vec())),
        Ok(None) => Ok(None),
        Err(_) => Err(FramingError),
    }
}

/// The number of bytes pushed since the last push that completed a frame
/// (or since the decoder was built).
pub open spec fn bytes_since_frame(t: Seq<u8>) -> nat
    decreases t.len(),
{
    if t.len() == 0 {
        0
    } else if transport_frame(t) is Some {
        0
    } else {
        bytes_since_frame(t.drop_last()) + 1
    }
}

/// A `FrameDecoder` starts a fresh transport decoder once this many bytes
/// have passed without a frame.
pub const RESTART_AFTER: u64 = 60000;

/// The transcript of the transport decoder after pushing `b` when its
/// transcript was `t`: a long run without frames first restarts it.
pub open spec fn next_transcript(t: Seq<u8>, b: u8) -> Seq<u8> {
    if bytes_since_frame(t) >= RESTART_AFTER {
        seq![b]
    } else {
        t.push(b)
    }
}

/// The transcript after pushing `bytes` one at a time, starting from `t`.
pub open spec fn feed(t: Seq<u8>, bytes: Seq<u8>) -> Seq<u8>
    decreases bytes.len(),
{
    if bytes.len() == 0 {
        t
    } else {
        next_transcript(feed(t, bytes.drop_last()), bytes.last())
    }
}

/// The frames completed while `bytes` are pushed, one at a time, into a
/// decoder whose transcript is `t`.
pub open spec fn frames_between(t: Seq<u8>, bytes: Seq<u8>) -> Seq<Seq<u8>>
    decreases bytes.len(),
{
    if bytes.len() == 0 {
        Seq::empty()
    } else {
        let before = frames_between(t, bytes.drop_last());
        match transport_frame(feed(t, bytes)) {
            Some(f) => before.push(f),
            None => before,
        }
    }
}

/// Reassembles SML transport frames from a byte stream that arrives in pieces.
pub struct FrameDecoder {
    inner: TransportDecoder,
    quiet: u64,
}

impl FrameDecoder {
    /// The bytes pushed since the transport decoder was (re)started.
    pub closed spec fn transcript(&self) -> Seq<u8> {
        decoder_transcript(self.inner)
    }

    /// The byte counter agrees with the transcript and stays below the restart bound.
    pub closed spec fn wf(&self) -> bool {
        &&& self.quiet == bytes_since_frame(self.transcript())
        &&& self.quiet <= RESTART_AFTER
    }

    /// A decoder that has seen no bytes.
    pub fn new() -> (r: FrameDecoder)
        ensures
            r.wf(),
            r.transcript() == Seq::<u8>::empty(),
    {
        FrameDecoder { inner: new_transport_decoder(), quiet: 0 }
    }

    /// Pushes one byte; yields at most one complete frame, never a part of one.
    pub fn push(&mut self, b: u8) -> (r: Result<Option<Vec<u8>>, FramingError>)
        requires
            old(self).wf(),
        ensures
            final(self).wf(),
            final(self).transcript() == next_transcript(old(self).transcript(), b),
            frame_of(r) == transport_frame(final(self).transcript()),
    {
        if self.quiet >= RESTART_AFTER {
            self.inner = new_transport_decoder();
            self.quiet = 0;
        }
        let ghost before = self.transcript();
        let r = push_transport_byte(&mut self.inner, b);
        proof {
            assert(self.transcript().drop_last() =~= before);
        }
        match r {
            Ok(Some(_)) => {
                self.quiet = 0;
            },
            _ => {
                self.quiet = self.quiet + 1;
            },
        }
        r
    }

    /// Pushes a run of bytes in order and returns the frames they complete;
    /// framing errors are dropped, as the decoder resynchronizes by itself.
    pub fn push_bytes(&mut self, bytes: &[u8]) -> (r: Vec<Vec<u8>>)
        requires
            old(self).wf(),
        ensures
            final(self).wf(),
            final(self).transcript() == feed(old(self).transcript(), bytes@),
            r@.map_values(|f: Vec<u8>| f@) == frames_between(old(self).transcript(), bytes@),
    {
        let ghost seen = self.transcript();
        let mut out: Vec<Vec<u8>> = Vec::new();
        let mut i: usize = 0;
        while i < bytes.len()
            invariant
                0 <= i <= bytes@.len(),
                self.wf(),
                self.transcript() == feed(seen, bytes@.take(i as int)),
                out@.map_values(|f: Vec<u8>| f@) == frames_between(seen, bytes@.take(i as int)),
            decreases bytes@.len() - i,
        {
            let r = self.push(bytes[i]);
            proof {
                assert(bytes@.take(i as int + 1).drop_last() =~= bytes@.take(i as int));
            }
            match r {
                Ok(Some(f)) => {
                    out.push(f);
                    assert(out@.map_values(|f: Vec<u8>| f@) =~= frames_between(seen, bytes@.take(i as int)).push(f@));
                },
                _ => {},
            }
            i = i + 1;
        }
        assert(bytes@.take(i as int) =~= bytes@);
        out
    }
}

/// Feeding `a` and then `b` leaves the decoder where feeding `a + b` does.
pub proof fn lemma_feed_concat(t: Seq<u8>, a: Seq<u8>, b: Seq<u8>)
    ensures
        feed(t, a + b) == feed(feed(t, a), b),
    decreases b.len(),
{
    if b.len() == 0 {
        assert(a + b =~= a);
    } else {
        lemma_feed_concat(t, a, b.drop_last());
        assert((a + b).drop_last() =~= a + b.drop_last());
        assert((a + b).last() == b.last());
    }
}

/// Feeding a stream in two pieces yields the frames of the first piece
/// followed by those of the second: how the input is split into pushes
/// never changes the decoded frames.
pub proof fn lemma_split_feed(t: Seq<u8>, a: Seq<u8>, b: Seq<u8>)
    ensures
        frames_between(t, a + b) == frames_between(t, a) + frames_between(feed(t, a), b),
    decreases b.len(),
{
    if b.len() == 0 {
        assert(a + b =~= a);
        assert(frames_between(t, a) + frames_between(feed(t, a), b) =~= frames_between(t, a));
    } else {
        lemma_split_feed(t, a, b.drop_last());
        lemma_feed_concat(t, a, b);
        assert((a + b).drop_last() =~= a + b.drop_last());
        let rest = frames_between(t, a) + frames_between(feed(t, a), b.drop_last());
        match transport_frame(feed(t, a + b)) {
            Some(f) => {
                assert(rest.push(f) =~= frames_between(t, a) + frames_between(feed(t, a), b.drop_last()).push(f));
            },
            None => {},
        }
    }
}

/// The frames of a stream split into any number of chunks.
pub open spec fn frames_of_chunks(t: Seq<u8>, chunks: Seq<Seq<u8>>) -> Seq<Seq<u8>>
    decreases chunks.len(),
{
    if chunks.len() == 0 {
        Seq::empty()
    } else {
        let init = chunks.drop_last();
        frames_of_chunks(t, init) + frames_between(feed(t, init.flatten()), chunks.last())
    }
}

/// Feeding a stream chunk by chunk, in any chunking (one byte per chunk
/// included), yields the same frames as feeding the whole stream at once.
pub proof fn lemma_chunked_feed(t: Seq<u8>, chunks: Seq<Seq<u8>>)
    ensures
        frames_of_chunks(t, chunks) == frames_between(t, chunks.flatten()),
    decreases chunks.len(),
{
    if chunks.len() == 0 {
        assert(frames_between(t, chunks.flatten()) =~= Seq::<Seq<u8>>::empty());
    } else {
        let init = chunks.drop_last();
        lemma_chunked_feed(t, init);
        assert(chunks =~= init.push(chunks.last()));
        init.lemma_flatten_push(chunks.last());
        lemma_split_feed(t, init.flatten(), chunks.last());
    }
}

} // verus!
