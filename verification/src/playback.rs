//! The inbound half of a turn: frames are decoded and their audio is
//! appended to the playback record in strict arrival order, until the
//! stream ends or a fatal frame aborts the turn. The platform sink
//! plays what is appended at its own pace; this module owns the
//! order, which is what the sink observes.

use vstd::prelude::*;
use crate::errors::PlaybackError;
use crate::frames::{parse_frame, InboundFrame, frame_audio, frame_fatal, fatal_matches};

verus! {

/// Ordered, append-only sequence of the decoded audio segments handed
/// to the platform playback sink, oldest first. Exclusively fed by
/// the playback consumer; the sink pulls at its own pace and never
/// reorders, so this record is exactly what it observes.
pub struct PlaybackQueue {
    segments: Vec<Vec<u8>>,
}

impl View for PlaybackQueue {
    type V = Seq<Seq<u8>>;

    closed spec fn view(&self) -> Seq<Seq<u8>> {
        self.segments.deep_view()
    }
}

impl PlaybackQueue {
    /// A fresh, empty record, as each turn starts with.
    pub fn new() -> (r: PlaybackQueue)
        ensures
            r@ == Seq::<Seq<u8>>::empty(),
    {
        let r = PlaybackQueue { segments: Vec::new() };
        proof {
            assert(r@ =~~= Seq::<Seq<u8>>::empty());
        }
        r
    }

    /// How many segments have been appended this turn.
    pub fn len(&self) -> (r: usize)
        ensures
            r == self@.len(),
    {
        self.segments.len()
    }

    /// Borrows the segment appended `i`-th, oldest first.
    pub fn segment(&self, i: usize) -> (r: &Vec<u8>)
        requires
            i < self@.len(),
        ensures
            r@ == self@[i as int],
    {
        let r = &self.segments[i];
        proof {
            assert(r@ =~~= self@[i as int]);
        }
        r
    }

    /// Appends one decoded segment after everything already queued.
    pub fn append(&mut self, seg: Vec<u8>)
        ensures
            final(self)@ == old(self)@.push(seg@),
    {
        let ghost pre = self.segments.deep_view();
        self.segments.push(seg);
        proof {
            assert(self.segments.deep_view() =~~= pre.push(seg@));
        }
    }
}

/// The audio the frames of one turn carry, in arrival order: one
/// segment for each well-formed audio frame, nothing for the rest.
pub open spec fn audio_segments(frames: Seq<Seq<char>>) -> Seq<Seq<u8>>
    decreases frames.len(),
{
    if frames.len() == 0 {
        Seq::empty()
    } else {
        audio_segments(frames.drop_last()) + match frame_audio(frames.last()) {
            Some(b) => seq![b],
            None => Seq::empty(),
        }
    }
}

pub proof fn lemma_audio_segments_push(frames: Seq<Seq<char>>, f: Seq<char>)
    ensures
        audio_segments(frames.push(f)) == audio_segments(frames) + match frame_audio(f) {
            Some(b) => seq![b],
            None => Seq::<Seq<u8>>::empty(),
        },
{
    assert(frames.push(f).drop_last() =~= frames);
}

fn duplicate(v: &Vec<u8>) -> (r: Vec<u8>)
    ensures
        r@ == v@,
{
    let mut r: Vec<u8> = Vec::new();
    let mut i: usize = 0;
    while i < v.len()
        invariant
            i <= v@.len(),
            r@ == v@.take(i as int),
        decreases v@.len() - i,
    {
        r.push(v[i]);
        proof {
            assert(v@.take(i + 1 as int) =~= v@.take(i as int).push(v@[i as int]));
        }
        i = i + 1;
    }
    proof {
        assert(v@.take(v@.len() as int) =~= v@);
    }
    r
}

/// One step of the playback consumer: decodes one inbound frame. A
/// well-formed audio frame has its segment appended to the record, in
/// arrival order, and handed back so the caller can feed the platform
/// sink; an unrecognized frame changes nothing; a fatal frame leaves
/// the record untouched and surfaces the failure, service diagnostics
/// intact.
pub fn consume_frame(queue: &mut PlaybackQueue, text: &str) -> (r: Result<
    Option<Vec<u8>>,
    PlaybackError,
>)
    ensures
        frame_fatal(text@) ==> (r matches Err(e) && fatal_matches(e, text@) && final(queue)@
            == old(queue)@),
        !frame_fatal(text@) ==> match frame_audio(text@) {
            Some(b) => r matches Ok(Some(v)) && v@ == b && final(queue)@ == old(queue)@.push(b),
            None => r matches Ok(o) && o is None && final(queue)@ == old(queue)@,
        },
{
    match parse_frame(text) {
        Ok(InboundFrame::AudioPayload(bytes)) => {
            let out = duplicate(&bytes);
            queue.append(bytes);
            Ok(Some(out))
        },
        Ok(InboundFrame::ServiceError(diag)) => Err(PlaybackError::Service(diag)),
        Ok(InboundFrame::Other) => Ok(None),
        Err(e) => Err(e),
    }
}

/// The whole inbound pass of one turn, over the frames the session
/// delivered in arrival order. On success every frame was benign and
/// the record grew by exactly the turn's audio segments, in arrival
/// order — the sink observes them as they arrived, never reordered,
/// never skipped. A fatal frame stops consumption at once: what came
/// before it is queued, nothing after it is looked at, and the
/// failure is surfaced with the service's diagnostic text intact.
pub fn consume_frames(queue: &mut PlaybackQueue, frames: &Vec<String>) -> (r: Result<
    (),
    PlaybackError,
>)
    ensures
        r is Ok ==> (forall|j: int|
            0 <= j < frames.deep_view().len() ==> !frame_fatal(frames.deep_view()[j]))
            && final(queue)@ == old(queue)@ + audio_segments(frames.deep_view()),
        r matches Err(e) ==> exists|i: int|
            {
                &&& 0 <= i < frames.deep_view().len()
                &&& #[trigger] frame_fatal(frames.deep_view()[i])
                &&& forall|j: int| 0 <= j < i ==> !frame_fatal(frames.deep_view()[j])
                &&& fatal_matches(e, frames.deep_view()[i])
                &&& final(queue)@ == old(queue)@ + audio_segments(frames.deep_view().take(i))
            },
{
    let ghost fv = frames.deep_view();
    let ghost start = queue@;
    let mut i: usize = 0;
    while i < frames.len()
        invariant
            i <= fv.len(),
            fv == frames.deep_view(),
            fv.len() == frames@.len(),
            start == old(queue)@,
            queue@ == start + audio_segments(fv.take(i as int)),
            forall|j: int| 0 <= j < i ==> !frame_fatal(fv[j]),
        decreases fv.len() - i,
    {
        let text = &frames[i];
        proof {
            assert(text@ == fv[i as int]);
            assert(fv.take(i + 1 as int) =~= fv.take(i as int).push(fv[i as int]));
            lemma_audio_segments_push(fv.take(i as int), fv[i as int]);
        }
        match consume_frame(queue, text.as_str()) {
            Ok(_) => {},
            Err(e) => {
                proof {
                    assert(frame_fatal(fv[i as int]));
                }
                return Err(e);
            },
        }
        i = i + 1;
    }
    proof {
        assert(fv.take(fv.len() as int) =~= fv);
    }
    Ok(())
}

} // verus!
