//! Outbound text accumulation: deltas from the generation stream are
//! gathered in a buffer and forwarded once enough word separators have
//! been seen, so the synthesis service receives prosodically useful
//! chunks without undue latency.

use vstd::prelude::*;

verus! {

/// Number of word separators in the buffer that triggers a flush.
pub const SEPARATOR_THRESHOLD: usize = 30;

/// The word separator, an ASCII space, in the UTF-8 text that the
/// generation stream produces.
pub const SEPARATOR: u8 = 32;

/// How many separator bytes a piece of text contains.
pub open spec fn sep_count(s: Seq<u8>) -> nat
    decreases s.len(),
{
    if s.len() == 0 {
        0
    } else {
        sep_count(s.drop_last()) + if s.last() == SEPARATOR {
            1nat
        } else {
            0nat
        }
    }
}

pub proof fn lemma_sep_count_push(s: Seq<u8>, b: u8)
    ensures
        sep_count(s.push(b)) == sep_count(s) + if b == SEPARATOR {
            1nat
        } else {
            0nat
        },
{
    assert(s.push(b).drop_last() =~= s);
}

pub proof fn lemma_sep_count_le_len(s: Seq<u8>)
    ensures
        sep_count(s) <= s.len(),
    decreases s.len(),
{
    if s.len() > 0 {
        lemma_sep_count_le_len(s.drop_last());
    }
}

/// Concatenation of a sequence of payloads, in order.
pub open spec fn concat_payloads(ps: Seq<Seq<u8>>) -> Seq<u8>
    decreases ps.len(),
{
    if ps.len() == 0 {
        Seq::empty()
    } else {
        concat_payloads(ps.drop_last()) + ps.last()
    }
}

pub proof fn lemma_concat_payloads_push(ps: Seq<Seq<u8>>, p: Seq<u8>)
    ensures
        concat_payloads(ps.push(p)) == concat_payloads(ps) + p,
{
    assert(ps.push(p).drop_last() =~= ps);
}

/// The mutable accumulation buffer of one synthesis turn, together
/// with the count of separators it holds. The count is kept in step
/// with the buffer so that the flush decision is a single comparison.
pub struct TextChunk {
    buf: Vec<u8>,
    seps: usize,
}

impl View for TextChunk {
    type V = Seq<u8>;

    closed spec fn view(&self) -> Seq<u8> {
        self.buf@
    }
}

impl TextChunk {
    /// The separator count always mirrors the buffer contents.
    pub closed spec fn wf(self) -> bool {
        self.seps == sep_count(self.buf@)
    }

    /// A fresh, empty buffer, as each turn starts with.
    pub fn new() -> (r: TextChunk)
        ensures
            r.wf(),
            r@ == Seq::<u8>::empty(),
    {
        TextChunk { buf: Vec::new(), seps: 0 }
    }

    /// How much text is currently buffered.
    pub fn len(&self) -> (r: usize)
        ensures
            r == self@.len(),
    {
        self.buf.len()
    }

    /// Hands the buffered text out and leaves the buffer empty, as a
    /// flush does.
    pub fn take(&mut self) -> (r: Vec<u8>)
        requires
            old(self).wf(),
        ensures
            final(self).wf(),
            final(self)@ == Seq::<u8>::empty(),
            r@ == old(self)@,
    {
        let mut out: Vec<u8> = Vec::new();
        core::mem::swap(&mut out, &mut self.buf);
        self.seps = 0;
        out
    }

    /// Appends one generation delta to the buffer. When the appended
    /// delta brings the separator count to the threshold or beyond,
    /// the whole accumulated text is flushed: it is returned and the
    /// buffer is reset to empty. Below the threshold nothing is
    /// flushed. The flush decision is taken once per delta, after the
    /// delta has been appended whole.
    pub fn push_delta(&mut self, delta: &[u8]) -> (r: Option<Vec<u8>>)
        requires
            old(self).wf(),
        ensures
            final(self).wf(),
            sep_count(old(self)@ + delta@) >= SEPARATOR_THRESHOLD ==> (r matches Some(p)
                && p@ == old(self)@ + delta@ && final(self)@ == Seq::<u8>::empty()),
            sep_count(old(self)@ + delta@) < SEPARATOR_THRESHOLD ==> r is None && final(self)@
                == old(self)@ + delta@,
    {
        let mut i: usize = 0;
        while i < delta.len()
            invariant
                i <= delta@.len(),
                self.wf(),
                self@ == old(self)@ + delta@.take(i as int),
            decreases delta@.len() - i,
        {
            let b = delta[i];
            proof {
                lemma_sep_count_push(self.buf@, b);
                lemma_sep_count_le_len(self.buf@);
            }
            self.buf.push(b);
            if b == SEPARATOR {
                proof {
                    assert(self.buf.len() == self.buf@.len());
                }
                self.seps = self.seps + 1;
            }
            proof {
                assert(old(self)@ + delta@.take(i + 1 as int) =~= (old(self)@ + delta@.take(
                    i as int,
                )).push(b));
            }
            i = i + 1;
        }
        proof {
            assert(delta@.take(delta@.len() as int) =~= delta@);
        }
        if self.seps >= SEPARATOR_THRESHOLD {
            Some(self.take())
        } else {
            None
        }
    }
}

/// The chunks the policy flushes while the deltas arrive, given what
/// is already buffered: each delta is appended whole, and the buffer
/// is forwarded exactly when it has reached the separator threshold.
pub open spec fn flushed_chunks(deltas: Seq<Seq<u8>>, buf: Seq<u8>) -> Seq<Seq<u8>>
    decreases deltas.len(),
{
    if deltas.len() == 0 {
        Seq::empty()
    } else {
        let nbuf = buf + deltas.first();
        if sep_count(nbuf) >= SEPARATOR_THRESHOLD {
            seq![nbuf] + flushed_chunks(deltas.drop_first(), Seq::empty())
        } else {
            flushed_chunks(deltas.drop_first(), nbuf)
        }
    }
}

/// What is still buffered once every delta has arrived.
pub open spec fn final_buffer(deltas: Seq<Seq<u8>>, buf: Seq<u8>) -> Seq<u8>
    decreases deltas.len(),
{
    if deltas.len() == 0 {
        buf
    } else {
        let nbuf = buf + deltas.first();
        if sep_count(nbuf) >= SEPARATOR_THRESHOLD {
            final_buffer(deltas.drop_first(), Seq::empty())
        } else {
            final_buffer(deltas.drop_first(), nbuf)
        }
    }
}

/// The exact outbound payloads of one turn: the flushed chunks in
/// generation order, then the remainder if the stream left one, then
/// the empty terminator.
pub open spec fn turn_payloads(deltas: Seq<Seq<u8>>) -> Seq<Seq<u8>> {
    let flushed = flushed_chunks(deltas, Seq::empty());
    let rest = final_buffer(deltas, Seq::empty());
    if rest.len() > 0 {
        flushed + seq![rest] + seq![Seq::<u8>::empty()]
    } else {
        flushed + seq![Seq::<u8>::empty()]
    }
}

/// The whole chunking pass of one turn: every delta is accumulated and
/// forwarded in generation order, a non-empty remainder is flushed when
/// the stream ends, and one empty terminator payload closes the turn.
///
/// The first clause pins the result to the policy exactly; the rest
/// carry the turn's outbound guarantees in their own words: the
/// payloads concatenate to exactly the concatenated input deltas, with
/// nothing dropped, duplicated or reordered; the terminator is the
/// last payload and, being the only empty one, is sent exactly once.
pub fn chunk_turn(deltas: &Vec<Vec<u8>>) -> (r: Vec<Vec<u8>>)
    ensures
        r.deep_view() == turn_payloads(deltas.deep_view()),
        r.deep_view().len() >= 1,
        r.deep_view().last() == Seq::<u8>::empty(),
        forall|j: int| 0 <= j < r.deep_view().len() - 1 ==> r.deep_view()[j].len() > 0,
        concat_payloads(r.deep_view()) == concat_payloads(deltas.deep_view()),
{
    let ghost dv = deltas.deep_view();
    let mut chunk = TextChunk::new();
    let mut out: Vec<Vec<u8>> = Vec::new();
    let mut i: usize = 0;
    proof {
        assert(dv.skip(0) =~= dv);
        assert(Seq::<Seq<u8>>::empty() + flushed_chunks(dv, Seq::<u8>::empty()) =~= flushed_chunks(
            dv,
            Seq::<u8>::empty(),
        ));
        assert(out.deep_view() =~~= Seq::<Seq<u8>>::empty());
    }
    while i < deltas.len()
        invariant
            i <= dv.len(),
            dv == deltas.deep_view(),
            dv.len() == deltas@.len(),
            chunk.wf(),
            concat_payloads(out.deep_view()) + chunk@ == concat_payloads(dv.take(i as int)),
            flushed_chunks(dv, Seq::<u8>::empty()) == out.deep_view() + flushed_chunks(
                dv.skip(i as int),
                chunk@,
            ),
            final_buffer(dv, Seq::<u8>::empty()) == final_buffer(dv.skip(i as int), chunk@),
            forall|j: int| 0 <= j < out.deep_view().len() ==> out.deep_view()[j].len() > 0,
        decreases dv.len() - i,
    {
        let ghost out_dv = out.deep_view();
        let ghost buffered = chunk@;
        let delta = &deltas[i];
        proof {
            assert(delta@ == dv[i as int]);
            assert(dv.take(i + 1 as int) =~= dv.take(i as int).push(dv[i as int]));
            lemma_concat_payloads_push(dv.take(i as int), dv[i as int]);
            assert(dv.skip(i as int).first() == dv[i as int]);
            assert(dv.skip(i as int).drop_first() =~= dv.skip(i + 1 as int));
        }
        match chunk.push_delta(delta.as_slice()) {
            Some(p) => {
                proof {
                    lemma_sep_count_le_len(p@);
                }
                out.push(p);
                proof {
                    assert(out.deep_view() =~~= out_dv.push(buffered + dv[i as int]));
                    lemma_concat_payloads_push(out_dv, buffered + dv[i as int]);
                    assert(out_dv + (seq![buffered + dv[i as int]] + flushed_chunks(
                        dv.skip(i + 1 as int),
                        Seq::<u8>::empty(),
                    )) =~= out.deep_view() + flushed_chunks(
                        dv.skip(i + 1 as int),
                        Seq::<u8>::empty(),
                    ));
                }
            },
            None => {},
        }
        i = i + 1;
    }
    proof {
        assert(dv.take(dv.len() as int) =~= dv);
        assert(dv.skip(dv.len() as int) =~= Seq::<Seq<u8>>::empty());
        assert(out.deep_view() + Seq::<Seq<u8>>::empty() =~= out.deep_view());
    }
    if chunk.len() > 0 {
        let ghost out_dv = out.deep_view();
        let ghost buffered = chunk@;
        let p = chunk.take();
        out.push(p);
        proof {
            assert(out.deep_view() =~~= out_dv.push(buffered));
            lemma_concat_payloads_push(out_dv, buffered);
        }
    }
    let ghost out_dv = out.deep_view();
    out.push(Vec::new());
    proof {
        assert(out.deep_view() =~~= out_dv.push(Seq::<u8>::empty()));
        lemma_concat_payloads_push(out_dv, Seq::<u8>::empty());
        assert(concat_payloads(out.deep_view()) =~= concat_payloads(out_dv));
        assert(out.deep_view() =~~= turn_payloads(dv));
    }
    out
}

} // verus!
