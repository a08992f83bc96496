use vstd::prelude::*;
use crate::bytes::{LF, views};
use crate::window::{Window, window_bytes, pushed, window_new, window_push, window_len, window_at, window_clear};

verus! {

/// Whether a buffer ends a response: at least three bytes, the last one a
/// line feed, and one of the two before it a line feed too.
pub open spec fn completes(b: Seq<u8>) -> bool {
    &&& b.len() >= 3
    &&& (b[b.len() - 3] == LF || b[b.len() - 2] == LF)
    &&& b[b.len() - 1] == LF
}

/// The responses framed out of `s` and the bytes still pending after it.
pub open spec fn feed(s: Seq<u8>) -> (Seq<Seq<u8>>, Seq<u8>)
    decreases s.len(),
{
    if s.len() == 0 {
        (Seq::empty(), Seq::empty())
    } else {
        let (out, pending) = feed(s.drop_last());
        let next = pending.push(s.last());
        if completes(next) {
            (out.push(next), Seq::empty())
        } else {
            (out, next)
        }
    }
}

/// The last three bytes of `b`, or all of them if fewer.
pub open spec fn last_three(b: Seq<u8>) -> Seq<u8> {
    if b.len() < 3 {
        b
    } else {
        b.subrange(b.len() - 3, b.len() as int)
    }
}

/// The bytes of `xs` laid end to end.
pub open spec fn concat(xs: Seq<Seq<u8>>) -> Seq<u8>
    decreases xs.len(),
{
    if xs.len() == 0 {
        Seq::empty()
    } else {
        concat(xs.drop_last()) + xs.last()
    }
}

/// Whether `b` ends with a terminator and holds none before its end.
pub open spec fn is_frame(b: Seq<u8>) -> bool {
    &&& completes(b)
    &&& forall|k: int| 0 < k < b.len() ==> !completes(#[trigger] b.subrange(0, k))
}

/// Whether no prefix of `b` ends with a terminator.
pub open spec fn unterminated(b: Seq<u8>) -> bool {
    forall|k: int| 0 < k <= b.len() ==> !completes(#[trigger] b.subrange(0, k))
}

/// Framing loses and invents nothing: the responses emitted for a stream,
/// followed by the pending bytes, are the stream itself; each response runs
/// from just after the previous terminator up to and including the first
/// terminator after it; and the pending bytes hold no terminator.
pub proof fn lemma_framing_partitions(s: Seq<u8>)
    ensures
        concat(feed(s).0) + feed(s).1 == s,
        forall|i: int| 0 <= i < feed(s).0.len() ==> is_frame(#[trigger] feed(s).0[i]),
        unterminated(feed(s).1),
    decreases s.len(),
{
    if s.len() == 0 {
        assert(concat(feed(s).0) + feed(s).1 =~= s);
    } else {
        let t = s.drop_last();
        lemma_framing_partitions(t);
        let (out, p) = feed(t);
        let next = p.push(s.last());
        assert(s =~= t.push(s.last()));
        assert(concat(out) + next =~= (concat(out) + p).push(s.last()));
        assert forall|k: int| 0 < k <= p.len() implies #[trigger] next.subrange(0, k)
            == p.subrange(0, k) by {
            assert(next.subrange(0, k) =~= p.subrange(0, k));
        }
        assert(next.subrange(0, next.len() as int) =~= next);
        if completes(next) {
            assert(concat(out.push(next)) == concat(out) + next) by {
                assert(out.push(next).drop_last() =~= out);
            }
            assert(feed(s) == (out.push(next), Seq::<u8>::empty()));
            assert(concat(feed(s).0) + feed(s).1 =~= s);
            assert forall|i: int| 0 <= i < feed(s).0.len() implies is_frame(
                #[trigger] feed(s).0[i],
            ) by {
                if i < out.len() {
                    assert(feed(s).0[i] == out[i]);
                }
            }
        } else {
            assert(feed(s) == (out, next));
            assert(concat(feed(s).0) + feed(s).1 =~= s);
        }
    }
}

/// Rebuilds engine responses from the engine's output, one byte at a time.
pub struct Framer {
    buffer: Vec<u8>,
    window: Window,
}

impl Framer {
    /// The bytes read since the last response was emitted.
    pub closed spec fn pending(&self) -> Seq<u8> {
        self.buffer@
    }

    pub closed spec fn wf(&self) -> bool {
        window_bytes(self.window) == last_three(self.buffer@)
    }

    /// A framer that has read nothing.
    pub fn new() -> (r: Framer)
        ensures
            r.wf(),
            r.pending() == Seq::<u8>::empty(),
    {
        let r = Framer { buffer: Vec::new(), window: window_new() };
        assert(r.buffer@ =~= Seq::<u8>::empty());
        r
    }

    /// Takes in one byte; returns the response it completes, if any.
    pub fn push(&mut self, b: u8) -> (r: Option<Vec<u8>>)
        requires
            old(self).wf(),
        ensures
            final(self).wf(),
            completes(old(self).pending().push(b)) ==> r is Some && r->0@ == old(self).pending().push(b)
                && final(self).pending() == Seq::<u8>::empty(),
            !completes(old(self).pending().push(b)) ==> r is None && final(self).pending() == old(
                self,
            ).pending().push(b),
    {
        let ghost prev = self.buffer@;
        self.buffer.push(b);
        window_push(&mut self.window, b);
        proof {
            assert(last_three(self.buffer@) =~= pushed(last_three(prev), b));
        }
        if window_len(&self.window) == 3 && (window_at(&self.window, 0) == LF || window_at(
            &self.window,
            1,
        ) == LF) && window_at(&self.window, 2) == LF {
            let mut out: Vec<u8> = Vec::new();
            std::mem::swap(&mut out, &mut self.buffer);
            window_clear(&mut self.window);
            proof {
                assert(last_three(self.buffer@) =~= Seq::<u8>::empty());
            }
            Some(out)
        } else {
            None
        }
    }
}

/// Frames a whole byte stream; returns the completed responses in order.
pub fn frame_all(stream: &[u8]) -> (r: Vec<Vec<u8>>)
    ensures
        views(r@) == feed(stream@).0,
{
    let mut framer = Framer::new();
    let mut out: Vec<Vec<u8>> = Vec::new();
    let mut i: usize = 0;
    while i < stream.len()
        invariant
            i <= stream@.len(),
            framer.wf(),
            (views(out@), framer.pending()) == feed(stream@.subrange(0, i as int)),
        decreases stream@.len() - i,
    {
        assert(stream@.subrange(0, i + 1).drop_last() =~= stream@.subrange(0, i as int));
        let ghost prev = out@;
        match framer.push(stream[i]) {
            Some(resp) => {
                out.push(resp);
                assert(views(out@) =~= views(prev).push(resp@));
            },
            None => {},
        }
        i = i + 1;
    }
    assert(stream@.subrange(0, i as int) =~= stream@);
    out
}

} // verus!
