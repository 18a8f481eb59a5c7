//! The sliding buffer of the transform stage: samples come in one at a time,
//! and each time a full window has gathered it is handed out and all but its
//! trailing overlap is dropped.
//!
//! The buffer is generic over the sample type: what it decides depends on
//! positions alone, never on sample values.

use vstd::prelude::*;

verus! {

/// One sample arrives in a buffer `buf` of windows of `w` samples that
/// overlap by `o`: the new buffer, and the window completed, if any.
pub open spec fn advance<T>(buf: Seq<T>, s: T, w: nat, o: nat) -> (Seq<T>, Option<Seq<T>>) {
    let b = buf.push(s);
    if b.len() >= w {
        (b.subrange(w - o, b.len() as int), Some(b.subrange(0, w as int)))
    } else {
        (b, None)
    }
}

/// The samples of `input` arrive in order in `buf`: the final buffer, and
/// the windows completed, oldest first.
pub open spec fn feed<T>(buf: Seq<T>, input: Seq<T>, w: nat, o: nat) -> (Seq<T>, Seq<Seq<T>>)
    decreases input.len(),
{
    if input.len() == 0 {
        (buf, Seq::empty())
    } else {
        let before = feed(buf, input.drop_last(), w, o);
        let after = advance(before.0, input.last(), w, o);
        (
            after.0,
            match after.1 {
                Some(f) => before.1.push(f),
                None => before.1,
            },
        )
    }
}

/// The contents of a list of windows.
pub open spec fn frames_view<T>(frames: Seq<Vec<T>>) -> Seq<Seq<T>> {
    frames.map_values(|f: Vec<T>| f@)
}

/// From a buffer that holds less than a window, feeding keeps it below a
/// window, and where the last sample completed a window, exactly the overlap
/// is left.
pub proof fn lemma_feed_keeps_overlap<T>(buf: Seq<T>, input: Seq<T>, w: nat, o: nat)
    requires
        o < w,
        buf.len() < w,
    ensures
        feed(buf, input, w, o).0.len() < w,
        input.len() > 0 && feed(buf, input, w, o).1.len() > feed(buf, input.drop_last(), w, o).1.len()
            ==> feed(buf, input, w, o).0.len() == o,
    decreases input.len(),
{
    if input.len() > 0 {
        lemma_feed_keeps_overlap(buf, input.drop_last(), w, o);
    }
}

/// Right after a completed window, feeding fewer than a shift of samples
/// completes no window, and feeding exactly a shift completes exactly one:
/// the overlap followed by the new samples.
pub proof fn lemma_one_frame_per_shift<T>(buf: Seq<T>, input: Seq<T>, w: nat, o: nat)
    requires
        o < w,
        buf.len() == o,
        input.len() <= w - o,
    ensures
        input.len() < w - o ==> feed(buf, input, w, o) == (buf + input, Seq::<Seq<T>>::empty()),
        input.len() == w - o ==> feed(buf, input, w, o).1 == seq![buf + input],
        input.len() == w - o ==> feed(buf, input, w, o).0.len() == o,
    decreases input.len(),
{
    if input.len() > 0 {
        lemma_one_frame_per_shift(buf, input.drop_last(), w, o);
        assert((buf + input.drop_last()).push(input.last()) =~= buf + input);
        if input.len() == w - o {
            assert((buf + input).subrange(0, w as int) =~= buf + input);
            assert(Seq::<Seq<T>>::empty().push(buf + input) =~= seq![buf + input]);
        }
    }
}

/// Feeding one run of samples and then another is feeding both in one go:
/// nothing but the buffer carries over from one run to the next.
pub proof fn lemma_feed_split<T>(buf: Seq<T>, a: Seq<T>, b: Seq<T>, w: nat, o: nat)
    ensures
        feed(buf, a + b, w, o) == (
            feed(feed(buf, a, w, o).0, b, w, o).0,
            feed(buf, a, w, o).1 + feed(feed(buf, a, w, o).0, b, w, o).1,
        ),
    decreases b.len(),
{
    if b.len() == 0 {
        assert(a + b =~= a);
        assert(feed(buf, a, w, o).1 + Seq::<Seq<T>>::empty() =~= feed(buf, a, w, o).1);
    } else {
        lemma_feed_split(buf, a, b.drop_last(), w, o);
        assert((a + b).drop_last() =~= a + b.drop_last());
        assert((a + b).last() == b.last());
        let first = feed(buf, a, w, o).1;
        let rest = feed(feed(buf, a, w, o).0, b.drop_last(), w, o).1;
        let mid = feed(feed(buf, a, w, o).0, b.drop_last(), w, o).0;
        match advance(mid, b.last(), w, o).1 {
            Some(f) => {
                assert((first + rest).push(f) =~= first + rest.push(f));
            },
            None => {},
        }
    }
}

/// Fed to an empty buffer, a stream `s` yields as its `j`-th window the
/// samples `j * shift .. j * shift + w` of the stream, and keeps the samples
/// from the last shift on, at least the overlap once a window has completed.
pub proof fn lemma_frames_of_stream<T>(s: Seq<T>, w: nat, o: nat)
    requires
        o < w,
    ensures
        ({
            let (rest, frames) = feed(Seq::<T>::empty(), s, w, o);
            &&& frames.len() * (w - o) <= s.len()
            &&& rest == s.subrange(frames.len() * (w - o), s.len() as int)
            &&& rest.len() < w
            &&& frames.len() > 0 ==> rest.len() >= o
            &&& forall|j: int|
                0 <= j < frames.len() ==> #[trigger] frames[j] == s.subrange(
                    j * (w - o),
                    j * (w - o) + w,
                )
        }),
    decreases s.len(),
{
    let shift = (w - o) as int;
    if s.len() == 0 {
        assert(s.subrange(0, 0) =~= Seq::<T>::empty());
    } else {
        lemma_frames_of_stream(s.drop_last(), w, o);
        let before = feed(Seq::<T>::empty(), s.drop_last(), w, o);
        let m = before.1.len() as int;
        let n = s.len() as int;
        let b = before.0.push(s.last());
        assert(b =~= s.subrange(m * shift, n));
        assert forall|j: int| 0 <= j < m implies #[trigger] before.1[j] == s.subrange(
            j * shift,
            j * shift + w,
        ) by {
            assert(j * shift <= (m - 1) * shift) by (nonlinear_arith)
                requires
                    j <= m - 1,
                    shift > 0,
            ;
            assert((m - 1) * shift == m * shift - shift) by (nonlinear_arith);
            assert(s.drop_last().subrange(j * shift, j * shift + w) =~= s.subrange(
                j * shift,
                j * shift + w,
            ));
        }
        if b.len() >= w {
            assert((m + 1) * shift == m * shift + shift) by (nonlinear_arith);
            assert(b.subrange(shift, b.len() as int) =~= s.subrange((m + 1) * shift, n));
            assert(b.subrange(0, w as int) =~= s.subrange(m * shift, m * shift + w));
            let after = before.1.push(b.subrange(0, w as int));
            assert forall|j: int| 0 <= j < after.len() implies #[trigger] after[j] == s.subrange(
                j * shift,
                j * shift + w,
            ) by {
                if j < m {
                    assert(after[j] == before.1[j]);
                }
            }
        }
    }
}

/// Samples gathered towards the next analysis window.
pub struct SlidingBuffer<T> {
    samples: Vec<T>,
    window_size: usize,
    overlap_samples: usize,
}

impl<T> View for SlidingBuffer<T> {
    type V = Seq<T>;

    closed spec fn view(&self) -> Seq<T> {
        self.samples@
    }
}

impl<T: Copy> SlidingBuffer<T> {
    /// Samples in one window.
    pub closed spec fn window_len(&self) -> nat {
        self.window_size as nat
    }

    /// Samples that one window shares with the next.
    pub closed spec fn overlap_len(&self) -> nat {
        self.overlap_samples as nat
    }

    /// The overlap is shorter than a window, and the buffer holds less than
    /// a window.
    pub closed spec fn wf(&self) -> bool {
        &&& self.overlap_samples < self.window_size
        &&& self.samples@.len() < self.window_size
    }

    /// An empty buffer for windows of `window_size` samples that overlap by
    /// `overlap_samples`; `None` where the overlap is not shorter than the
    /// window.
    pub fn new(window_size: usize, overlap_samples: usize) -> (r: Option<SlidingBuffer<T>>)
        ensures
            r is Some <==> overlap_samples < window_size,
            r matches Some(b) ==> {
                &&& b.wf()
                &&& b@ == Seq::<T>::empty()
                &&& b.window_len() == window_size
                &&& b.overlap_len() == overlap_samples
            },
    {
        if overlap_samples < window_size {
            Some(SlidingBuffer { samples: Vec::new(), window_size, overlap_samples })
        } else {
            None
        }
    }

    /// Samples in one window.
    pub fn window_size(&self) -> (r: usize)
        ensures
            r == self.window_len(),
    {
        self.window_size
    }

    /// Samples that one window shares with the next.
    pub fn overlap_samples(&self) -> (r: usize)
        ensures
            r == self.overlap_len(),
    {
        self.overlap_samples
    }

    /// Samples by which one window advances over the previous one.
    pub fn shift_size(&self) -> (r: usize)
        requires
            self.wf(),
        ensures
            r == self.window_len() - self.overlap_len(),
    {
        self.window_size - self.overlap_samples
    }

    /// Samples gathered so far.
    pub fn len(&self) -> (r: usize)
        ensures
            r == self@.len(),
    {
        self.samples.len()
    }

    /// Appends one sample. Where that completes a window, returns it and
    /// keeps only the window's trailing overlap.
    pub fn push(&mut self, s: T) -> (r: Option<Vec<T>>)
        requires
            old(self).wf(),
        ensures
            final(self).wf(),
            final(self).window_len() == old(self).window_len(),
            final(self).overlap_len() == old(self).overlap_len(),
            final(self)@ == advance(
                old(self)@,
                s,
                old(self).window_len(),
                old(self).overlap_len(),
            ).0,
            r matches Some(f) ==> advance(
                old(self)@,
                s,
                old(self).window_len(),
                old(self).overlap_len(),
            ).1 == Some(f@),
            r is None ==> advance(
                old(self)@,
                s,
                old(self).window_len(),
                old(self).overlap_len(),
            ).1 is None,
            r is Some ==> final(self)@.len() == final(self).overlap_len(),
            r is Some <==> old(self)@.len() + 1 == old(self).window_len(),
    {
        self.samples.push(s);
        if self.samples.len() >= self.window_size {
            let shift = self.window_size - self.overlap_samples;
            let mut tail: Vec<T> = Vec::with_capacity(self.overlap_samples);
            let mut i: usize = shift;
            while i < self.samples.len()
                invariant
                    shift <= i <= self.samples@.len(),
                    tail@ == self.samples@.subrange(shift as int, i as int),
                decreases self.samples@.len() - i,
            {
                tail.push(self.samples[i]);
                i = i + 1;
            }
            let mut window = tail;
            std::mem::swap(&mut self.samples, &mut window);
            assert(window@ =~= window@.subrange(0, self.window_size as int));
            Some(window)
        } else {
            None
        }
    }

    /// Appends the samples of one packet in order, and returns the windows
    /// that they complete, oldest first.
    pub fn push_packet(&mut self, packet: &Vec<T>) -> (r: Vec<Vec<T>>)
        requires
            old(self).wf(),
        ensures
            final(self).wf(),
            final(self).window_len() == old(self).window_len(),
            final(self).overlap_len() == old(self).overlap_len(),
            (final(self)@, frames_view(r@)) == feed(
                old(self)@,
                packet@,
                old(self).window_len(),
                old(self).overlap_len(),
            ),
    {
        let ghost w = self.window_len();
        let ghost o = self.overlap_len();
        let ghost start = self@;
        let mut frames: Vec<Vec<T>> = Vec::new();
        let mut i: usize = 0;
        while i < packet.len()
            invariant
                self.wf(),
                self.window_len() == w,
                self.overlap_len() == o,
                0 <= i <= packet@.len(),
                (self@, frames_view(frames@)) == feed(start, packet@.take(i as int), w, o),
            decreases packet@.len() - i,
        {
            proof {
                assert(packet@.take(i as int + 1).drop_last() =~= packet@.take(i as int));
            }
            let ghost before = frames@;
            match self.push(packet[i]) {
                Some(f) => {
                    frames.push(f);
                    assert(frames_view(frames@) =~= frames_view(before).push(f@));
                },
                None => {},
            }
            i = i + 1;
        }
        assert(packet@.take(i as int) =~= packet@);
        frames
    }

    /// Drops the samples gathered so far.
    pub fn clear(&mut self)
        requires
            old(self).wf(),
        ensures
            final(self).wf(),
            final(self).window_len() == old(self).window_len(),
            final(self).overlap_len() == old(self).overlap_len(),
            final(self)@ == Seq::<T>::empty(),
    {
        self.samples.clear();
    }
}

} // verus!
