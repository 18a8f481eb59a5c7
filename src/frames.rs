//! Shaping a completed window into a transform input and its output into a
//! spectral frame, and the store through which frames reach the renderer.
//!
//! Generic over the value type: the arithmetic on values is the caller's.

use vstd::prelude::*;

verus! {

/// `window` followed by `zero` up to length `len`; `window` itself where it
/// is not shorter than `len`.
pub open spec fn padded<T>(window: Seq<T>, len: nat, zero: T) -> Seq<T> {
    if window.len() < len {
        window + Seq::new((len - window.len()) as nat, |i: int| zero)
    } else {
        window
    }
}

/// Pads a window with `zero` up to the transform length `len`.
pub fn pad_to<T: Copy>(window: Vec<T>, len: usize, zero: T) -> (r: Vec<T>)
    ensures
        r@ == padded(window@, len as nat, zero),
{
    let ghost start = window@;
    let mut out = window;
    while out.len() < len
        invariant
            start.len() <= out@.len(),
            out@.len() > start.len() ==> out@.len() <= len,
            out@ == start + Seq::new((out@.len() - start.len()) as nat, |i: int| zero),
        decreases len - out@.len(),
    {
        out.push(zero);
        assert(out@ =~= start + Seq::new((out@.len() - start.len()) as nat, |i: int| zero));
    }
    assert(start.len() >= len ==> out@ =~= start);
    out
}

/// Keeps the lower half of a transform output, the bins below half the
/// sample rate; the mirrored upper half is dropped.
pub fn lower_half<T>(spectrum: Vec<T>) -> (r: Vec<T>)
    ensures
        r@ == spectrum@.take(spectrum@.len() as int / 2),
{
    let mut out = spectrum;
    let half = out.len() / 2;
    out.truncate(half);
    out
}

/// Completed spectral frames waiting for the renderer, oldest first.
pub struct FrameStore<T> {
    frames: Vec<Vec<T>>,
}

impl<T> View for FrameStore<T> {
    type V = Seq<Seq<T>>;

    closed spec fn view(&self) -> Seq<Seq<T>> {
        self.frames@.map_values(|f: Vec<T>| f@)
    }
}

impl<T> FrameStore<T> {
    /// An empty store.
    pub fn new() -> (r: FrameStore<T>)
        ensures
            r@ == Seq::<Seq<T>>::empty(),
    {
        let r = FrameStore { frames: Vec::new() };
        assert(r@ =~= Seq::<Seq<T>>::empty());
        r
    }

    /// Frames waiting.
    pub fn len(&self) -> (r: usize)
        ensures
            r == self@.len(),
    {
        self.frames.len()
    }

    /// Adds a frame after those already waiting.
    pub fn append(&mut self, frame: Vec<T>)
        ensures
            final(self)@ == old(self)@.push(frame@),
    {
        self.frames.push(frame);
        assert(final(self)@ =~= old(self)@.push(frame@));
    }

    /// Hands out every waiting frame, oldest first, and leaves the store
    /// empty.
    pub fn drain(&mut self) -> (r: Vec<Vec<T>>)
        ensures
            r@.map_values(|f: Vec<T>| f@) == old(self)@,
            final(self)@ == Seq::<Seq<T>>::empty(),
    {
        let mut out: Vec<Vec<T>> = Vec::new();
        std::mem::swap(&mut self.frames, &mut out);
        assert(self@ =~= Seq::<Seq<T>>::empty());
        out
    }
}

} // verus!
