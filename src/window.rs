//! Analysis windows: the shapes, and the table of one weight per sample that
//! a shape and a length give.
//!
//! The table is generic over the weight type; the weight of each shape at
//! each position is computed by the caller's `coefficient` function, once per
//! position, and the rectangle is the caller's unit weight throughout.

use vstd::prelude::*;
use crate::params::ConfigError;

verus! {

/// The shape of an analysis window.
#[derive(Debug, Clone, Copy, PartialEq, Eq, Structural)]
pub enum FftWindowType {
    Rectangle,
    Cosine,
    Triangle,
    Hamming,
    Hann,
    Blackman,
    Nuttall,
    Flat,
}

/// The weights of one window, one per sample position.
pub struct FftWindow<T> {
    window_type: FftWindowType,
    window_func: Vec<T>,
}

impl<T> View for FftWindow<T> {
    type V = Seq<T>;

    closed spec fn view(&self) -> Seq<T> {
        self.window_func@
    }
}

impl<T: Copy> FftWindow<T> {
    /// The shape the weights were made for.
    pub closed spec fn shape(&self) -> FftWindowType {
        self.window_type
    }

    /// The weights of a window of shape `window_type` over `length` samples:
    /// `one` throughout for the rectangle, else `coefficient(window_type, n,
    /// length)` at position `n`. A window of fewer than two samples is
    /// refused, as the shapes divide by `length - 1`.
    pub fn new<F: Fn(FftWindowType, usize, usize) -> T>(
        length: usize,
        window_type: FftWindowType,
        one: T,
        coefficient: F,
    ) -> (r: Result<FftWindow<T>, ConfigError>)
        requires
            forall|n: usize| n < length ==> coefficient.requires((window_type, n, length)),
        ensures
            r is Err <==> length < 2,
            r matches Err(e) ==> e == ConfigError::DegenerateWindow,
            r matches Ok(w) ==> {
                &&& w@.len() == length
                &&& w.shape() == window_type
                &&& window_type == FftWindowType::Rectangle ==> forall|n: int|
                    0 <= n < length ==> #[trigger] w@[n] == one
                &&& window_type != FftWindowType::Rectangle ==> forall|n: int|
                    0 <= n < length ==> coefficient.ensures(
                        (window_type, n as usize, length),
                        #[trigger] w@[n],
                    )
            },
    {
        if length < 2 {
            return Err(ConfigError::DegenerateWindow);
        }
        let mut weights: Vec<T> = Vec::with_capacity(length);
        let mut n: usize = 0;
        while n < length
            invariant
                n <= length,
                weights@.len() == n,
                forall|n: usize| n < length ==> coefficient.requires((window_type, n, length)),
                window_type == FftWindowType::Rectangle ==> forall|i: int|
                    0 <= i < n ==> #[trigger] weights@[i] == one,
                window_type != FftWindowType::Rectangle ==> forall|i: int|
                    0 <= i < n ==> coefficient.ensures(
                        (window_type, i as usize, length),
                        #[trigger] weights@[i],
                    ),
            decreases length - n,
        {
            let w = match window_type {
                FftWindowType::Rectangle => one,
                _ => coefficient(window_type, n, length),
            };
            weights.push(w);
            n = n + 1;
        }
        Ok(FftWindow { window_type, window_func: weights })
    }

    /// The shape the weights were made for.
    pub fn window_type(&self) -> (r: FftWindowType)
        ensures
            r == self.shape(),
    {
        self.window_type
    }

    /// Samples the window spans.
    pub fn len(&self) -> (r: usize)
        ensures
            r == self@.len(),
    {
        self.window_func.len()
    }

    /// The weights, in sample order.
    pub fn weights(&self) -> (r: &Vec<T>)
        ensures
            r@ == self@,
    {
        &self.window_func
    }
}

} // verus!
