//! Core of a weak-signal audio spectrogram: the parameters that one
//! configuration snapshot gives the analysis, the sliding window that turns a
//! stream of samples into overlapping analysis windows, the hand-off of
//! finished spectra to a renderer, and the decisions of the worker stages.

pub mod params;
pub mod sliding;
pub mod frames;
pub mod control;
pub mod window;
pub mod settings;
