//! Audio device descriptions. Synthesis itself is a stub in this machine;
//! only the device parameters are modelled.

use vstd::prelude::*;
use std::marker::PhantomData;

verus! {

/// Audio device: sample rate and channel layout.
pub trait Audio {
    /// Return the samples per second of the device.
    fn sample_rate() -> u64;

    /// Returns true if the channel is single-channel.
    fn mono() -> bool;
}

/// 44100Hz, stereo.
pub struct Stereo44100<T>(pub PhantomData<T>);

/// 44100Hz, mono.
pub struct Mono44100<T>(pub PhantomData<T>);

impl<T> Audio for Stereo44100<T> {
    fn sample_rate() -> u64 {
        44100
    }

    fn mono() -> bool {
        false
    }
}

impl<T> Audio for Mono44100<T> {
    fn sample_rate() -> u64 {
        44100
    }

    /// Reports two channels despite its name; hosts treat it like the
    /// stereo device.
    fn mono() -> bool {
        false
    }
}

impl Audio for () {
    fn sample_rate() -> u64 {
        4
    }

    fn mono() -> bool {
        true
    }
}

} // verus!
