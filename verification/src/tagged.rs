//! A value that travels with a tag; with an atomic flag as the tag, a
//! channel end that carries the switch of its channel.

use std::sync::atomic::AtomicBool;
use std::sync::Arc;
use vstd::prelude::*;

verus! {

/// A value and a tag that goes wherever the value goes.
#[derive(Debug, Clone)]
pub struct Tagged<I, T> {
    pub inner: I,
    pub tag: T,
}

impl<I> Tagged<I, Arc<AtomicBool>> {
    /// The switch that this end shares with the other end of its channel.
    pub fn switch(&self) -> (s: &Arc<AtomicBool>)
        ensures
            *s == self.tag,
    {
        &self.tag
    }

    /// Reads the switch. Any holder of the switch may flip it at any time,
    /// so nothing is known of the answer.
    pub fn is_on(&self) -> (on: bool) {
        self.tag.load(std::sync::atomic::Ordering::Relaxed)
    }

    /// Sets the switch for every holder.
    pub fn set(&self, on: bool) {
        self.tag.store(on, std::sync::atomic::Ordering::Relaxed);
    }
}

} // verus!
