//! The count of sound players running at once, held below a limit.
use std::sync::atomic::{AtomicUsize, Ordering};
use std::sync::Arc;

use vstd::prelude::*;

verus! {

/// At most this many sounds play at once.
pub const MAX_AUDIO_THREADS: usize = 8;

/// `Clone::clone` of an `Arc`: another pointer to the same allocation, so the
/// handle it gives is the one it was given.
#[verifier::external_body]
fn share_counter(counter: &Arc<AtomicUsize>) -> (r: Arc<AtomicUsize>)
    ensures
        r == *counter,
{
    Arc::clone(counter)
}

/// The count after taking one more slot below `max`, or none where `current`
/// has reached `max`.
pub fn next_slot(current: usize, max: usize) -> (r: Option<usize>)
    ensures
        current < max ==> r == Some((current + 1) as usize),
        current >= max ==> r is None,
{
    if current < max {
        Some(current + 1)
    } else {
        None
    }
}

/// `std::sync::atomic::AtomicUsize::fetch_update` with `next_slot`: `Ok` with
/// the count before where it was below `max` and was raised by one, `Err` with
/// the count where it had reached `max` and was left alone. Which count it
/// meets depends on the other threads and is not stated.
#[verifier::external_body]
fn fetch_increment_below(counter: &AtomicUsize, max: usize) -> (r: Result<usize, usize>)
    ensures
        r matches Ok(prev) ==> prev < max,
        r matches Err(prev) ==> prev >= max,
{
    counter.fetch_update(Ordering::AcqRel, Ordering::Acquire, |current| next_slot(current, max))
}

/// Plays sounds on threads of their own, at most `MAX_AUDIO_THREADS` at once.
#[derive(Debug)]
pub struct AudioPlayer {
    active_threads: Arc<AtomicUsize>,
}

impl AudioPlayer {
    /// A player with no sound playing.
    pub fn new() -> (r: AudioPlayer) {
        AudioPlayer { active_threads: Arc::new(AtomicUsize::new(0)) }
    }

    /// Another handle on the same player, sharing its count of running sounds.
    pub fn share(&self) -> (r: AudioPlayer)
        ensures
            r == *self,
    {
        AudioPlayer { active_threads: share_counter(&self.active_threads) }
    }

    /// Takes a slot for one more sound where fewer than `MAX_AUDIO_THREADS`
    /// play: `Ok` with the count of running sounds it met, which was below the
    /// limit and has been raised by one, or `Err` with the count it met, which
    /// had reached the limit and was left alone. Which count it meets depends
    /// on the sounds playing on other threads.
    pub fn acquire_thread_slot(&self) -> (r: Result<usize, usize>)
        ensures
            r matches Ok(p) ==> p < MAX_AUDIO_THREADS,
            r matches Err(p) ==> p >= MAX_AUDIO_THREADS,
    {
        let counter: &AtomicUsize = &self.active_threads;
        fetch_increment_below(counter, MAX_AUDIO_THREADS)
    }

    /// Gives back the slot of a sound that has finished.
    pub fn release_thread_slot(&self) {
        let counter: &AtomicUsize = &self.active_threads;
        counter.fetch_sub(1, Ordering::AcqRel);
    }
}

} // verus!
