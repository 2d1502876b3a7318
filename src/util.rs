use vstd::prelude::*;
use vstd::pervasive::cloned;

verus! {

/// Nanoseconds in one minute.
pub const NS_PER_MINUTE: u128 = 60_000_000_000;

/// The length of one beat at `bpm` beats per minute, in nanoseconds.
pub open spec fn period_ns(bpm: int) -> int {
    NS_PER_MINUTE as int / bpm
}

/// Converts a tempo in beats per minute into the beat period in nanoseconds.
pub fn bpm_to_ns(bpm: u128) -> (r: u128)
    requires
        bpm > 0,
    ensures
        r == period_ns(bpm as int),
{
    NS_PER_MINUTE / bpm
}

/// Holds a value and hands out copies of it, made with its `Clone`.
#[derive(Debug)]
pub struct SyncWrapper<T> {
    inner: T,
}

impl<T: Clone> SyncWrapper<T> {
    /// The value held.
    pub closed spec fn value(&self) -> T {
        self.inner
    }

    pub fn get(&self) -> (r: T)
        ensures
            cloned(self.value(), r),
    {
        self.inner.clone()
    }

    pub fn new(inner: &T) -> (r: SyncWrapper<T>)
        ensures
            cloned(*inner, r.value()),
    {
        SyncWrapper { inner: inner.clone() }
    }
}

} // verus!
