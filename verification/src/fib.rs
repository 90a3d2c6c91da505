//! A Fibonacci stepper: a pair of consecutive Fibonacci numbers that can be
//! advanced one step at a time, refusing the step (and leaving the pair
//! unchanged) once the next advance could run past `u64::MAX`.

use vstd::prelude::*;

verus! {

/// Holds a pair of consecutive Fibonacci numbers; `current` is the value most
/// recently produced and `next` the one that an advance would produce.
#[derive(Clone, Copy, Debug, PartialEq, Eq, Structural)]
pub struct Fibonacci {
    pub current: u64,
    pub next: u64,
}

impl Fibonacci {
    /// The starting pair, from which the advances produce 1, 1, 2, 3, 5, ...
    pub fn new() -> (r: Self)
        ensures
            r.current == 0,
            r.next == 1,
    {
        Fibonacci { current: 0, next: 1 }
    }

    /// Advance one step: produce the next Fibonacci number and shift the pair,
    /// unless the guard `2 * current + next <= u64::MAX` fails, in which case
    /// the pair is left unchanged and nothing is produced.
    pub fn next(&mut self) -> (r: Option<u64>)
        ensures
            2 * (old(self).current as int) + (old(self).next as int) <= u64::MAX as int ==> {
                &&& r == Some(old(self).next)
                &&& final(self).current == old(self).next
                &&& final(self).next == old(self).current + old(self).next
            },
            2 * (old(self).current as int) + (old(self).next as int) > u64::MAX as int ==> {
                &&& r is None
                &&& *final(self) == *old(self)
            },
    {
        if self.next > u64::MAX - self.current {
            return None;
        }
        let sum = self.current + self.next;
        if sum > u64::MAX - self.current {
            None
        } else {
            self.current = self.next;
            self.next = sum;
            Some(self.current)
        }
    }
}

} // verus!
