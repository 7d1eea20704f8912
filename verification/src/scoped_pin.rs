//! The pinned backend: the guard owns an atomic counter and stays in place.
//!
//! Nothing is allocated. A handle refers to the counter inside the guard, so
//! the guard must keep its address while a handle exists; the borrow that
//! [`ScopedPinGuard::lift`] takes holds it there. Every operation on the
//! counter is sequentially consistent, so that a handle dropped on one thread
//! is seen by the guard on another.
use crate::protocol::{Mode, Verdict};
use std::ops::Deref;
use std::sync::atomic::AtomicUsize;
use vstd::prelude::*;

verus! {

/// Calls `AtomicUsize::fetch_sub`: the counter goes down by `amount`,
/// wrapping around below zero, and its previous value is returned. The call
/// accepts every ordering and cannot unwind, which is what a destructor needs
/// to be told. Other threads may change the counter at any time, so nothing
/// is claimed of the value.
#[verifier::external_body]
fn fetch_sub_in_drop(
    counter: &AtomicUsize,
    amount: usize,
    order: std::sync::atomic::Ordering,
) -> (previous: usize)
    opens_invariants none
    no_unwind
{
    counter.fetch_sub(amount, order)
}

/// The memory ordering of every operation on the counter: sequentially
/// consistent, so that an increment or decrement made on one thread is seen
/// by whichever thread reads the counter afterwards.
fn counter_order() -> (order: std::sync::atomic::Ordering)
    ensures
        order == std::sync::atomic::Ordering::SeqCst,
    opens_invariants none
    no_unwind
{
    std::sync::atomic::Ordering::SeqCst
}

/// A reference with lifetime `'a` from which counted handles are lifted,
/// without any allocation.
///
/// The guard tells by [`ScopedPinGuard::verdict`] whether it may go away: it
/// may once every handle lifted from it has been dropped.
#[derive(Debug)]
pub struct ScopedPinGuard<'a, T> {
    value: &'a T,
    counter: AtomicUsize,
    mode: Mode,
}

/// A handle lifted from a [`ScopedPinGuard`]: a counted view of the guard's
/// value. It counts as one handle from its creation, by lifting or by
/// duplication, until it is dropped.
///
/// Pinned handles cannot be compared or hashed: what tells two of them apart
/// is the counter they refer to, and an atomic counter has no equality or
/// order of its own. Compare the values they read instead.
#[derive(Debug)]
pub struct ScopedPin<'g, T> {
    value: &'g T,
    counter: Option<&'g AtomicUsize>,
}

impl<'a, T> ScopedPinGuard<'a, T> {
    /// The value that the guard refers to.
    pub closed spec fn value(&self) -> T {
        *self.value
    }

    /// The mode that the guard was made in.
    pub closed spec fn mode(&self) -> Mode {
        self.mode
    }

    /// Makes a guard over `value` that keeps count of its handles. The
    /// counter starts at zero.
    pub fn new(value: &'a T) -> (guard: Self)
        ensures
            guard.value() == *value,
            guard.mode() == Mode::Checked,
    {
        ScopedPinGuard { value, counter: AtomicUsize::new(0), mode: Mode::Checked }
    }

    /// Makes a guard over `value` in the given mode. The counter starts at
    /// zero.
    pub fn with_mode(value: &'a T, mode: Mode) -> (guard: Self)
        ensures
            guard.value() == *value,
            guard.mode() == mode,
    {
        ScopedPinGuard { value, counter: AtomicUsize::new(0), mode }
    }

    /// Lifts a handle to the guard's value. In checked mode the counter is
    /// incremented and the handle will decrement it when it is dropped; in
    /// unchecked mode the handle is the bare reference.
    pub fn lift<'g>(&'g self) -> (handle: ScopedPin<'g, T>)
        ensures
            handle.value() == self.value(),
            handle.counted() <==> self.mode() == Mode::Checked,
            handle.counted() ==> handle.counts_on(self),
    {
        if self.mode.is_checked() {
            self.counter.fetch_add(1, counter_order());
            ScopedPin { value: self.value, counter: Some(&self.counter) }
        } else {
            ScopedPin { value: self.value, counter: None }
        }
    }

    /// The number of handles outstanding at the moment of the call, as the
    /// counter holds it. Handles on other threads may come and go at any
    /// time, so in checked mode the number is an observation and nothing
    /// more. In unchecked mode nothing is counted and the number is zero.
    pub fn outstanding(&self) -> (count: usize)
        ensures
            self.mode() == Mode::Unchecked ==> count == 0,
    {
        if self.mode.is_checked() {
            self.counter.load(counter_order())
        } else {
            0
        }
    }

    /// Looks at the counter once and says whether the guard may go away now.
    /// In unchecked mode the counter is not consulted and the verdict is clean.
    pub fn verdict(&self) -> (verdict: Verdict)
        ensures
            self.mode() == Mode::Unchecked ==> verdict == Verdict::Clean,
    {
        if self.mode.is_checked() {
            let count: usize = self.counter.load(counter_order());
            Verdict::of_pinned_counter(self.mode, count)
        } else {
            Verdict::Clean
        }
    }
}

impl<'a, T> Deref for ScopedPinGuard<'a, T> {
    type Target = T;

    /// Reads the value that the guard refers to.
    fn deref(&self) -> (value: &T)
        ensures
            *value == self.value(),
    {
        self.value
    }
}

impl<'g, T> ScopedPin<'g, T> {
    /// The value that the handle refers to.
    pub closed spec fn value(&self) -> T {
        *self.value
    }

    /// Whether the handle takes part in the count.
    pub closed spec fn counted(&self) -> bool {
        self.counter is Some
    }

    /// Whether the counter that the handle refers to is the one that `guard`
    /// owns.
    pub closed spec fn counts_on<'a>(&self, guard: &ScopedPinGuard<'a, T>) -> bool {
        self.counter == Some(&guard.counter)
    }
}

impl<'g, T> Deref for ScopedPin<'g, T> {
    type Target = T;

    /// Reads the value that the handle refers to.
    fn deref(&self) -> (value: &T)
        ensures
            *value == self.value(),
    {
        self.value
    }
}

impl<'g, T> Clone for ScopedPin<'g, T> {
    /// Duplicates the handle. A counted handle increments the counter for
    /// its duplicate, which counts as one more handle. The duplicate equals
    /// its source: it reads the same value and refers to the same counter,
    /// not to a fresh one.
    fn clone(&self) -> (other: Self)
        ensures
            other == *self,
            other.value() == self.value(),
            other.counted() == self.counted(),
    {
        match self.counter {
            Some(counter) => {
                counter.fetch_add(1, counter_order());
            },
            None => {},
        }
        ScopedPin { value: self.value, counter: self.counter }
    }
}

impl<'g, T> Drop for ScopedPin<'g, T> {
    /// A counted handle decrements the counter as it goes. The handle only
    /// observes: neither the value it reads nor the counter it refers to is
    /// replaced.
    fn drop(&mut self)
        ensures
            *final(self) == *old(self),
            final(self).value() == old(self).value(),
            final(self).counted() == old(self).counted(),
        opens_invariants none
        no_unwind
    {
        match self.counter {
            Some(counter) => {
                let _previous: usize = fetch_sub_in_drop(counter, 1, counter_order());
            },
            None => {},
        }
    }
}

/// Value fidelity: where a guard is made over a value, a handle is lifted
/// from the guard and the handle is duplicated, reading through the guard,
/// the handle or the duplicate gives that same value.
pub proof fn law_pinned_value_fidelity<'a, 'g, T>(
    origin: T,
    guard: ScopedPinGuard<'a, T>,
    handle: ScopedPin<'g, T>,
    duplicate: ScopedPin<'g, T>,
)
    requires
        guard.value() == origin,
        handle.value() == guard.value(),
        duplicate.value() == handle.value(),
    ensures
        handle.value() == origin,
        duplicate.value() == origin,
{
}

} // verus!
