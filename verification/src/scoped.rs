//! The shared backend: guard and handles hold one reference-counted cell.
//!
//! The cell's own count of holders is the authority on how many handles are
//! outstanding: the guard is one holder, every handle is another. Guard and
//! handles can be moved freely, at the price of one allocation per guard.
use crate::protocol::{handles_among, Mode, Verdict};
use std::ops::Deref;
use std::sync::Arc;
use vstd::prelude::*;

verus! {

/// Calls `Arc::clone`: another pointer to the same allocation, so to the same
/// contents. The cell counts one holder more afterwards. The standard library
/// ends the process rather than let that count pass `isize::MAX`.
#[verifier::external_body]
fn share<T>(cell: &Arc<T>) -> (other: Arc<T>)
    ensures
        other == *cell,
{
    Arc::clone(cell)
}

/// Calls `Arc::strong_count`: the number of pointers to the allocation at
/// the moment of the call. Other threads may change it at any time, so
/// nothing is claimed of the number.
#[verifier::external_body]
fn holders<T>(cell: &Arc<T>) -> (count: usize) {
    Arc::strong_count(cell)
}

/// How a guard or a handle holds the value: through the counted cell, or, in
/// unchecked mode, as the bare reference.
#[derive(Debug, PartialEq, Eq, PartialOrd, Ord, Hash)]
enum Hold<'a, T> {
    Counted(Arc<&'a T>),
    Bare(&'a T),
}

impl<'a, T> Hold<'a, T> {
    spec fn value(&self) -> T {
        match self {
            Hold::Counted(cell) => ***cell,
            Hold::Bare(value) => **value,
        }
    }

    spec fn counted(&self) -> bool {
        self is Counted
    }

    fn get(&self) -> (value: &T)
        ensures
            *value == self.value(),
    {
        match self {
            Hold::Counted(cell) => &***cell,
            Hold::Bare(value) => *value,
        }
    }

    /// One more holder of the same value: of the same cell, where there is
    /// one.
    fn another(&self) -> (other: Self)
        ensures
            other == *self,
            other.value() == self.value(),
            other.counted() == self.counted(),
    {
        match self {
            Hold::Counted(cell) => Hold::Counted(share(cell)),
            Hold::Bare(value) => Hold::Bare(*value),
        }
    }
}

/// A reference with lifetime `'a` from which counted handles are lifted.
///
/// The guard tells by [`ScopedGuard::verdict`] whether it may go away: it may
/// once every handle lifted from it has been dropped.
#[derive(Debug, PartialEq, Eq, PartialOrd, Ord, Hash)]
pub struct ScopedGuard<'a, T> {
    data: Hold<'a, T>,
}

/// A handle lifted from a [`ScopedGuard`]: a counted view of the guard's
/// value. It counts as one handle from its creation, by lifting or by
/// duplication, until it is dropped.
#[derive(Debug, PartialEq, Eq, PartialOrd, Ord, Hash)]
pub struct Scoped<'a, T>(Hold<'a, T>);

impl<'a, T> ScopedGuard<'a, T> {
    /// The value that the guard refers to.
    pub closed spec fn value(&self) -> T {
        self.data.value()
    }

    /// The mode that the guard was made in.
    pub closed spec fn mode(&self) -> Mode {
        if self.data.counted() {
            Mode::Checked
        } else {
            Mode::Unchecked
        }
    }

    /// Makes a guard over `value` that keeps count of its handles. The cell
    /// starts with the guard as its only holder.
    pub fn new(value: &'a T) -> (guard: Self)
        ensures
            guard.value() == *value,
            guard.mode() == Mode::Checked,
    {
        ScopedGuard { data: Hold::Counted(Arc::new(value)) }
    }

    /// Makes a guard over `value` in the given mode. In unchecked mode there
    /// is no cell and nothing is allocated.
    pub fn with_mode(value: &'a T, mode: Mode) -> (guard: Self)
        ensures
            guard.value() == *value,
            guard.mode() == mode,
    {
        match mode {
            Mode::Checked => ScopedGuard { data: Hold::Counted(Arc::new(value)) },
            Mode::Unchecked => ScopedGuard { data: Hold::Bare(value) },
        }
    }

    /// Lifts a handle to the guard's value. In checked mode the handle is one
    /// more holder of the cell until it is dropped; in unchecked mode it is
    /// the bare reference.
    pub fn lift(&self) -> (handle: Scoped<'a, T>)
        ensures
            handle.value() == self.value(),
            handle.counted() <==> self.mode() == Mode::Checked,
            handle.counts_on(self),
    {
        Scoped(self.data.another())
    }

    /// The number of handles outstanding at the moment of the call, as the
    /// cell counts them. Handles on other threads may come and go at any
    /// time, so in checked mode the number is an observation and nothing
    /// more. In unchecked mode nothing is counted and the number is zero.
    pub fn outstanding(&self) -> (count: usize)
        ensures
            self.mode() == Mode::Unchecked ==> count == 0,
    {
        match &self.data {
            Hold::Counted(cell) => handles_among(holders(cell)),
            Hold::Bare(_) => 0,
        }
    }

    /// Looks at the count once and says whether the guard may go away now.
    /// In unchecked mode there is nothing to consult and the verdict is clean.
    pub fn verdict(&self) -> (verdict: Verdict)
        ensures
            self.mode() == Mode::Unchecked ==> verdict == Verdict::Clean,
    {
        match &self.data {
            Hold::Counted(cell) => Verdict::of_shared_count(Mode::Checked, holders(cell)),
            Hold::Bare(_) => Verdict::Clean,
        }
    }
}

impl<'a, T> Deref for ScopedGuard<'a, T> {
    type Target = T;

    /// Reads the value that the guard refers to.
    fn deref(&self) -> (value: &T)
        ensures
            *value == self.value(),
    {
        self.data.get()
    }
}

impl<'a, T> Scoped<'a, T> {
    /// The value that the handle refers to.
    pub closed spec fn value(&self) -> T {
        self.0.value()
    }

    /// Whether the handle takes part in the count.
    pub closed spec fn counted(&self) -> bool {
        self.0.counted()
    }

    /// Whether the handle holds the value as `guard` does: through the cell
    /// of `guard`, where it has one.
    pub closed spec fn counts_on(&self, guard: &ScopedGuard<'a, T>) -> bool {
        self.0 == guard.data
    }
}

impl<'a, T> Deref for Scoped<'a, T> {
    type Target = T;

    /// Reads the value that the handle refers to.
    fn deref(&self) -> (value: &T)
        ensures
            *value == self.value(),
    {
        self.0.get()
    }
}

impl<'a, T> Clone for Scoped<'a, T> {
    /// Duplicates the handle. The duplicate of a counted handle is one more
    /// holder of the same cell, and so counts as one more handle. The
    /// duplicate equals its source.
    fn clone(&self) -> (other: Self)
        ensures
            other == *self,
            other.value() == self.value(),
            other.counted() == self.counted(),
    {
        Scoped(self.0.another())
    }
}

/// Value fidelity: where a guard is made over a value, a handle is lifted
/// from the guard and the handle is duplicated, reading through the guard,
/// the handle or the duplicate gives that same value.
pub proof fn law_shared_value_fidelity<'a, T>(
    origin: T,
    guard: ScopedGuard<'a, T>,
    handle: Scoped<'a, T>,
    duplicate: Scoped<'a, T>,
)
    requires
        guard.value() == origin,
        handle.value() == guard.value(),
        duplicate.value() == handle.value(),
    ensures
        handle.value() == origin,
        duplicate.value() == origin,
{
}

} // verus!
