//! Scoped references whose handles are counted at run time.
//!
//! A guard wraps a reference that belongs to a scope and hands out handles to
//! the same value. Every handle is counted from the moment it is lifted or
//! duplicated until it is dropped, and the guard tells by its verdict whether
//! it may go away: it may once no handle is left. A guard that would go away
//! earlier is a safety violation, to be reported by ending the process.
//!
//! There are two backends with the same contract. [`ScopedGuard`] shares a
//! reference-counted cell with its handles and can be moved. [`ScopedPinGuard`]
//! owns an atomic counter that its handles refer to; it allocates nothing and
//! stays in place while a handle exists.
//!
//! [`protocol`] holds the rules that both follow and the proofs of what they
//! promise; [`report`] holds the text of the diagnostic. Those proofs are
//! about a model of the count: the counts themselves live in the standard
//! library's cell and atomic integer, and no contract of the backends speaks
//! of them. What is proved of the backends is which value a guard and its
//! handles read, which counter a handle refers to, and what a guard decides
//! for each number it may read.
pub mod protocol;
pub mod report;
pub mod scoped;
pub mod scoped_pin;

pub use protocol::{HandleEvent, Mode, Reaction, Verdict};
pub use scoped::{Scoped, ScopedGuard};
pub use scoped_pin::{ScopedPin, ScopedPinGuard};
