//! What a buffer may do with its way back to the pool.

use crossbeam::channel::Sender;
use num_complex::Complex32;
use std::borrow::Borrow;
use vstd::prelude::*;

verus! {

/// A way back to the pool: the sending half of a channel of vectors.
///
/// Code that is generic in its recycler can send vectors through it and dispose
/// of it, and can do nothing else with it. In particular it cannot copy it: it
/// has no second way to the same channel, so that whatever it sends there goes
/// through the one handle that it was given.
pub trait Recycler: Sized + Borrow<Sender<Vec<Complex32>>> {

}

impl Recycler for Sender<Vec<Complex32>> {

}

} // verus!
