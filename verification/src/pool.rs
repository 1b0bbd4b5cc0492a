//! The pool side of a sample buffer: a `crossbeam` channel through which
//! emptied vectors travel back to the capture thread.

use crossbeam::channel::Sender;
use num_complex::Complex32;
use std::borrow::Borrow;
use vstd::prelude::*;

use crate::recycler::Recycler;

verus! {

/// Declares [`num_complex::Complex`]: samples are carried, never read.
#[verifier::external_type_specification]
#[verifier::external_body]
#[verifier::reject_recursive_types(T)]
pub struct ExComplex<T>(num_complex::Complex<T>);

/// Declares [`crossbeam::channel::Sender`], the sending half of a channel.
#[verifier::external_type_specification]
#[verifier::external_body]
#[verifier::reject_recursive_types(T)]
pub struct ExSender<T>(crossbeam::channel::Sender<T>);

/// `Sender::send` hands the vector to the channel, or, if every receiver is
/// gone, gives that same vector back in its error.
///
/// Which of the two happens depends on the other end of the channel and is not
/// stated here. The call waits while a bounded channel is full; it does not
/// panic.
///
/// A call moves the handle on: it is taken by mutable reference, and nothing is
/// said of what it is afterwards. So a contract that speaks of the handle before
/// and after tells how often something was sent through it, and a handle that
/// stays as it was has sent nothing.
#[verifier::external_body]
pub(crate) fn send<R: Recycler>(recycler: &mut R, vec: Vec<Complex32>) -> (r: Result<
    (),
    Vec<Complex32>,
>)
    ensures
        r matches Err(refused) ==> refused == vec,
    opens_invariants none
    no_unwind
{
    let sender: &Sender<Vec<Complex32>> = (*recycler).borrow();
    sender.send(vec).map_err(|refused| refused.into_inner())
}

/// `std::mem::take` moves the vector out and leaves an empty one in its place.
/// An empty vector allocates nothing, so the call does not panic.
#[verifier::external_body]
pub(crate) fn take(vec: &mut Vec<Complex32>) -> (r: Vec<Complex32>)
    ensures
        r == *old(vec),
        final(vec)@ == Seq::<Complex32>::empty(),
    opens_invariants none
    no_unwind
{
    std::mem::take(vec)
}

/// `Vec::clear` removes every element. That the vector keeps its allocation is
/// not stated here. Samples have no destructor, so the call does not panic,
/// which the general specification of `clear` leaves open and a destructor has
/// to know.
#[verifier::external_body]
pub(crate) fn cleared(vec: Vec<Complex32>) -> (r: Vec<Complex32>)
    ensures
        r@ == Seq::<Complex32>::empty(),
    opens_invariants none
    no_unwind
{
    let mut vec = vec;
    vec.clear();
    vec
}

/// `std::mem::drop` disposes of the handle, which does not panic. Nothing is
/// claimed beyond that: a contract that speaks of such a call tells with which
/// handle it was made, and so that nothing was sent through it before.
#[verifier::external_body]
pub(crate) fn dispose<R: Recycler>(recycler: R) {
    std::mem::drop(recycler)
}

/// A call of [`dispose`] with `recycler` can return.
pub closed spec fn dispose_admits<R: Recycler>(recycler: R) -> bool {
    call_ensures(dispose::<R>, (recycler,), ())
}

/// A call of [`cleared`] with `vec` can return `empty`.
pub closed spec fn clear_admits(vec: Vec<Complex32>, empty: Vec<Complex32>) -> bool {
    call_ensures(cleared, (vec,), empty)
}

/// One call of [`send`] with `vec` can move `handle` from its current to its
/// final value and return `outcome`.
pub closed spec fn send_admits<R: Recycler>(
    handle: &mut R,
    vec: Vec<Complex32>,
    outcome: Result<(), Vec<Complex32>>,
) -> bool {
    call_ensures(send::<R>, (handle, vec), outcome)
}

/// One call of [`send`] can move `handle` from its current to its final value,
/// with a vector that a call of [`cleared`] with `vec` can return.
pub open spec fn return_admits<R: Recycler>(handle: &mut R, vec: Vec<Complex32>) -> bool {
    exists|empty: Vec<Complex32>, outcome: Result<(), Vec<Complex32>>|
        #![trigger clear_admits(vec, empty), send_admits(handle, empty, outcome)]
        clear_admits(vec, empty) && send_admits(handle, empty, outcome)
}

/// Disposes of a handle that nobody is to send through.
pub(crate) fn let_go<R: Recycler>(recycler: R)
    ensures
        dispose_admits(recycler),
        call_ensures(dispose::<R>, (recycler,), ()),
{
    dispose(recycler)
}

/// Clears a vector and sends it to the pool, once.
pub(crate) fn give_back<R: Recycler>(recycler: &mut R, vec: Vec<Complex32>)
    ensures
        exists|handle: &mut R|
            *handle == *old(recycler) && *final(handle) == *final(recycler)
                && #[trigger] return_admits(handle, vec),
        exists|handle: &mut R, empty: Vec<Complex32>, outcome: Result<(), Vec<Complex32>>|
            *handle == *old(recycler) && *final(handle) == *final(recycler)
                && #[trigger] call_ensures(cleared, (vec,), empty) && #[trigger] call_ensures(
                send::<R>,
                (handle, empty),
                outcome,
            ),
    opens_invariants none
    no_unwind
{
    let empty = cleared(vec);
    let _outcome = send(recycler, empty);
    proof {
        let handle = choose|handle: &mut R|
            *handle == *old(recycler) && *final(handle) == *recycler && #[trigger] call_ensures(
                send::<R>,
                (handle, empty),
                _outcome,
            );
        assert(clear_admits(vec, empty) && send_admits(handle, empty, _outcome));
        assert(return_admits(handle, vec));
    }
}

/// What travels to the pool is the vector itself, cleared of its samples: an
/// empty vector, sent once.
pub proof fn pool_gets_empty_vectors<R: Recycler>(handle: &mut R, vec: Vec<Complex32>)
    requires
        return_admits(handle, vec),
    ensures
        exists|empty: Vec<Complex32>, outcome: Result<(), Vec<Complex32>>|
            empty@ == Seq::<Complex32>::empty() && #[trigger] clear_admits(vec, empty)
                && #[trigger] send_admits(handle, empty, outcome),
{
}

/// A vector that the pool refuses comes back as it was sent: after clearing,
/// empty.
pub proof fn refused_vector_is_empty<R: Recycler>(
    handle: &mut R,
    vec: Vec<Complex32>,
    empty: Vec<Complex32>,
    refused: Vec<Complex32>,
)
    requires
        clear_admits(vec, empty),
        send_admits(handle, empty, Err(refused)),
    ensures
        refused == empty,
        refused@ == Seq::<Complex32>::empty(),
{
}

} // verus!
