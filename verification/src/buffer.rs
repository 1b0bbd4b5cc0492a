//! Sample buffers that find their way back to the pool.

use crossbeam::channel::Sender;
use num_complex::Complex32;
use std::ops::{Deref, DerefMut};
use vstd::prelude::*;

use crate::pool::{
    cleared, dispose, dispose_admits, give_back, let_go, return_admits, send, send_admits, take,
};
use crate::recycler::Recycler;

verus! {

/// A buffer of IQ samples that returns itself to a pool when dropped.
///
/// The capture thread pulls an empty vector from a channel, fills it and wraps
/// it in a `PooledIqBuffer`. When the consumer is done with the samples, `Drop`
/// clears the vector and sends it back to the channel, so that the capture loop
/// need not allocate.
///
/// The buffer reads and writes like a slice of samples. Its code is generic in
/// the recycler, which it can therefore not copy: nothing that it does reaches
/// the channel but through the one handle that its contracts follow.
#[derive(Debug)]
pub struct PooledIqBuffer<R: Recycler = Sender<Vec<Complex32>>> {
    vec: Vec<Complex32>,
    recycler: Option<R>,
}

impl<R: Recycler> View for PooledIqBuffer<R> {
    type V = Seq<Complex32>;

    /// The samples; the pool is spoken of through `recycler`.
    open spec fn view(&self) -> Seq<Complex32> {
        self.inner()@
    }
}

impl<R: Recycler> PooledIqBuffer<R> {
    /// The vector that the buffer wraps.
    pub closed spec fn inner(self) -> Vec<Complex32> {
        self.vec
    }

    /// The pool to which the vector returns, if there is one.
    pub closed spec fn recycler(self) -> Option<R> {
        self.recycler
    }

    /// Creates a pooled buffer. When it is dropped, the vector is returned to
    /// `recycler`.
    pub fn new_pooled(vec: Vec<Complex32>, recycler: R) -> (buffer: Self)
        ensures
            buffer.inner() == vec,
            buffer.recycler() == Some(recycler),
    {
        PooledIqBuffer { vec, recycler: Some(recycler) }
    }

    /// A call of `detach` can move `rest` from its current to its final value and
    /// return `vec`.
    pub closed spec fn detach_admits(rest: &mut PooledIqBuffer<R>, vec: Vec<Complex32>) -> bool {
        call_ensures(PooledIqBuffer::<R>::detach, (rest,), vec)
    }

    /// Takes ownership of the inner vector, bypassing the pool: the buffer from
    /// which the vector was parted, and which is left to drop, has no recycler,
    /// and the recycler that it had was disposed of as it was.
    pub fn take_inner(self) -> (vec: Vec<Complex32>)
        ensures
            vec == self.inner(),
            self.recycler() matches Some(handle) ==> dispose_admits(handle),
            exists|rest: &mut PooledIqBuffer<R>|
                *rest == self && final(rest).recycler() is None && #[trigger] Self::detach_admits(
                    rest,
                    vec,
                ),
    {
        let mut buffer = self;
        let vec = buffer.detach();
        proof {
            let rest = choose|rest: &mut PooledIqBuffer<R>|
                *rest == self && final(rest).recycler() is None && #[trigger] call_ensures(
                    PooledIqBuffer::<R>::detach,
                    (rest,),
                    vec,
                );
            assert(Self::detach_admits(rest, vec));
        }
        vec
    }

    /// Parts the vector from the pool: the recycler is disposed of as it is, and
    /// what is left to drop has none.
    fn detach(&mut self) -> (vec: Vec<Complex32>)
        ensures
            vec == old(self).inner(),
            final(self).recycler() is None,
            old(self).recycler() matches Some(handle) ==> dispose_admits(handle) && call_ensures(
                dispose::<R>,
                (handle,),
                (),
            ),
    {
        if let Some(handle) = self.recycler.take() {
            let_go(handle);
        }
        take(&mut self.vec)
    }

    /// A call of `release` can move `buffer` from its current to its final value.
    pub closed spec fn release_admits(buffer: &mut PooledIqBuffer<R>) -> bool {
        call_ensures(PooledIqBuffer::<R>::release, (buffer,), ())
    }

    /// Clears the vector of a pooled buffer and sends it back to the pool. If
    /// the pool is gone, the vector is freed. An unpooled buffer stays as it is.
    fn release(&mut self)
        ensures
            match old(self).recycler() {
                Some(before) => {
                    &&& final(self)@ == Seq::<Complex32>::empty()
                    &&& exists|handle: &mut R|
                        *handle == before && final(self).recycler() == Some(*final(handle))
                            && #[trigger] return_admits(handle, old(self).inner())
                },
                None => {
                    &&& final(self).recycler() is None
                    &&& final(self).inner() == old(self).inner()
                },
            },
            old(self).recycler() matches Some(before) ==> exists|
                handle: &mut R,
                empty: Vec<Complex32>,
                outcome: Result<(), Vec<Complex32>>,
            |
                *handle == before && final(self).recycler() == Some(*final(handle))
                    && #[trigger] call_ensures(cleared, (old(self).inner(),), empty)
                    && #[trigger] call_ensures(send::<R>, (handle, empty), outcome),
        opens_invariants none
        no_unwind
    {
        if let Some(recycler) = &mut self.recycler {
            let vec = take(&mut self.vec);
            give_back(recycler, vec);
            proof {
                let handle = choose|handle: &mut R|
                    Some(*handle) == old(self).recycler() && *final(handle) == *recycler
                        && #[trigger] return_admits(handle, vec);
                assert(return_admits(handle, old(self).inner()));
            }
        }
    }
}

impl PooledIqBuffer<Sender<Vec<Complex32>>> {
    /// Creates a buffer without a recycler. It will drop normally.
    pub fn new_unpooled(vec: Vec<Complex32>) -> (buffer: Self)
        ensures
            buffer.inner() == vec,
            buffer.recycler() is None,
    {
        PooledIqBuffer { vec, recycler: None }
    }
}

impl<R: Recycler> Drop for PooledIqBuffer<R> {
    /// Releases the buffer: the vector of a pooled one goes back to the pool,
    /// cleared, once; that of an unpooled one is freed.
    fn drop(&mut self)
        ensures
            match old(self).recycler() {
                Some(before) => {
                    &&& final(self)@ == Seq::<Complex32>::empty()
                    &&& exists|handle: &mut R|
                        *handle == before && final(self).recycler() == Some(*final(handle))
                            && #[trigger] return_admits(handle, old(self).inner())
                },
                None => {
                    &&& final(self).recycler() is None
                    &&& final(self).inner() == old(self).inner()
                },
            },
            exists|buffer: &mut PooledIqBuffer<R>|
                *buffer == *old(self) && *final(buffer) == *final(self)
                    && #[trigger] PooledIqBuffer::<R>::release_admits(buffer),
        opens_invariants none
        no_unwind
    {
        self.release();
        proof {
            let buffer = choose|buffer: &mut PooledIqBuffer<R>|
                *buffer == *old(self) && *final(buffer) == *self && #[trigger] call_ensures(
                    PooledIqBuffer::<R>::release,
                    (buffer,),
                    (),
                );
            assert(PooledIqBuffer::<R>::release_admits(buffer));
        }
    }
}

impl<R: Recycler> Deref for PooledIqBuffer<R> {
    type Target = [Complex32];

    /// The samples.
    fn deref(&self) -> (samples: &[Complex32])
        ensures
            samples@ == self@,
    {
        self.vec.as_slice()
    }
}

impl<R: Recycler> DerefMut for PooledIqBuffer<R> {
    /// The samples, to be written in place: what is written through the slice
    /// is what the buffer holds afterwards, and the pool stays the same.
    fn deref_mut(&mut self) -> (samples: &mut [Complex32])
        ensures
            samples@ == old(self)@,
            final(self)@ == final(samples)@,
            final(self).recycler() == old(self).recycler(),
    {
        self.vec.as_mut_slice()
    }
}

/// A vector that is wrapped and taken out again is the same vector, pool or no
/// pool.
pub proof fn take_inner_undoes_new(
    vec: Vec<Complex32>,
    recycler: Sender<Vec<Complex32>>,
    buffer: PooledIqBuffer,
    taken: Vec<Complex32>,
)
    requires
        call_ensures(PooledIqBuffer::new_unpooled, (vec,), buffer) || call_ensures(
            PooledIqBuffer::new_pooled,
            (vec, recycler),
            buffer,
        ),
        call_ensures(PooledIqBuffer::take_inner, (buffer,), taken),
    ensures
        taken == vec,
{
}

/// Parting a vector from its buffer bypasses the pool: it yields that very
/// vector, disposes of the recycler with the value that it had, and leaves a
/// buffer without one.
pub proof fn detaching_bypasses_the_pool<R: Recycler>(
    buffer: &mut PooledIqBuffer<R>,
    vec: Vec<Complex32>,
)
    requires
        PooledIqBuffer::<R>::detach_admits(buffer, vec),
    ensures
        vec == old(buffer).inner(),
        old(buffer).recycler() matches Some(handle) ==> dispose_admits(handle),
        final(buffer).recycler() is None,
{
}

/// Pooling is transparent: with a pool or without, a buffer reads as the vector
/// that it was made of, as often as it is read. Neither making a buffer nor
/// reading it sends anything: its recycler is still the handle that it was given,
/// and the one send at its drop is the first through it.
pub proof fn pooling_is_transparent<R: Recycler>(
    vec: Vec<Complex32>,
    recycler: R,
    unpooled: PooledIqBuffer,
    pooled: &mut PooledIqBuffer<R>,
    plain: &[Complex32],
    first: &[Complex32],
    again: &[Complex32],
)
    requires
        call_ensures(PooledIqBuffer::new_unpooled, (vec,), unpooled),
        call_ensures(PooledIqBuffer::<R>::new_pooled, (vec, recycler), *pooled),
        call_ensures(<PooledIqBuffer as Deref>::deref, (&unpooled,), plain),
        call_ensures(<PooledIqBuffer<R> as Deref>::deref, (&*pooled,), first),
        call_ensures(<PooledIqBuffer<R> as Deref>::deref, (&*pooled,), again),
        PooledIqBuffer::<R>::release_admits(pooled),
    ensures
        plain@ == vec@,
        first@ == vec@,
        again@ == vec@,
        exists|handle: &mut R|
            *handle == recycler && final(pooled).recycler() == Some(*final(handle))
                && #[trigger] return_admits(handle, vec),
{
}

/// Writing through a buffer leaves its tie to the pool as it was: dropped
/// afterwards, it sends one vector through the recycler that it was made with,
/// and that is the vector that was written to, cleared.
pub proof fn written_buffer_returns_to_its_pool<R: Recycler>(
    vec: Vec<Complex32>,
    recycler: R,
    written: &mut PooledIqBuffer<R>,
    samples: &mut [Complex32],
    dropped: &mut PooledIqBuffer<R>,
)
    requires
        call_ensures(PooledIqBuffer::<R>::new_pooled, (vec, recycler), *written),
        call_ensures(<PooledIqBuffer<R> as DerefMut>::deref_mut, (written,), samples),
        *dropped == *final(written),
        PooledIqBuffer::<R>::release_admits(dropped),
    ensures
        old(samples)@ == vec@,
        old(dropped)@ == final(samples)@,
        exists|handle: &mut R|
            *handle == recycler && final(dropped).recycler() == Some(*final(handle))
                && #[trigger] return_admits(handle, old(dropped).inner()),
{
}

/// Of many buffers of one pool, in whatever order they go, each that is dropped
/// sends its own vector, cleared, through its recycler, once; each whose vector
/// is taken out yields that vector, disposes of its recycler as it was given and
/// leaves a buffer without one.
pub proof fn dropped_buffers_return_and_taken_ones_do_not<R: Recycler>(
    vecs: Seq<Vec<Complex32>>,
    recyclers: Seq<R>,
    buffers: Seq<&mut PooledIqBuffer<R>>,
    taken: Seq<Option<Vec<Complex32>>>,
)
    requires
        vecs.len() == buffers.len(),
        recyclers.len() == buffers.len(),
        taken.len() == buffers.len(),
        forall|i: int|
            #![trigger taken[i]]
            0 <= i < buffers.len() ==> {
                &&& call_ensures(
                    PooledIqBuffer::<R>::new_pooled,
                    (vecs[i], recyclers[i]),
                    *buffers[i],
                )
                &&& match taken[i] {
                    None => PooledIqBuffer::<R>::release_admits(buffers[i]),
                    Some(vec) => call_ensures(PooledIqBuffer::<R>::take_inner, (*buffers[i],), vec),
                }
            },
    ensures
        forall|i: int|
            #![trigger taken[i]]
            0 <= i < buffers.len() && taken[i] is None ==> exists|
                handle: &mut R,
            |
                *handle == recyclers[i] && final(buffers[i]).recycler() == Some(*final(handle))
                    && #[trigger] return_admits(handle, vecs[i]),
        forall|i: int|
            #![trigger taken[i]]
            0 <= i < buffers.len() && taken[i] is Some ==> taken[i]->0 == vecs[i]
                && dispose_admits(recyclers[i]) && exists|rest: &mut PooledIqBuffer<R>|
                *rest == *buffers[i] && final(rest).recycler() is None
                    && #[trigger] PooledIqBuffer::<R>::detach_admits(rest, taken[i]->0),
{
}

/// Over the life of a pooled buffer, one vector goes to the pool, at its drop.
///
/// `count` is any count of what was sent through a recycler: each send, of
/// whatever vector, raises it by one. Making the buffer, reading it and writing
/// it leave the count as it was; dropping it raises the count by one; taking its
/// vector out leaves the count, with which the recycler is then disposed of.
pub proof fn one_send_in_the_life_of_a_buffer<R: Recycler>(
    count: spec_fn(R) -> nat,
    vec: Vec<Complex32>,
    recycler: R,
    written: &mut PooledIqBuffer<R>,
    read: &[Complex32],
    samples: &mut [Complex32],
    dropped: &mut PooledIqBuffer<R>,
    taken: Vec<Complex32>,
)
    requires
        forall|handle: &mut R, sent: Vec<Complex32>, outcome: Result<(), Vec<Complex32>>| #[trigger]
            send_admits(handle, sent, outcome) ==> count(*final(handle)) == count(
                *handle,
            ) + 1,
        call_ensures(PooledIqBuffer::<R>::new_pooled, (vec, recycler), *written),
        call_ensures(<PooledIqBuffer<R> as Deref>::deref, (&*written,), read),
        call_ensures(<PooledIqBuffer<R> as DerefMut>::deref_mut, (written,), samples),
        *dropped == *final(written),
        PooledIqBuffer::<R>::release_admits(dropped),
        call_ensures(PooledIqBuffer::<R>::take_inner, (*final(written),), taken),
    ensures
        read@ == vec@,
        old(samples)@ == vec@,
        taken@ == final(samples)@,
        old(written).recycler() == Some(recycler),
        final(written).recycler() == Some(recycler),
        dispose_admits(recycler),
        final(dropped).recycler() matches Some(after) && count(after) == count(recycler) + 1,
{
}

} // verus!
