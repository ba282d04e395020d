//! Lock-free FIFO queues, backed by crossbeam's segmented queue.
//!
//! The engine moves packets and work items through unbounded FIFO queues.
//! The queue itself comes from the crossbeam crate; each wrapper below is
//! trusted, and states over the queue's abstract contents what crossbeam
//! documents for `SegQueue`: push appends at the tail, pop takes from the
//! head, first in first out.

use vstd::prelude::*;

use crate::packet::Packet;
use crate::work::Work;

verus! {

/// An unbounded FIFO of packets.
#[verifier::external_body]
pub struct PacketFifo {
    inner: crossbeam::queue::SegQueue<Packet>,
}

/// The packets currently queued, head first.
pub uninterp spec fn packet_fifo_seq(q: &PacketFifo) -> Seq<Packet>;

impl PacketFifo {
    /// Relies on crossbeam's `SegQueue::new`: a new queue is empty.
    #[verifier::external_body]
    pub fn new() -> (r: PacketFifo)
        ensures
            packet_fifo_seq(&r) == Seq::<Packet>::empty(),
    {
        PacketFifo { inner: crossbeam::queue::SegQueue::new() }
    }

    /// Relies on crossbeam's `SegQueue::push`: the element joins the tail.
    #[verifier::external_body]
    pub fn push(&mut self, p: Packet)
        ensures
            packet_fifo_seq(final(self)) == packet_fifo_seq(old(self)).push(p),
    {
        self.inner.push(p);
    }

    /// Relies on crossbeam's `SegQueue::pop`: the head leaves first, and an
    /// empty queue yields nothing.
    #[verifier::external_body]
    pub fn pop(&mut self) -> (r: Option<Packet>)
        ensures
            match r {
                Some(p) => packet_fifo_seq(old(self)).len() > 0 && p == packet_fifo_seq(
                    old(self),
                ).first() && packet_fifo_seq(final(self)) == packet_fifo_seq(
                    old(self),
                ).drop_first(),
                None => packet_fifo_seq(old(self)).len() == 0 && packet_fifo_seq(final(self))
                    == packet_fifo_seq(old(self)),
            },
    {
        self.inner.pop()
    }

    /// Relies on crossbeam's `SegQueue::is_empty`.
    #[verifier::external_body]
    pub fn is_empty(&self) -> (r: bool)
        ensures
            r == (packet_fifo_seq(self).len() == 0),
    {
        self.inner.is_empty()
    }

    /// Relies on crossbeam's `SegQueue::len`.
    #[verifier::external_body]
    pub fn len(&self) -> (r: usize)
        ensures
            r == packet_fifo_seq(self).len(),
    {
        self.inner.len()
    }
}

/// An unbounded FIFO of schedulable work items.
#[verifier::external_body]
pub struct WorkFifo {
    inner: crossbeam::queue::SegQueue<Work>,
}

/// The work items currently queued, head first.
pub uninterp spec fn work_fifo_seq(q: &WorkFifo) -> Seq<Work>;

impl WorkFifo {
    /// Relies on crossbeam's `SegQueue::new`: a new queue is empty.
    #[verifier::external_body]
    pub fn new() -> (r: WorkFifo)
        ensures
            work_fifo_seq(&r) == Seq::<Work>::empty(),
    {
        WorkFifo { inner: crossbeam::queue::SegQueue::new() }
    }

    /// Relies on crossbeam's `SegQueue::push`: the element joins the tail.
    #[verifier::external_body]
    pub fn push(&mut self, w: Work)
        ensures
            work_fifo_seq(final(self)) == work_fifo_seq(old(self)).push(w),
    {
        self.inner.push(w);
    }

    /// Relies on crossbeam's `SegQueue::pop`: the head leaves first, and an
    /// empty queue yields nothing.
    #[verifier::external_body]
    pub fn pop(&mut self) -> (r: Option<Work>)
        ensures
            match r {
                Some(w) => work_fifo_seq(old(self)).len() > 0 && w == work_fifo_seq(
                    old(self),
                ).first() && work_fifo_seq(final(self)) == work_fifo_seq(old(self)).drop_first(),
                None => work_fifo_seq(old(self)).len() == 0 && work_fifo_seq(final(self))
                    == work_fifo_seq(old(self)),
            },
    {
        self.inner.pop()
    }

    /// Relies on crossbeam's `SegQueue::is_empty`.
    #[verifier::external_body]
    pub fn is_empty(&self) -> (r: bool)
        ensures
            r == (work_fifo_seq(self).len() == 0),
    {
        self.inner.is_empty()
    }

    /// Relies on crossbeam's `SegQueue::len`.
    #[verifier::external_body]
    pub fn len(&self) -> (r: usize)
        ensures
            r == work_fifo_seq(self).len(),
    {
        self.inner.len()
    }
}

} // verus!
