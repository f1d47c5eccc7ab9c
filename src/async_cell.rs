use vstd::prelude::*;
use crate::rw_cell::{
    after_read, after_unread, after_write, can_read, can_unread, can_write, RwCell, RwRead,
    RwWrite, RW_WRITE,
};

verus! {

/// What an attempt to take a borrow for a waiting task decided.
pub enum Acquire<G> {
    /// The borrow was taken; the guard stands for it.
    Ready(G),
    /// The borrow could not be taken and nothing changed: the task registers
    /// its waker and is suspended until a release wakes it.
    Pending,
}

/// Where a request for a borrow stands.
#[derive(PartialEq, Eq, Structural, Clone, Copy, Debug)]
pub enum RequestStage {
    /// Made, never polled.
    Unstarted,
    /// Polled, refused, and waiting for a wakeup.
    Waiting,
    /// Polled to success: the guard has been handed out.
    Satisfied,
}

/// A borrow-counted cell that a cooperative scheduler can wait on, beside the
/// queue of wakers (`W`) of the tasks waiting for it.
pub struct AsyncCell<T, W> {
    wakers: W,
    cell: RwCell<T>,
}

/// A request for a read borrow of an [`AsyncCell`].
pub struct AsyncReadFuture {
    stage: RequestStage,
}

/// A request for the write borrow of an [`AsyncCell`].
pub struct AsyncWriteFuture {
    stage: RequestStage,
}

/// A read borrow of an [`AsyncCell`], handed out by a successful poll.
pub struct AsyncRead {
    guard: RwRead,
}

/// The write borrow of an [`AsyncCell`], handed out by a successful poll.
pub struct AsyncWrite {
    guard: RwWrite,
}

/// Whether giving back a read borrow at counter `c` must wake a waiting task:
/// only where it was the last one, as only a writer waits on readers.
pub open spec fn wakes_after_unread(c: u16) -> bool {
    after_unread(c) == 0
}

impl<T, W> AsyncCell<T, W> {
    /// The borrow-counted cell inside.
    pub closed spec fn cell(&self) -> RwCell<T> {
        self.cell
    }

    /// The queue of wakers.
    pub closed spec fn wakers(&self) -> W {
        self.wakers
    }

    /// A cell holding `inner`, unborrowed, with an empty waker queue.
    pub fn new(inner: T) -> (r: Self)
        where
            W: Default,
        ensures
            r.cell().state() == 0,
            r.cell().value() == inner,
    {
        Self::from_cell(RwCell::new(inner))
    }

    /// Wraps `cell`, with an empty waker queue.
    pub fn from_cell(cell: RwCell<T>) -> (r: Self)
        where
            W: Default,
        ensures
            r.cell() == cell,
    {
        Self::from_parts(cell, W::default())
    }

    /// Wraps `cell` beside the waker queue `wakers`.
    pub fn from_parts(cell: RwCell<T>, wakers: W) -> (r: Self)
        ensures
            r.cell() == cell,
            r.wakers() == wakers,
    {
        AsyncCell { wakers, cell }
    }

    /// The borrow-counted cell, for use without a scheduler.
    pub fn cell_ref(&self) -> (r: &RwCell<T>)
        ensures
            *r == self.cell(),
    {
        &self.cell
    }

    /// Exclusive access to the borrow-counted cell.
    pub fn cell_mut(&mut self) -> (r: &mut RwCell<T>)
        ensures
            *r == old(self).cell(),
            final(self).cell() == *final(r),
            final(self).wakers() == old(self).wakers(),
    {
        &mut self.cell
    }

    /// The queue of wakers: a refused poll registers its task here, and a
    /// release that can unblock a waiter wakes it from here.
    pub fn wakers_ref(&self) -> (r: &W)
        ensures
            *r == self.wakers(),
    {
        &self.wakers
    }

    /// A new request for a read borrow.
    pub fn async_read(&self) -> (r: AsyncReadFuture)
        ensures
            r.request_stage() == RequestStage::Unstarted,
    {
        AsyncReadFuture { stage: RequestStage::Unstarted }
    }

    /// A new request for the write borrow.
    pub fn async_write(&self) -> (r: AsyncWriteFuture)
        ensures
            r.request_stage() == RequestStage::Unstarted,
    {
        AsyncWriteFuture { stage: RequestStage::Unstarted }
    }

    /// Tries to take a read borrow for a waiting task. On `Pending` nothing
    /// has changed and the task's waker is to be registered.
    pub fn poll_read(&mut self) -> (r: Acquire<AsyncRead>)
        ensures
            r is Ready <==> can_read(old(self).cell().state()),
            final(self).cell().state() == after_read(old(self).cell().state()),
            final(self).cell().value() == old(self).cell().value(),
            final(self).wakers() == old(self).wakers(),
    {
        match self.cell.try_read() {
            Some(guard) => Acquire::Ready(AsyncRead { guard }),
            None => Acquire::Pending,
        }
    }

    /// Tries to take the write borrow for a waiting task. On `Pending` nothing
    /// has changed and the task's waker is to be registered.
    pub fn poll_write(&mut self) -> (r: Acquire<AsyncWrite>)
        ensures
            r is Ready <==> can_write(old(self).cell().state()),
            final(self).cell().state() == after_write(old(self).cell().state()),
            final(self).cell().value() == old(self).cell().value(),
            final(self).wakers() == old(self).wakers(),
    {
        match self.cell.try_write() {
            Some(guard) => Acquire::Ready(AsyncWrite { guard }),
            None => Acquire::Pending,
        }
    }

    /// Gives back the read borrow of `guard`, and tells whether a waiting
    /// task is to be woken: where no reader is left.
    pub fn drop_read(&mut self, guard: AsyncRead) -> (wake: bool)
        requires
            can_unread(old(self).cell().state()),
        ensures
            final(self).cell().state() == old(self).cell().state() - 1,
            final(self).cell().value() == old(self).cell().value(),
            final(self).wakers() == old(self).wakers(),
            wake == wakes_after_unread(old(self).cell().state()),
    {
        self.cell.drop_read(guard.guard);
        match self.cell.readers() {
            Some(0) => true,
            _ => false,
        }
    }

    /// Gives back the write borrow of `guard`; a waiting task is always to be
    /// woken, as readers and writers alike may now proceed.
    pub fn drop_write(&mut self, guard: AsyncWrite) -> (wake: bool)
        requires
            old(self).cell().state() == RW_WRITE,
        ensures
            final(self).cell().state() == 0,
            final(self).cell().value() == old(self).cell().value(),
            final(self).wakers() == old(self).wakers(),
            wake,
    {
        self.cell.drop_write(guard.guard);
        true
    }

    /// Shared access to the value under a read borrow.
    pub fn read_ref(&self, guard: &AsyncRead) -> (r: &T)
        ensures
            *r == self.cell().value(),
    {
        self.cell.read_ref(&guard.guard)
    }

    /// Shared access to the value under the write borrow.
    pub fn write_ref(&self, guard: &AsyncWrite) -> (r: &T)
        ensures
            *r == self.cell().value(),
    {
        self.cell.write_ref(&guard.guard)
    }

    /// Exclusive access to the value under the write borrow.
    pub fn write_mut(&mut self, guard: &AsyncWrite) -> (r: &mut T)
        ensures
            *r == old(self).cell().value(),
            final(self).cell().value() == *final(r),
            final(self).cell().state() == old(self).cell().state(),
            final(self).wakers() == old(self).wakers(),
    {
        self.cell.write_mut(&guard.guard)
    }
}

impl<T: Default, W: Default> Default for AsyncCell<T, W> {
    /// An unborrowed cell holding the default value of `T`, with an empty
    /// waker queue.
    fn default() -> (r: Self)
        ensures
            r.cell().state() == 0,
    {
        Self::new(T::default())
    }
}

impl AsyncReadFuture {
    /// Where the request stands.
    pub closed spec fn request_stage(&self) -> RequestStage {
        self.stage
    }

    /// Where the request stands.
    pub fn stage(&self) -> (r: RequestStage)
        ensures
            r == self.request_stage(),
    {
        self.stage
    }

    /// Polls the request on `cell`: it is satisfied with the guard where a
    /// read borrow can be taken, and waits otherwise.
    pub fn poll<T, W>(&mut self, cell: &mut AsyncCell<T, W>) -> (r: Acquire<AsyncRead>)
        requires
            old(self).request_stage() != RequestStage::Satisfied,
        ensures
            r is Ready <==> can_read(old(cell).cell().state()),
            final(self).request_stage() == (if r is Ready {
                RequestStage::Satisfied
            } else {
                RequestStage::Waiting
            }),
            final(cell).cell().state() == after_read(old(cell).cell().state()),
            final(cell).cell().value() == old(cell).cell().value(),
            final(cell).wakers() == old(cell).wakers(),
    {
        let r = cell.poll_read();
        self.stage = match r {
            Acquire::Ready(_) => RequestStage::Satisfied,
            Acquire::Pending => RequestStage::Waiting,
        };
        r
    }
}

impl AsyncWriteFuture {
    /// Where the request stands.
    pub closed spec fn request_stage(&self) -> RequestStage {
        self.stage
    }

    /// Where the request stands.
    pub fn stage(&self) -> (r: RequestStage)
        ensures
            r == self.request_stage(),
    {
        self.stage
    }

    /// Polls the request on `cell`: it is satisfied with the guard where the
    /// write borrow can be taken, and waits otherwise.
    pub fn poll<T, W>(&mut self, cell: &mut AsyncCell<T, W>) -> (r: Acquire<AsyncWrite>)
        requires
            old(self).request_stage() != RequestStage::Satisfied,
        ensures
            r is Ready <==> can_write(old(cell).cell().state()),
            final(self).request_stage() == (if r is Ready {
                RequestStage::Satisfied
            } else {
                RequestStage::Waiting
            }),
            final(cell).cell().state() == after_write(old(cell).cell().state()),
            final(cell).cell().value() == old(cell).cell().value(),
            final(cell).wakers() == old(cell).wakers(),
    {
        let r = cell.poll_write();
        self.stage = match r {
            Acquire::Ready(_) => RequestStage::Satisfied,
            Acquire::Pending => RequestStage::Waiting,
        };
        r
    }
}

/// A refused poll changes nothing, so a request that is dropped before it is
/// satisfied leaves the counter as it found it, and a borrow that could be
/// taken before can still be taken.
pub proof fn lemma_refused_poll_changes_nothing(c: u16)
    ensures
        !can_read(c) ==> after_read(c) == c,
        !can_write(c) ==> after_write(c) == c,
        !can_write(c) ==> (can_read(after_write(c)) == can_read(c)),
{
}

/// Giving back a read borrow wakes a waiting task exactly where a waiting
/// writer can then take the write borrow.
pub proof fn lemma_read_release_wakes_writers(c: u16)
    requires
        can_unread(c),
    ensures
        wakes_after_unread(c) <==> can_write(after_unread(c)),
{
}

} // verus!
