use vstd::prelude::*;

verus! {

/// The integer type of the borrow counter.
pub type RwCount = u16;

/// The counter value that marks an outstanding write borrow.
pub const RW_WRITE: RwCount = 0xffff;

/// Whether a read borrow can be taken at counter value `c`: the counter must
/// neither hold the write sentinel nor reach it by the increment.
pub open spec fn can_read(c: RwCount) -> bool {
    c < RW_WRITE - 1
}

/// Whether a write borrow can be taken at counter value `c`.
pub open spec fn can_write(c: RwCount) -> bool {
    c == 0
}

/// Whether `c` counts outstanding read borrows that a release can give back.
pub open spec fn can_unread(c: RwCount) -> bool {
    c != 0 && c != RW_WRITE
}

/// The counter after an attempt to take a read borrow.
pub open spec fn after_read(c: RwCount) -> RwCount {
    if can_read(c) { (c + 1) as RwCount } else { c }
}

/// The counter after an attempt to give a read borrow back.
pub open spec fn after_unread(c: RwCount) -> RwCount {
    if can_unread(c) { (c - 1) as RwCount } else { c }
}

/// The counter after an attempt to take the write borrow.
pub open spec fn after_write(c: RwCount) -> RwCount {
    if can_write(c) { RW_WRITE } else { c }
}

/// The read count that `c` stands for, or `None` while the write borrow is held.
pub open spec fn readers_of(c: RwCount) -> Option<RwCount> {
    if c == RW_WRITE { None } else { Some(c) }
}

/// A value together with a counter of its outstanding borrows.
#[derive(Debug)]
pub struct RwCell<T> {
    count: RwCount,
    inner: T,
}

/// Proof of one outstanding read borrow, handed out by a successful read
/// acquisition. Handing it back to the cell releases the borrow.
pub struct RwRead {
    _borrow: (),
}

/// Proof of the outstanding write borrow, handed out by a successful write
/// acquisition. Handing it back to the cell releases the borrow.
pub struct RwWrite {
    _borrow: (),
}

impl<T> RwCell<T> {
    /// The borrow counter.
    pub closed spec fn state(&self) -> RwCount {
        self.count
    }

    /// The wrapped value.
    pub closed spec fn value(&self) -> T {
        self.inner
    }

    /// A new cell holding `value`, with no borrow outstanding.
    pub fn new(value: T) -> (r: Self)
        ensures
            r.state() == 0,
            r.value() == value,
    {
        RwCell { count: 0, inner: value }
    }

    /// Takes a read borrow where one can be taken; the counter is left alone
    /// otherwise.
    pub(crate) fn acquire_read(&mut self) -> (r: bool)
        ensures
            r == can_read(old(self).state()),
            final(self).state() == after_read(old(self).state()),
            final(self).value() == old(self).value(),
    {
        if self.count < RW_WRITE - 1 {
            self.count = self.count + 1;
            true
        } else {
            false
        }
    }

    /// Gives one read borrow back. Returns false, and changes nothing, where
    /// the counter holds no read borrow.
    pub(crate) fn release_read(&mut self) -> (r: bool)
        ensures
            r == can_unread(old(self).state()),
            final(self).state() == after_unread(old(self).state()),
            final(self).value() == old(self).value(),
    {
        if self.count == 0 || self.count == RW_WRITE {
            false
        } else {
            self.count = self.count - 1;
            true
        }
    }

    /// Takes the write borrow where the cell is unborrowed.
    pub(crate) fn acquire_write(&mut self) -> (r: bool)
        ensures
            r == can_write(old(self).state()),
            final(self).state() == after_write(old(self).state()),
            final(self).value() == old(self).value(),
    {
        if self.count == 0 {
            self.count = RW_WRITE;
            true
        } else {
            false
        }
    }

    /// Resets the counter to unborrowed, and tells whether the write borrow
    /// was held.
    pub(crate) fn release_write(&mut self) -> (r: bool)
        ensures
            r == (old(self).state() == RW_WRITE),
            final(self).state() == 0,
            final(self).value() == old(self).value(),
    {
        let count = self.count;
        self.count = 0;
        count == RW_WRITE
    }

    /// The number of outstanding read borrows, or `None` while the write
    /// borrow is held.
    pub fn readers(&self) -> (r: Option<RwCount>)
        ensures
            r == readers_of(self.state()),
    {
        if self.count == RW_WRITE {
            None
        } else {
            Some(self.count)
        }
    }

    /// Takes a read borrow and hands out its guard, or `None` where a read
    /// borrow cannot be taken (the write borrow is held, or the read count is
    /// at its limit).
    pub fn try_read(&mut self) -> (r: Option<RwRead>)
        ensures
            r is Some <==> can_read(old(self).state()),
            final(self).state() == after_read(old(self).state()),
            final(self).value() == old(self).value(),
    {
        if self.acquire_read() {
            Some(RwRead { _borrow: () })
        } else {
            None
        }
    }

    /// Takes the write borrow and hands out its guard, or `None` where any
    /// borrow is outstanding.
    pub fn try_write(&mut self) -> (r: Option<RwWrite>)
        ensures
            r is Some <==> can_write(old(self).state()),
            final(self).state() == after_write(old(self).state()),
            final(self).value() == old(self).value(),
    {
        if self.acquire_write() {
            Some(RwWrite { _borrow: () })
        } else {
            None
        }
    }

    /// Gives back the read borrow that `guard` stands for.
    pub fn drop_read(&mut self, guard: RwRead)
        requires
            can_unread(old(self).state()),
        ensures
            final(self).state() == old(self).state() - 1,
            final(self).value() == old(self).value(),
    {
        let _unread = self.release_read();
    }

    /// Gives back the write borrow that `guard` stands for: the cell is
    /// unborrowed afterwards.
    pub fn drop_write(&mut self, guard: RwWrite)
        requires
            old(self).state() == RW_WRITE,
        ensures
            final(self).state() == 0,
            final(self).value() == old(self).value(),
    {
        let _unwrite = self.release_write();
    }

    /// Shared access to the value under a read borrow.
    pub fn read_ref(&self, guard: &RwRead) -> (r: &T)
        ensures
            *r == self.value(),
    {
        &self.inner
    }

    /// Shared access to the value under the write borrow.
    pub fn write_ref(&self, guard: &RwWrite) -> (r: &T)
        ensures
            *r == self.value(),
    {
        &self.inner
    }

    /// Exclusive access to the value under the write borrow. The counter is
    /// left as it is.
    pub fn write_mut(&mut self, guard: &RwWrite) -> (r: &mut T)
        ensures
            *r == old(self).value(),
            final(self).value() == *final(r),
            final(self).state() == old(self).state(),
    {
        &mut self.inner
    }

    /// Exclusive access to the value through exclusive access to the whole
    /// cell, whatever the counter says. The counter is left as it is.
    pub fn get_mut(&mut self) -> (r: &mut T)
        ensures
            *r == old(self).value(),
            final(self).value() == *final(r),
            final(self).state() == old(self).state(),
    {
        &mut self.inner
    }

    /// Shared access to the value without looking at the counter.
    pub fn get_ref_unchecked(&self) -> (r: &T)
        ensures
            *r == self.value(),
    {
        &self.inner
    }

    /// Exclusive access to the value without looking at the counter. The
    /// counter is left as it is.
    pub fn get_mut_unchecked(&mut self) -> (r: &mut T)
        ensures
            *r == old(self).value(),
            final(self).value() == *final(r),
            final(self).state() == old(self).state(),
    {
        &mut self.inner
    }

    /// Runs `f` on the value under a read borrow that is given back before
    /// returning, or returns `None` where no read borrow can be taken.
    pub fn try_read_scope<F: FnOnce(&T) -> R, R>(&mut self, f: F) -> (r: Option<R>)
        requires
            can_read(old(self).state()) ==> f.requires((&old(self).value(),)),
        ensures
            r is Some <==> can_read(old(self).state()),
            r matches Some(v) ==> f.ensures((&old(self).value(),), v),
            final(self).state() == old(self).state(),
            final(self).value() == old(self).value(),
    {
        match self.try_read() {
            Some(guard) => {
                let v = f(self.read_ref(&guard));
                self.drop_read(guard);
                Some(v)
            },
            None => None,
        }
    }
    /// Runs `f` on the value under the write borrow, which is given back
    /// before returning, or returns `None` where any borrow is outstanding.
    pub fn try_write_scope<F: FnOnce(&mut T) -> R, R>(&mut self, f: F) -> (r: Option<R>)
        requires
            can_write(old(self).state()) ==> forall|v: &mut T| f.requires((v,)),
        ensures
            r is Some <==> can_write(old(self).state()),
            r is None ==> final(self).value() == old(self).value(),
            r matches Some(x) ==> exists|m: &mut T|
                *m == old(self).value() && f.ensures((m,), x) && *final(m) == final(self).value(),
            final(self).state() == old(self).state(),
    {
        match self.try_write() {
            Some(guard) => {
                let v = f(self.write_mut(&guard));
                self.drop_write(guard);
                Some(v)
            },
            None => None,
        }
    }
}

impl<T: Default> Default for RwCell<T> {
    /// An unborrowed cell holding the default value of `T`.
    fn default() -> (r: Self)
        ensures
            r.state() == 0,
    {
        Self::new(T::default())
    }
}

impl RwRead {
    /// A second read guard on the same cell: takes one more read borrow.
    pub fn rw_clone<T>(&self, cell: &mut RwCell<T>) -> (r: Self)
        requires
            can_unread(old(cell).state()),
            can_read(old(cell).state()),
        ensures
            final(cell).state() == old(cell).state() + 1,
            final(cell).value() == old(cell).value(),
    {
        let _read = cell.acquire_read();
        RwRead { _borrow: () }
    }
}

/// One step of a history of read borrows, from counter `c` with `held` read
/// guards outstanding: `true` asks for a read borrow, `false` hands one guard
/// back where one is held.
pub open spec fn read_step(c: RwCount, held: nat, op: bool) -> (RwCount, nat) {
    if op {
        if can_read(c) { (after_read(c), held + 1) } else { (c, held) }
    } else {
        if held > 0 { (after_unread(c), (held - 1) as nat) } else { (c, held) }
    }
}

/// The counter and the number of outstanding read guards after the history
/// `ops` of read borrows, started at counter `c` with `held` guards.
pub open spec fn read_run(c: RwCount, held: nat, ops: Seq<bool>) -> (RwCount, nat)
    decreases ops.len(),
{
    if ops.len() == 0 {
        (c, held)
    } else {
        let next = read_step(c, held, ops[0]);
        read_run(next.0, next.1, ops.drop_first())
    }
}

/// Along any history of read acquisitions and releases with no write in
/// between, the counter equals the number of read guards still held.
pub proof fn lemma_read_count_is_guards_held(c: RwCount, held: nat, ops: Seq<bool>)
    requires
        c as nat == held,
        c != RW_WRITE,
    ensures
        read_run(c, held, ops).0 as nat == read_run(c, held, ops).1,
        read_run(c, held, ops).0 != RW_WRITE,
    decreases ops.len(),
{
    if ops.len() > 0 {
        let next = read_step(c, held, ops[0]);
        lemma_read_count_is_guards_held(next.0, next.1, ops.drop_first());
    }
}

/// A write borrow can be taken exactly where no read borrow and no write
/// borrow is outstanding; once it is taken, neither a read nor a write borrow
/// can be taken until it is given back.
pub proof fn lemma_write_is_exclusive(c: RwCount)
    ensures
        can_write(c) <==> readers_of(c) == Some(0u16),
        can_write(c) ==> !can_read(after_write(c)),
        can_write(c) ==> !can_write(after_write(c)),
        can_write(c) ==> readers_of(after_write(c)) is None,
{
}

/// Giving back a read borrow leaves the read count one lower; giving back the
/// write borrow leaves the cell unborrowed, so that any borrow can be taken.
pub proof fn lemma_release_restores(c: RwCount)
    ensures
        can_unread(c) ==> readers_of(after_unread(c)) == Some((c - 1) as RwCount),
        can_read(c) ==> after_unread(after_read(c)) == c,
        can_write(c) ==> can_read(0) && can_write(0),
{
}

/// A cloned read guard counts one more read borrow, and each of the two
/// guards gives back one borrow of its own.
pub proof fn lemma_clone_is_independent(c: RwCount)
    requires
        can_unread(c),
        can_read(c),
    ensures
        after_read(c) == c + 1,
        can_unread(after_read(c)),
        after_unread(after_read(c)) == c,
        can_unread(after_unread(after_read(c))),
        after_unread(after_unread(after_read(c))) == c - 1,
{
}

/// At the read limit a further read acquisition fails and leaves the counter
/// alone, so it never turns into the write sentinel, and the reads held can
/// all still be given back.
pub proof fn lemma_read_limit(c: RwCount)
    ensures
        c != RW_WRITE ==> after_read(c) != RW_WRITE,
        !can_read((RW_WRITE - 1) as RwCount),
        after_read((RW_WRITE - 1) as RwCount) == RW_WRITE - 1,
        readers_of(after_read((RW_WRITE - 1) as RwCount)) == Some((RW_WRITE - 1) as RwCount),
        can_unread((RW_WRITE - 1) as RwCount),
        after_unread((RW_WRITE - 1) as RwCount) == RW_WRITE - 2,
{
}

} // verus!
