use vstd::prelude::*;

verus! {

/// Why the descriptor table refused an operation.
#[derive(Debug, Clone, Copy, PartialEq, Eq, Structural)]
pub enum IoError {
    /// Every slot up to the table's limit is taken.
    TooManyOpenFiles,
    /// The descriptor is not open.
    BadDescriptor,
}

/// A descriptor table: slot `i` holds the open file description that
/// descriptor `i` refers to, or `None` when `i` is closed.
pub struct FdTable {
    slots: Vec<Option<u64>>,
    limit: usize,
}

/// An owned descriptor. It cannot be copied: a second owner is only ever
/// made by `try_clone`, which takes a new slot in the table.
#[derive(Debug)]
pub struct MyOwnedFd {
    fd: usize,
}

pub open spec fn slot_open(s: Seq<Option<u64>>, fd: int) -> bool {
    0 <= fd < s.len() && s[fd] is Some
}

/// The lowest closed descriptor of `s`, or `s.len()` when all are open.
pub open spec fn lowest_free(s: Seq<Option<u64>>, fd: int) -> bool {
    &&& 0 <= fd <= s.len()
    &&& fd < s.len() ==> s[fd] is None
    &&& forall|j: int| 0 <= j < fd ==> #[trigger] s[j] is Some
}

/// `s` with descriptor `fd` (the lowest free one) now referring to `file`.
pub open spec fn occupy(s: Seq<Option<u64>>, fd: int, file: u64) -> Seq<Option<u64>> {
    if fd < s.len() {
        s.update(fd, Some(file))
    } else {
        s.push(Some(file))
    }
}

/// `s` after closing descriptor `fd`.
pub open spec fn released(s: Seq<Option<u64>>, fd: int) -> Seq<Option<u64>> {
    s.update(fd, None)
}

/// Whether `s` has no free slot left under `limit`.
pub open spec fn full(s: Seq<Option<u64>>, limit: nat) -> bool {
    &&& s.len() >= limit
    &&& forall|j: int| 0 <= j < s.len() ==> #[trigger] s[j] is Some
}

/// Descriptor `d` of `after` is a duplicate of descriptor `o` of `before`: a
/// new descriptor on the same open file, everything else unchanged.
pub open spec fn duplicated(before: Seq<Option<u64>>, o: int, after: Seq<Option<u64>>, d: int) -> bool {
    &&& slot_open(before, o)
    &&& d != o
    &&& lowest_free(before, d)
    &&& after == occupy(before, d, before[o]->Some_0)
}

impl FdTable {
    pub closed spec fn view(&self) -> Seq<Option<u64>> {
        self.slots@
    }

    pub closed spec fn limit(&self) -> nat {
        self.limit as nat
    }

    pub open spec fn wf(&self) -> bool {
        self@.len() <= self.limit()
    }

    pub open spec fn is_open(&self, fd: &MyOwnedFd) -> bool {
        slot_open(self@, fd.fd())
    }

    /// An empty table that holds at most `limit` descriptors.
    pub fn new(limit: usize) -> (r: FdTable)
        ensures
            r.wf(),
            r@ == Seq::<Option<u64>>::empty(),
            r.limit() == limit,
    {
        FdTable { slots: Vec::new(), limit }
    }

    /// Takes the lowest free descriptor for `file`.
    fn allocate(&mut self, file: u64) -> (r: Result<usize, IoError>)
        requires
            old(self).wf(),
        ensures
            final(self).wf(),
            final(self).limit() == old(self).limit(),
            full(old(self)@, old(self).limit()) <==> r is Err,
            count_open(old(self)@) >= old(self).limit() <==> r is Err,
            r is Err ==> r == Err::<usize, IoError>(IoError::TooManyOpenFiles) && final(self)@ == old(self)@,
            r is Ok ==> lowest_free(old(self)@, r->Ok_0 as int)
                && final(self)@ == occupy(old(self)@, r->Ok_0 as int, file)
                && count_open(final(self)@) == count_open(old(self)@) + 1,
    {
        proof {
            lemma_full_iff_count(self.slots@, self.limit as nat);
        }
        let mut i: usize = 0;
        while i < self.slots.len()
            invariant
                0 <= i <= self.slots@.len(),
                self.slots@ == old(self).slots@,
                self.limit == old(self).limit,
                self.slots@.len() <= self.limit,
                forall|j: int| 0 <= j < i ==> #[trigger] self.slots@[j] is Some,
            decreases self.slots@.len() - i,
        {
            if self.slots[i].is_none() {
                self.slots.set(i, Some(file));
                proof {
                    lemma_count_occupy(old(self).slots@, i as int, file);
                    lemma_full_iff_count(old(self).slots@, old(self).limit as nat);
                }
                return Ok(i);
            }
            i = i + 1;
        }
        if self.slots.len() < self.limit {
            self.slots.push(Some(file));
            proof {
                lemma_count_occupy(old(self).slots@, i as int, file);
            }
            Ok(i)
        } else {
            Err(IoError::TooManyOpenFiles)
        }
    }

    /// Acquires a descriptor for a newly opened file.
    pub fn open(&mut self, file: u64) -> (r: Result<MyOwnedFd, IoError>)
        requires
            old(self).wf(),
        ensures
            final(self).wf(),
            final(self).limit() == old(self).limit(),
            full(old(self)@, old(self).limit()) <==> r is Err,
            count_open(old(self)@) >= old(self).limit() <==> r is Err,
            r is Err ==> r == Err::<MyOwnedFd, IoError>(IoError::TooManyOpenFiles) && final(self)@ == old(self)@,
            r is Ok ==> lowest_free(old(self)@, r->Ok_0.fd())
                && final(self)@ == occupy(old(self)@, r->Ok_0.fd(), file)
                && final(self).is_open(&r->Ok_0)
                && count_open(final(self)@) == count_open(old(self)@) + 1,
    {
        match self.allocate(file) {
            Ok(fd) => Ok(MyOwnedFd { fd }),
            Err(e) => Err(e),
        }
    }

    /// The open file that `fd` refers to, if it is open.
    pub fn file_of(&self, fd: &MyOwnedFd) -> (r: Option<u64>)
        ensures
            self.is_open(fd) ==> r == self@[fd.fd()],
            !self.is_open(fd) ==> r is None,
    {
        if fd.fd < self.slots.len() {
            self.slots[fd.fd]
        } else {
            None
        }
    }

    /// Writes through `fd`: succeeds exactly when it is open.
    pub fn write(&self, fd: &MyOwnedFd) -> (r: Result<(), IoError>)
        ensures
            self.is_open(fd) <==> r is Ok,
            !self.is_open(fd) ==> r == Err::<(), IoError>(IoError::BadDescriptor),
    {
        match self.file_of(fd) {
            Some(_) => Ok(()),
            None => Err(IoError::BadDescriptor),
        }
    }

    /// Closes every descriptor numbered `first` or above, as is done before
    /// exec so that only the standard streams and the preserved descriptors
    /// reach the workload.
    pub fn close_from(&mut self, first: usize)
        requires
            old(self).wf(),
        ensures
            final(self).wf(),
            final(self).limit() == old(self).limit(),
            final(self)@.len() == old(self)@.len(),
            forall|j: int| 0 <= j < first && j < old(self)@.len() ==> #[trigger] final(self)@[j] == old(self)@[j],
            forall|j: int| first <= j < old(self)@.len() ==> #[trigger] final(self)@[j] is None,
    {
        let mut i: usize = first;
        while i < self.slots.len()
            invariant
                self.slots@.len() == old(self).slots@.len(),
                self.limit == old(self).limit,
                forall|j: int| 0 <= j < first && j < self.slots@.len() ==> #[trigger] self.slots@[j] == old(self).slots@[j],
                forall|j: int| first <= j < i && j < self.slots@.len() ==> #[trigger] self.slots@[j] is None,
                forall|j: int| i <= j < self.slots@.len() ==> #[trigger] self.slots@[j] == old(self).slots@[j],
                first <= i,
            decreases self.slots@.len() - i,
        {
            self.slots.set(i, None);
            i = i + 1;
        }
    }

    /// The number of open descriptors.
    pub fn open_count(&self) -> (r: usize)
        ensures
            r == count_open(self@),
    {
        let mut n: usize = 0;
        let mut i: usize = 0;
        while i < self.slots.len()
            invariant
                0 <= i <= self.slots@.len(),
                n == count_open(self.slots@.take(i as int)),
                n <= i,
            decreases self.slots@.len() - i,
        {
            assert(self.slots@.take(i + 1).drop_last() == self.slots@.take(i as int));
            if self.slots[i].is_some() {
                n = n + 1;
            }
            i = i + 1;
        }
        assert(self.slots@.take(i as int) == self.slots@);
        n
    }
}

/// How many descriptors of `s` are open.
pub open spec fn count_open(s: Seq<Option<u64>>) -> nat
    decreases s.len(),
{
    if s.len() == 0 {
        0
    } else {
        count_open(s.drop_last()) + if s.last() is Some { 1nat } else { 0nat }
    }
}

/// Setting one slot changes the count by what left and what came in.
pub proof fn lemma_count_update(s: Seq<Option<u64>>, i: int, v: Option<u64>)
    requires
        0 <= i < s.len(),
    ensures
        count_open(s.update(i, v)) + (if s[i] is Some { 1int } else { 0int }) == count_open(s) + (if v is Some {
            1int
        } else {
            0int
        }),
    decreases s.len(),
{
    let u = s.update(i, v);
    if i == s.len() - 1 {
        assert(u.drop_last() =~= s.drop_last());
    } else {
        assert(u.drop_last() =~= s.drop_last().update(i, v));
        lemma_count_update(s.drop_last(), i, v);
    }
}

/// At most every slot is open, and all are exactly when none is free.
pub proof fn lemma_count_bound(s: Seq<Option<u64>>)
    ensures
        count_open(s) <= s.len(),
        count_open(s) == s.len() <==> forall|j: int| 0 <= j < s.len() ==> #[trigger] s[j] is Some,
    decreases s.len(),
{
    if s.len() > 0 {
        lemma_count_bound(s.drop_last());
        if count_open(s) == s.len() {
            assert forall|j: int| 0 <= j < s.len() implies #[trigger] s[j] is Some by {
                if j < s.len() - 1 {
                    assert(s.drop_last()[j] == s[j]);
                }
            }
        }
        if forall|j: int| 0 <= j < s.len() ==> #[trigger] s[j] is Some {
            assert forall|j: int| 0 <= j < s.drop_last().len() implies #[trigger] s.drop_last()[j] is Some by {
                assert(s.drop_last()[j] == s[j]);
            }
        }
    }
}

/// The table is full exactly when `limit` descriptors are open.
pub proof fn lemma_full_iff_count(s: Seq<Option<u64>>, limit: nat)
    requires
        s.len() <= limit,
    ensures
        full(s, limit) <==> count_open(s) >= limit,
{
    lemma_count_bound(s);
}

/// Occupying the lowest free slot opens one more descriptor.
pub proof fn lemma_count_occupy(s: Seq<Option<u64>>, fd: int, file: u64)
    requires
        lowest_free(s, fd),
    ensures
        count_open(occupy(s, fd, file)) == count_open(s) + 1,
{
    if fd < s.len() {
        lemma_count_update(s, fd, Some(file));
    } else {
        assert(s.push(Some(file)).drop_last() =~= s);
    }
}

impl MyOwnedFd {
    pub closed spec fn fd(&self) -> int {
        self.fd as int
    }

    /// The descriptor number.
    pub fn raw(&self) -> (r: usize)
        ensures
            r == self.fd(),
    {
        self.fd
    }

    /// Duplicates the descriptor: the result owns a new slot on the same
    /// open file, so closing either leaves the other usable.
    pub fn try_clone(&self, table: &mut FdTable) -> (r: Result<MyOwnedFd, IoError>)
        requires
            old(table).wf(),
            old(table).is_open(self),
        ensures
            final(table).wf(),
            final(table).limit() == old(table).limit(),
            full(old(table)@, old(table).limit()) <==> r is Err,
            count_open(old(table)@) >= old(table).limit() <==> r is Err,
            r is Err ==> r == Err::<MyOwnedFd, IoError>(IoError::TooManyOpenFiles) && final(table)@ == old(table)@,
            r is Ok ==> duplicated(old(table)@, self.fd(), final(table)@, r->Ok_0.fd())
                && final(table).is_open(&r->Ok_0)
                && count_open(final(table)@) == count_open(old(table)@) + 1,
    {
        let file = table.slots[self.fd].unwrap();
        match table.allocate(file) {
            Ok(fd) => Ok(MyOwnedFd { fd }),
            Err(e) => Err(e),
        }
    }

    /// Closes the descriptor.
    pub fn release(self, table: &mut FdTable)
        requires
            old(table).wf(),
            old(table).is_open(&self),
        ensures
            final(table).wf(),
            final(table).limit() == old(table).limit(),
            final(table)@ == released(old(table)@, self.fd()),
            count_open(final(table)@) + 1 == count_open(old(table)@),
    {
        proof {
            lemma_count_update(table.slots@, self.fd as int, None);
        }
        table.slots.set(self.fd, None);
    }
}

/// Closing the original after a duplication leaves the duplicate open, on the
/// same file, and nothing else changed but the original's slot.
pub proof fn lemma_duplicate_outlives_original(
    before: Seq<Option<u64>>,
    o: int,
    after: Seq<Option<u64>>,
    d: int,
)
    requires
        duplicated(before, o, after, d),
    ensures
        slot_open(released(after, o), d),
        released(after, o)[d] == before[o],
        !slot_open(released(after, o), o),
{
}

} // verus!
