//! Heap collections whose storage is obtained from an allocator: a growable
//! vector, a first-in-first-out queue, a box, and a first-fit free-list
//! allocator.
use vstd::prelude::*;
use vstd::std_specs::cmp::PartialEqSpec;
use vstd::std_specs::cmp::PartialEqSpecImpl;

verus! {

/// What an allocator can fail with.
#[derive(Copy, Clone, Debug, PartialEq, Eq, Structural)]
pub enum Error {
    UnknownError,
    /// No free memory was found.
    AllocationError,
}

/// A source of heap memory for the collections.
pub trait Allocator {
    /// Whether `r` is an answer this allocator may give to a request for
    /// `size_to_alloc` values of `size_of_type` bytes each. Any answer may
    /// come unless an allocator states otherwise.
    closed spec fn allocation_answer(&self, size_of_type: usize, size_to_alloc: usize, r: Result<usize, Error>) -> bool {
        true
    }

    /// Whether `r` is an answer this allocator may give when the
    /// `size_to_dealloc` bytes at `addr` are given back. Any answer may come
    /// unless an allocator states otherwise.
    closed spec fn deallocation_answer(&self, addr: usize, size_to_dealloc: usize, r: Result<(), Error>) -> bool {
        true
    }

    /// Allocates room for `size_to_alloc` values of `size_of_type` bytes each
    /// and returns the address of the first byte.
    fn allocate(&self, size_of_type: usize, size_to_alloc: usize) -> (r: Result<usize, Error>)
        ensures
            self.allocation_answer(size_of_type, size_to_alloc, r),
    ;

    /// Gives back the `size_to_dealloc` bytes at `addr`.
    fn deallocate(&self, addr: usize, size_to_dealloc: usize) -> (r: Result<(), Error>)
        ensures
            self.deallocation_answer(addr, size_to_dealloc, r),
    ;
}

/// A growable array whose room is obtained from an allocator.
pub struct Vec<'a, T: Clone, A: Allocator + ?Sized = dyn Allocator> {
    items: std::vec::Vec<T>,
    capacity: usize,
    start_addr: usize,
    allocator: &'a A,
}

impl<'a, T: Clone, A: Allocator + ?Sized> View for Vec<'a, T, A> {
    type V = Seq<T>;

    /// The items, first to last.
    closed spec fn view(&self) -> Seq<T> {
        self.items@
    }
}

impl<'a, T: Clone, A: Allocator + ?Sized> Vec<'a, T, A> {
    /// The number of items the vector has room for.
    pub closed spec fn spec_capacity(&self) -> nat {
        self.capacity as nat
    }

    /// The address of the vector's room.
    pub closed spec fn spec_start_addr(&self) -> usize {
        self.start_addr
    }

    /// The allocator the room comes from.
    pub closed spec fn spec_allocator(&self) -> &'a A {
        self.allocator
    }

    /// Whether the room comes from `allocator`.
    pub open spec fn allocator_is(&self, allocator: &A) -> bool {
        self.spec_allocator() == allocator
    }

    /// Whether `r` is an answer the vector's allocator may give to a request
    /// for twice as much room as the vector has.
    pub open spec fn grow_answer(&self, r: Result<usize, Error>) -> bool {
        self.spec_allocator().allocation_answer(
            vstd::layout::size_of::<T>() as usize,
            (self.spec_capacity() * 2) as usize,
            r,
        )
    }

    /// Whether the vector draws its room from the same allocator as `other`.
    pub open spec fn same_allocator(&self, other: &Self) -> bool {
        self.spec_allocator() == other.spec_allocator()
    }

    /// Whether `r` is an answer the vector's allocator may give to a request
    /// for as much room as the vector has.
    pub open spec fn room_answer(&self, r: Result<usize, Error>) -> bool {
        self.spec_allocator().allocation_answer(vstd::layout::size_of::<T>() as usize, self.spec_capacity() as usize, r)
    }

    /// Whether `r` is an answer the vector's allocator may give when the
    /// vector's room is given back.
    pub open spec fn release_answer(&self, r: Result<(), Error>) -> bool {
        self.spec_allocator().deallocation_answer(
            self.spec_start_addr(),
            (self.spec_capacity() * vstd::layout::size_of::<T>()) as usize,
            r,
        )
    }

    /// The vector never holds more items than it has room for.
    pub closed spec fn wf(&self) -> bool {
        self.items.len() <= self.capacity
    }

    /// A well-formed vector holds no more items than it has room for.
    pub proof fn lemma_len_within_capacity(&self)
        requires
            self.wf(),
        ensures
            self@.len() <= self.spec_capacity(),
    {
    }

    /// Whether a push must first move the items to twice the room, and that
    /// the sizes involved fit in a `usize`.
    pub open spec fn push_defined(&self) -> bool {
        self@.len() >= self.spec_capacity() ==> {
            &&& 0 < self.spec_capacity()
            &&& self.spec_capacity() * 2 <= usize::MAX
            &&& self.spec_capacity() * vstd::layout::size_of::<T>() <= usize::MAX
        }
    }

    /// An empty vector with room for `capacity` items, or the allocator's error.
    pub fn with_capacity(capacity: usize, allocator: &'a A) -> (r: Result<Vec<'a, T, A>, Error>)
        ensures
            r matches Ok(v) ==> v.wf() && v@ == Seq::<T>::empty() && v.spec_capacity() == capacity,
            r matches Ok(v) ==> v.allocator_is(allocator),
            r matches Ok(v) ==> allocator.allocation_answer(
                vstd::layout::size_of::<T>() as usize,
                capacity,
                Ok(v.spec_start_addr()),
            ),
            r matches Err(e) ==> allocator.allocation_answer(vstd::layout::size_of::<T>() as usize, capacity, Err(e)),
    {
        match allocator.allocate(core::mem::size_of::<T>(), capacity) {
            Ok(addr) => Ok(Vec { items: std::vec::Vec::new(), capacity, start_addr: addr, allocator }),
            Err(e) => Err(e),
        }
    }

    /// Appends `item`. A full vector first moves to room for twice as many
    /// items; if the allocator fails there, the items stay as they were and
    /// its error is returned.
    pub fn push(&mut self, item: T) -> (r: Result<(), Error>)
        requires
            old(self).wf(),
            old(self).push_defined(),
        ensures
            final(self).wf(),
            old(self)@.len() < old(self).spec_capacity() ==> r is Ok && final(self).spec_capacity()
                == old(self).spec_capacity() && final(self).spec_start_addr() == old(self).spec_start_addr(),
            r is Ok ==> final(self)@ == old(self)@.push(item),
            r is Ok && old(self)@.len() >= old(self).spec_capacity() ==> {
                &&& final(self).spec_capacity() == 2 * old(self).spec_capacity()
                &&& old(self).grow_answer(Ok(final(self).spec_start_addr()))
                &&& old(self).release_answer(Ok(()))
            },
            r matches Err(e) ==> {
                &&& old(self)@.len() >= old(self).spec_capacity()
                &&& old(self).grow_answer(Err(e)) || (exists|a: usize| #[trigger] old(self).grow_answer(Ok(a)))
                    && old(self).release_answer(Err(e))
            },
            r is Err ==> final(self)@ == old(self)@ && final(self).spec_capacity() == old(self).spec_capacity()
                && final(self).spec_start_addr() == old(self).spec_start_addr(),
            final(self).same_allocator(old(self)),
    {
        if self.items.len() >= self.capacity {
            let new_size = self.capacity * 2;
            let old_size = self.capacity;
            let old_addr = self.start_addr;
            match self.allocator.allocate(core::mem::size_of::<T>(), new_size) {
                Ok(addr) => {
                    assert(old(self).grow_answer(Ok(addr)));
                    let give_back = old_size * core::mem::size_of::<T>();
                    assert(give_back == (old(self).spec_capacity() * vstd::layout::size_of::<T>()) as usize);
                    let answer = self.allocator.deallocate(old_addr, give_back);
                    assert(old(self).release_answer(answer));
                    if let Err(e) = answer {
                        return Err(e);
                    }
                    assert(answer->Ok_0 == ());
                    self.capacity = new_size;
                    self.start_addr = addr;
                },
                Err(e) => {
                    return Err(e);
                },
            }
        }
        self.items.push(item);
        Ok(())
    }

    /// Removes and returns the last item.
    pub fn pop(&mut self) -> (r: T)
        requires
            old(self).wf(),
            old(self)@.len() > 0,
        ensures
            final(self).wf(),
            r == old(self)@.last(),
            final(self)@ == old(self)@.drop_last(),
            final(self).spec_capacity() == old(self).spec_capacity(),
    {
        self.items.pop().unwrap()
    }

    /// Removes and returns the last item, or `None` when the vector is empty.
    pub fn try_pop(&mut self) -> (r: Option<T>)
        requires
            old(self).wf(),
        ensures
            final(self).wf(),
            final(self).spec_capacity() == old(self).spec_capacity(),
            old(self)@.len() == 0 ==> r is None && final(self)@ == old(self)@,
            old(self)@.len() > 0 ==> r == Some(old(self)@.last()) && final(self)@ == old(self)@.drop_last(),
    {
        if self.items.len() == 0 {
            None
        } else {
            Some(self.pop())
        }
    }

    /// Removes the item at `idx` and returns it; the later items move up.
    pub fn remove(&mut self, idx: usize) -> (r: T)
        requires
            old(self).wf(),
            idx < old(self)@.len(),
        ensures
            final(self).wf(),
            r == old(self)@[idx as int],
            final(self)@ == old(self)@.remove(idx as int),
            final(self).spec_capacity() == old(self).spec_capacity(),
    {
        self.items.remove(idx)
    }

    /// The number of items.
    pub fn len(&self) -> (r: usize)
        ensures
            r == self@.len(),
    {
        self.items.len()
    }

    /// The number of items the vector has room for.
    pub fn capacity(&self) -> (r: usize)
        ensures
            r == self.spec_capacity(),
    {
        self.capacity
    }

    /// The address of the vector's room.
    pub fn as_ptr(&self) -> (r: usize)
        ensures
            r == self.spec_start_addr(),
    {
        self.start_addr
    }

    /// The item at `idx`.
    pub fn get(&self, idx: usize) -> (r: &T)
        requires
            idx < self@.len(),
        ensures
            *r == self@[idx as int],
    {
        &self.items[idx]
    }

    /// Replaces the item at `idx`.
    pub fn set(&mut self, idx: usize, val: T)
        requires
            old(self).wf(),
            idx < old(self)@.len(),
        ensures
            final(self).wf(),
            final(self)@ == old(self)@.update(idx as int, val),
            final(self).spec_capacity() == old(self).spec_capacity(),
    {
        self.items.set(idx, val);
    }

    /// The items, first to last.
    pub fn as_slice(&self) -> (r: &[T])
        ensures
            r@ == self@,
    {
        self.items.as_slice()
    }

    /// An iterator over the items, first to last.
    pub fn iter(&self) -> (r: std::slice::Iter<'_, T>)
        ensures
            vstd::std_specs::iter::IteratorSpec::remaining(&r) == self@.as_ref(),
    {
        broadcast use vstd::std_specs::slice::axiom_spec_slice_iter;
        self.items.as_slice().iter()
    }

    /// A vector with the same room from the same allocator, holding clones
    /// of the items; the allocator's error if it has no room.
    pub fn clone(&self) -> (r: Result<Vec<'a, T, A>, Error>)
        requires
            self.wf(),
        ensures
            r matches Ok(v) ==> {
                &&& v.wf()
                &&& v.spec_capacity() == self.spec_capacity()
                &&& v.same_allocator(self)
                &&& self.room_answer(Ok(v.spec_start_addr()))
                &&& v@.len() == self@.len()
                &&& forall|i: int| 0 <= i < self@.len() ==> cloned::<T>(#[trigger] self@[i], v@[i])
            },
            r matches Err(e) ==> self.room_answer(Err(e)),
    {
        let addr = match self.allocator.allocate(core::mem::size_of::<T>(), self.capacity) {
            Ok(addr) => addr,
            Err(e) => {
                return Err(e);
            },
        };
        let mut new_vec: Vec<'a, T, A> = Vec {
            items: std::vec::Vec::new(),
            capacity: self.capacity,
            start_addr: addr,
            allocator: self.allocator,
        };
        let mut i: usize = 0;
        while i < self.items.len()
            invariant
                self.wf(),
                new_vec.wf(),
                i <= self@.len(),
                new_vec.spec_capacity() == self.spec_capacity(),
                new_vec.same_allocator(self),
                self.room_answer(Ok(new_vec.spec_start_addr())),
                new_vec@.len() == i,
                forall|j: int| 0 <= j < i ==> cloned::<T>(#[trigger] self@[j], new_vec@[j]),
            decreases self@.len() - i,
        {
            let item = self.items[i].clone();
            let res = new_vec.push(item);
            i = i + 1;
        }
        Ok(new_vec)
    }

    /// Gives the vector's room back to the allocator and returns its answer.
    pub fn release(self) -> (r: Result<(), Error>)
        requires
            self.spec_capacity() * vstd::layout::size_of::<T>() <= usize::MAX,
        ensures
            self.release_answer(r),
    {
        self.allocator.deallocate(self.start_addr, self.capacity * core::mem::size_of::<T>())
    }
}

impl<'a, T: Clone, A: Allocator + ?Sized> core::ops::Index<usize> for Vec<'a, T, A> {
    type Output = T;

    fn index(&self, idx: usize) -> (r: &T)
        ensures
            *r == self@[idx as int],
    {
        &self.items[idx]
    }
}

impl<'a, T: Clone, A: Allocator + ?Sized> vstd::std_specs::core::IndexSpecImpl<usize> for Vec<'a, T, A> {
    open spec fn index_req(&self, idx: &usize) -> bool {
        *idx < self@.len()
    }
}

/// The length of the shorter of two sequences.
pub open spec fn shorter_len<A, B>(a: Seq<A>, b: Seq<B>) -> int {
    if a.len() <= b.len() { a.len() as int } else { b.len() as int }
}

impl<'a, 'b, T: PartialEq + Clone, A: Allocator + ?Sized, B: Allocator + ?Sized> PartialEq<Vec<'b, T, B>> for Vec<'a, T, A> {
    /// Compares the items the two vectors have at the same positions, up to
    /// the end of the shorter one.
    fn eq(&self, other: &Vec<'b, T, B>) -> (r: bool) {
        let n = if self.items.len() <= other.items.len() { self.items.len() } else { other.items.len() };
        let mut i: usize = 0;
        while i < n
            invariant
                n == shorter_len(self@, other@),
                i <= n,
                T::obeys_eq_spec() ==> forall|j: int| 0 <= j < i ==> self@[j].eq_spec(&other@[j]),
            decreases n - i,
        {
            if !(self.items[i] == other.items[i]) {
                return false;
            }
            i = i + 1;
        }
        true
    }
}

impl<'a, 'b, T: PartialEq + Clone, A: Allocator + ?Sized, B: Allocator + ?Sized> PartialEqSpecImpl<Vec<'b, T, B>> for Vec<'a, T, A> {
    open spec fn obeys_eq_spec() -> bool {
        T::obeys_eq_spec()
    }

    open spec fn eq_spec(&self, other: &Vec<'b, T, B>) -> bool {
        forall|j: int| 0 <= j < shorter_len(self@, other@) ==> self@[j].eq_spec(&other@[j])
    }
}


/// Popping right after a successful push gives the pushed item back and
/// leaves the items as they were.
pub proof fn law_vec_push_pop<T>(s: Seq<T>, x: T)
    ensures
        s.push(x).last() == x,
        s.push(x).drop_last() == s,
{
    assert(s.push(x).drop_last() =~= s);
}

} // verus!

verus! {

/// A first-in-first-out queue kept in a ring of slots whose room is obtained
/// from an allocator.
pub struct Queue<'a, T: Clone, A: Allocator + ?Sized = dyn Allocator> {
    slots: std::vec::Vec<Option<T>>,
    len: usize,
    capacity: usize,
    front: usize,
    back: usize,
    start_addr: usize,
    allocator: &'a A,
}

impl<'a, T: Clone, A: Allocator + ?Sized> Queue<'a, T, A> {
    /// The slot that holds the item `i` places behind the front.
    pub closed spec fn ring_pos(&self, i: int) -> int {
        if self.front + i < self.capacity {
            self.front + i
        } else {
            self.front + i - self.capacity
        }
    }

    /// The number of items the queue has room for.
    pub closed spec fn spec_capacity(&self) -> nat {
        self.capacity as nat
    }

    /// The address of the queue's room.
    pub closed spec fn spec_start_addr(&self) -> usize {
        self.start_addr
    }

    /// The allocator the room comes from.
    pub closed spec fn spec_allocator(&self) -> &'a A {
        self.allocator
    }

    /// Whether the room comes from `allocator`.
    pub open spec fn allocator_is(&self, allocator: &A) -> bool {
        self.spec_allocator() == allocator
    }

    /// Whether `r` is an answer the queue's allocator may give to a request
    /// for twice as much room as the queue has.
    pub open spec fn grow_answer(&self, r: Result<usize, Error>) -> bool {
        self.spec_allocator().allocation_answer(
            vstd::layout::size_of::<T>() as usize,
            (self.spec_capacity() * 2) as usize,
            r,
        )
    }

    /// Whether the queue draws its room from the same allocator as `other`.
    pub open spec fn same_allocator(&self, other: &Self) -> bool {
        self.spec_allocator() == other.spec_allocator()
    }

    /// Whether `r` is an answer the queue's allocator may give when the
    /// queue's room is given back.
    pub open spec fn release_answer(&self, r: Result<(), Error>) -> bool {
        self.spec_allocator().deallocation_answer(
            self.spec_start_addr(),
            (self.spec_capacity() * vstd::layout::size_of::<T>()) as usize,
            r,
        )
    }

    /// The slots are the room; the items fill the slots from the front on,
    /// wrapping around at the end, and the back is the slot after the last.
    pub closed spec fn wf(&self) -> bool {
        &&& self.slots.len() == self.capacity
        &&& self.len <= self.capacity
        &&& self.capacity > 0 ==> self.front < self.capacity && self.back as int == self.ring_pos(self.len as int)
        &&& self.capacity == 0 ==> self.front == 0 && self.back == 0
        &&& forall|i: int| 0 <= i < self.len ==> (#[trigger] self.slots@[self.ring_pos(i)]) is Some
    }

    /// A well-formed queue holds no more items than it has room for.
    pub proof fn lemma_len_within_capacity(&self)
        requires
            self.wf(),
        ensures
            self@.len() <= self.spec_capacity(),
    {
    }
}

impl<'a, T: Clone, A: Allocator + ?Sized> View for Queue<'a, T, A> {
    type V = Seq<T>;

    /// The items, front first.
    closed spec fn view(&self) -> Seq<T> {
        Seq::new(self.len as nat, |i: int| self.slots@[self.ring_pos(i)]->0)
    }
}

} // verus!

verus! {

impl<'a, T: Clone, A: Allocator + ?Sized> Queue<'a, T, A> {
    /// An empty queue with room for `capacity` items, or the allocator's error.
    pub fn with_capacity(capacity: usize, allocator: &'a A) -> (r: Result<Queue<'a, T, A>, Error>)
        ensures
            r matches Ok(q) ==> q.wf() && q@ == Seq::<T>::empty() && q.spec_capacity() == capacity,
            r matches Ok(q) ==> q.allocator_is(allocator),
            r matches Ok(q) ==> allocator.allocation_answer(
                vstd::layout::size_of::<T>() as usize,
                capacity,
                Ok(q.spec_start_addr()),
            ),
            r matches Err(e) ==> allocator.allocation_answer(vstd::layout::size_of::<T>() as usize, capacity, Err(e)),
    {
        match allocator.allocate(core::mem::size_of::<T>(), capacity) {
            Ok(addr) => {
                let mut slots: std::vec::Vec<Option<T>> = std::vec::Vec::new();
                while slots.len() < capacity
                    invariant
                        slots.len() <= capacity,
                        forall|i: int| 0 <= i < slots.len() ==> slots@[i] is None,
                    decreases capacity - slots.len(),
                {
                    slots.push(None);
                }
                let q = Queue { slots, len: 0, capacity, front: 0, back: 0, start_addr: addr, allocator };
                assert(q@ =~= Seq::<T>::empty());
                Ok(q)
            },
            Err(e) => Err(e),
        }
    }

    /// Removes and returns the item at the front, or `None` when the queue is empty.
    pub fn dequeue(&mut self) -> (r: Option<T>)
        requires
            old(self).wf(),
        ensures
            final(self).wf(),
            final(self).spec_capacity() == old(self).spec_capacity(),
            old(self)@.len() == 0 ==> r is None && final(self)@ == old(self)@,
            old(self)@.len() > 0 ==> r == Some(old(self)@[0]) && final(self)@ == old(self)@.drop_first(),
            final(self).same_allocator(old(self)),
    {
        if self.len == 0 {
            return None;
        }
        let ghost old_view = self@;
        let ghost old_q = *self;
        let val = self.slots[self.front].take();
        self.front = if self.front + 1 == self.capacity { 0 } else { self.front + 1 };
        self.len = self.len - 1;
        assert forall|i: int| 0 <= i < self.len implies self.ring_pos(i) == old_q.ring_pos(i + 1)
            && self.ring_pos(i) != old_q.front by {}
        assert forall|i: int| 0 <= i < self.len implies (#[trigger] self.slots@[self.ring_pos(i)]) is Some by {
            assert(old_q.slots@[old_q.ring_pos(i + 1)] is Some);
        }
        assert(self@ =~= old_view.drop_first());
        val
    }

    /// Whether an enqueue must first move the items to twice the room, and
    /// that the sizes involved fit in a `usize`.
    pub open spec fn enqueue_defined(&self) -> bool {
        self@.len() >= self.spec_capacity() ==> {
            &&& 0 < self.spec_capacity()
            &&& self.spec_capacity() * 2 <= usize::MAX
            &&& self.spec_capacity() * vstd::layout::size_of::<T>() <= usize::MAX
        }
    }

    /// Places `item` at the back. A full queue first moves to room for twice
    /// as many items; if the allocator fails there, the queue stays as it was
    /// and its error is returned.
    pub fn enqueue(&mut self, item: T) -> (r: Result<(), Error>)
        requires
            old(self).wf(),
            old(self).enqueue_defined(),
        ensures
            final(self).wf(),
            old(self)@.len() < old(self).spec_capacity() ==> r is Ok && final(self).spec_capacity()
                == old(self).spec_capacity(),
            r is Ok ==> final(self)@ == old(self)@.push(item),
            r is Ok && old(self)@.len() >= old(self).spec_capacity() ==> {
                &&& final(self).spec_capacity() == 2 * old(self).spec_capacity()
                &&& old(self).grow_answer(Ok(final(self).spec_start_addr()))
                &&& old(self).release_answer(Ok(()))
            },
            old(self)@.len() < old(self).spec_capacity() ==> final(self).spec_start_addr() == old(self).spec_start_addr(),
            r matches Err(e) ==> {
                &&& old(self)@.len() >= old(self).spec_capacity()
                &&& old(self).grow_answer(Err(e)) || (exists|a: usize| #[trigger] old(self).grow_answer(Ok(a)))
                    && old(self).release_answer(Err(e))
            },
            r is Err ==> final(self)@ == old(self)@ && final(self).spec_capacity() == old(self).spec_capacity()
                && final(self).spec_start_addr() == old(self).spec_start_addr(),
            final(self).same_allocator(old(self)),
    {
        if self.len >= self.capacity {
            let new_size = self.capacity * 2;
            let new_addr = match self.allocator.allocate(core::mem::size_of::<T>(), new_size) {
                Ok(addr) => addr,
                Err(e) => {
                    return Err(e);
                },
            };
            assert(old(self).grow_answer(Ok(new_addr)));
            let give_back = self.capacity * core::mem::size_of::<T>();
            assert(give_back == (old(self).spec_capacity() * vstd::layout::size_of::<T>()) as usize);
            let answer = self.allocator.deallocate(self.start_addr, give_back);
            assert(old(self).release_answer(answer));
            if let Err(e) = answer {
                return Err(e);
            }
            assert(answer->Ok_0 == ());
            let ghost old_view = self@;
            let len = self.len;
            let mut moved: std::vec::Vec<Option<T>> = std::vec::Vec::new();
            let mut k: usize = 0;
            while k < len
                invariant
                    self.wf(),
                    k <= len,
                    len == old_view.len(),
                    self.capacity * 2 == new_size,
                    self.same_allocator(old(self)),
                    self@ == old_view.skip(k as int),
                    moved@.len() == k,
                    forall|j: int| 0 <= j < k ==> #[trigger] moved@[j] == Some(old_view[j]),
                decreases len - k,
            {
                let v = self.dequeue();
                moved.push(v);
                k = k + 1;
            }
            while moved.len() < new_size
                invariant
                    len <= moved.len() <= new_size,
                    forall|j: int| 0 <= j < len ==> #[trigger] moved@[j] == Some(old_view[j]),
                decreases new_size - moved.len(),
            {
                moved.push(None);
            }
            self.slots = moved;
            self.capacity = new_size;
            self.start_addr = new_addr;
            self.front = 0;
            self.back = len;
            self.len = len;
            assert(self@ =~= old_view);
        }
        let ghost old_q = *self;
        let ghost old_view = self@;
        let back = self.back;
        self.slots.set(back, Some(item));
        self.back = if back + 1 == self.capacity { 0 } else { back + 1 };
        self.len = self.len + 1;
        assert forall|i: int| 0 <= i < old_q.len implies self.ring_pos(i) != back by {}
        assert forall|i: int| 0 <= i < self.len implies (#[trigger] self.slots@[self.ring_pos(i)]) is Some by {
            if i < old_q.len {
                assert(old_q.slots@[old_q.ring_pos(i)] is Some);
            }
        }
        assert(self@ =~= old_view.push(item));
        Ok(())
    }

    /// The number of items.
    pub fn len(&self) -> (r: usize)
        requires
            self.wf(),
        ensures
            r == self@.len(),
    {
        self.len
    }

    /// The number of items the queue has room for.
    pub fn capacity(&self) -> (r: usize)
        ensures
            r == self.spec_capacity(),
    {
        self.capacity
    }
}


/// A queue hands its items out in the order they came in: with `s` queued,
/// enqueuing `x` and then dequeuing gives the front of `s` and leaves the
/// rest of `s` with `x` behind it; on an empty queue it gives `x` back and
/// leaves the queue empty.
pub proof fn law_queue_fifo<T>(s: Seq<T>, x: T)
    ensures
        s.len() > 0 ==> s.push(x)[0] == s[0] && s.push(x).drop_first() == s.drop_first().push(x),
        s.len() == 0 ==> s.push(x)[0] == x && s.push(x).drop_first() == s,
{
    if s.len() > 0 {
        assert(s.push(x).drop_first() =~= s.drop_first().push(x));
    } else {
        assert(s.push(x).drop_first() =~= s);
    }
}

} // verus!

verus! {

impl<'a, T: Clone, A: Allocator + ?Sized> Queue<'a, T, A> {
    /// Gives the queue's room back to the allocator and returns its answer.
    pub fn release(self) -> (r: Result<(), Error>)
        requires
            self.spec_capacity() * vstd::layout::size_of::<T>() <= usize::MAX,
        ensures
            self.release_answer(r),
    {
        self.allocator.deallocate(self.start_addr, self.capacity * core::mem::size_of::<T>())
    }
}

/// A value whose room is obtained from an allocator.
pub struct Box<'a, T, A: Allocator + ?Sized = dyn Allocator> {
    val: T,
    addr: usize,
    allocator: &'a A,
}

impl<'a, T, A: Allocator + ?Sized> View for Box<'a, T, A> {
    type V = T;

    /// The value in the box.
    closed spec fn view(&self) -> T {
        self.val
    }
}

impl<'a, T, A: Allocator + ?Sized> Box<'a, T, A> {
    /// The address of the box's room.
    pub closed spec fn spec_addr(&self) -> usize {
        self.addr
    }

    /// The allocator the room comes from.
    pub closed spec fn spec_allocator(&self) -> &'a A {
        self.allocator
    }

    /// Whether the room comes from `allocator`.
    pub open spec fn allocator_is(&self, allocator: &A) -> bool {
        self.spec_allocator() == allocator
    }

    /// Whether `r` is an answer the box's allocator may give when the box's
    /// room is given back.
    pub open spec fn release_answer(&self, r: Result<(), Error>) -> bool {
        self.spec_allocator().deallocation_answer(self.spec_addr(), vstd::layout::size_of::<T>() as usize, r)
    }

    /// A box holding `val`, or the allocator's error.
    pub fn new(val: T, allocator: &'a A) -> (r: Result<Box<'a, T, A>, Error>)
        ensures
            r matches Ok(b) ==> b@ == val,
            r matches Ok(b) ==> b.allocator_is(allocator),
            r matches Ok(b) ==> allocator.allocation_answer(vstd::layout::size_of::<T>() as usize, 1, Ok(b.spec_addr())),
            r matches Err(e) ==> allocator.allocation_answer(vstd::layout::size_of::<T>() as usize, 1, Err(e)),
    {
        match allocator.allocate(core::mem::size_of::<T>(), 1) {
            Ok(addr) => Ok(Box { val, addr, allocator }),
            Err(e) => Err(e),
        }
    }

    /// Takes the box apart: the address of its room and the value in it.
    pub fn into_raw(b: Box<'a, T, A>) -> (r: (usize, T))
        ensures
            r == (b.spec_addr(), b@),
    {
        (b.addr, b.val)
    }

    /// The box of a value already placed at `addr` by `allocator`.
    pub fn from_raw(addr: usize, val: T, allocator: &'a A) -> (r: Box<'a, T, A>)
        ensures
            r.spec_addr() == addr,
            r@ == val,
            r.allocator_is(allocator),
    {
        Box { val, addr, allocator }
    }

    /// The value in the box.
    pub fn get(&self) -> (r: &T)
        ensures
            *r == self@,
    {
        &self.val
    }

    /// Replaces the value in the box.
    pub fn set(&mut self, val: T)
        ensures
            final(self)@ == val,
            final(self).spec_addr() == old(self).spec_addr(),
    {
        self.val = val;
    }

    /// Gives the box's room back to the allocator and returns its answer.
    pub fn release(self) -> (r: Result<(), Error>)
        ensures
            self.release_answer(r),
    {
        self.allocator.deallocate(self.addr, core::mem::size_of::<T>())
    }
}

impl<'a, T, A: Allocator + ?Sized> core::ops::Deref for Box<'a, T, A> {
    type Target = T;

    fn deref(&self) -> (r: &T)
        ensures
            *r == self@,
    {
        &self.val
    }
}

impl<'a, 'b, T: PartialEq, A: Allocator + ?Sized, B: Allocator + ?Sized> PartialEq<Box<'b, T, B>> for Box<'a, T, A> {
    /// Compares the values in the boxes.
    fn eq(&self, other: &Box<'b, T, B>) -> (r: bool) {
        self.val == other.val
    }
}

impl<'a, 'b, T: PartialEq, A: Allocator + ?Sized, B: Allocator + ?Sized> PartialEqSpecImpl<Box<'b, T, B>> for Box<'a, T, A> {
    open spec fn obeys_eq_spec() -> bool {
        T::obeys_eq_spec()
    }

    open spec fn eq_spec(&self, other: &Box<'b, T, B>) -> bool {
        self@.eq_spec(&other@)
    }
}

impl<'a, T: PartialEq, A: Allocator + ?Sized> PartialEq<T> for Box<'a, T, A> {
    /// Compares the value in the box with `other`.
    fn eq(&self, other: &T) -> (r: bool) {
        self.val == *other
    }
}

impl<'a, T: PartialEq, A: Allocator + ?Sized> PartialEqSpecImpl<T> for Box<'a, T, A> {
    open spec fn obeys_eq_spec() -> bool {
        T::obeys_eq_spec()
    }

    open spec fn eq_spec(&self, other: &T) -> bool {
        self@.eq_spec(other)
    }
}

} // verus!

verus! {

/// A free region of a free list: its first address and its size.
#[derive(Copy, Clone, Debug, PartialEq, Eq, Structural)]
pub struct ListNode {
    pub start: u64,
    pub size: u64,
}

/// The index of the first region after the head, from `i` on, with at least
/// `size` bytes; the length of `s` when there is none.
pub open spec fn first_fit_from(s: Seq<ListNode>, size: u64, i: nat) -> nat
    decreases s.len() - i,
{
    if i >= s.len() {
        s.len()
    } else if s[i as int].size >= size {
        i
    } else {
        first_fit_from(s, size, i + 1)
    }
}

/// The index of the first region after the head with at least `size` bytes,
/// or the length of `s`.
pub open spec fn first_fit(s: Seq<ListNode>, size: u64) -> nat {
    first_fit_from(s, size, 1)
}

proof fn lemma_first_fit_from_bound(s: Seq<ListNode>, size: u64, i: nat)
    ensures
        first_fit_from(s, size, i) >= i || first_fit_from(s, size, i) == s.len(),
        first_fit_from(s, size, i) <= s.len(),
    decreases s.len() - i,
{
    if i < s.len() && s[i as int].size < size {
        lemma_first_fit_from_bound(s, size, i + 1);
    }
}

/// Whether a freed chunk is placed at the region `i`: it starts where the
/// region ends, or it ends before the next region, or it ends where the
/// next region starts, or there is no next region.
pub open spec fn free_lands_at(s: Seq<ListNode>, start: u64, size: u64, i: int) -> bool {
    ||| s[i].start + s[i].size == start
    ||| i + 1 >= s.len()
    ||| start + size <= s[i + 1].start
}

/// The first region from `i` on at which a freed chunk is placed.
pub open spec fn free_pos_from(s: Seq<ListNode>, start: u64, size: u64, i: nat) -> nat
    decreases s.len() - i,
{
    if i >= s.len() {
        s.len()
    } else if free_lands_at(s, start, size, i as int) {
        i
    } else {
        free_pos_from(s, start, size, i + 1)
    }
}

proof fn lemma_free_pos_from_bound(s: Seq<ListNode>, start: u64, size: u64, i: nat)
    ensures
        free_pos_from(s, start, size, i) >= i || free_pos_from(s, start, size, i) == s.len(),
        free_pos_from(s, start, size, i) <= s.len(),
        i < s.len() ==> free_pos_from(s, start, size, i) < s.len(),
    decreases s.len() - i,
{
    if i < s.len() && !free_lands_at(s, start, size, i as int) {
        lemma_free_pos_from_bound(s, start, size, i + 1);
    }
}

/// The free list once the chunk of `size` bytes at `start` is freed: it
/// grows the first region that it follows directly; or it becomes a region
/// of its own after the first region that it comes after and before the
/// next one (or after the last region); or it grows the next region when it
/// ends right where that one starts.
pub open spec fn list_after_free(s: Seq<ListNode>, start: u64, size: u64) -> Seq<ListNode> {
    let i = free_pos_from(s, start, size, 0) as int;
    if s[i].start + s[i].size == start {
        s.update(i, ListNode { start: s[i].start, size: (s[i].size + size) as u64 })
    } else if i + 1 >= s.len() || start + size < s[i + 1].start {
        s.insert(i + 1, ListNode { start, size })
    } else {
        s.update(i + 1, ListNode { start, size: (s[i + 1].size + size) as u64 })
    }
}

/// A first-fit allocator over a list of free regions; the first region is a
/// head at address 0 that is never handed out.
pub struct LinkedListAllocator {
    nodes: std::vec::Vec<ListNode>,
}

impl View for LinkedListAllocator {
    type V = Seq<ListNode>;

    /// The free regions, head first.
    closed spec fn view(&self) -> Seq<ListNode> {
        self.nodes@
    }
}

/// Whether every free region lies below the non-canonical hole.
pub open spec fn free_list_wf(s: Seq<ListNode>) -> bool {
    &&& s.len() >= 1
    &&& s[0].start == 0
    &&& forall|i: int| 0 <= i < s.len() ==> #[trigger] s[i].start + s[i].size < crate::memory::LOWER_HALF_END
}

impl LinkedListAllocator {
    /// An allocator with no free memory.
    pub fn new() -> (r: LinkedListAllocator)
        ensures
            r@ == seq![ListNode { start: 0, size: 0 }],
    {
        let mut nodes: std::vec::Vec<ListNode> = std::vec::Vec::new();
        nodes.push(ListNode { start: 0, size: 0 });
        LinkedListAllocator { nodes }
    }

    /// The free regions, head first.
    pub fn free_regions(&self) -> (r: &[ListNode])
        ensures
            r@ == self@,
    {
        self.nodes.as_slice()
    }

    /// Takes `size` bytes from the first free region after the head that has
    /// room for them and returns their address; a region of exactly that
    /// size leaves the list, a bigger one keeps what follows. `None` when no
    /// region has room.
    pub fn find_free_region(&mut self, size: usize) -> (r: Option<u64>)
        requires
            free_list_wf(old(self)@),
        ensures
            free_list_wf(final(self)@),
            ({
                let s = old(self)@;
                let k = first_fit(s, size as u64) as int;
                if k >= s.len() {
                    r is None && final(self)@ == s
                } else if s[k].size == size {
                    r == Some(s[k].start) && final(self)@ == s.remove(k)
                } else {
                    &&& r == Some(s[k].start)
                    &&& final(self)@ == s.update(
                        k,
                        ListNode { start: (s[k].start + size) as u64, size: (s[k].size - size) as u64 },
                    )
                }
            }),
    {
        let want = size as u64;
        let ghost s = self@;
        let mut k: usize = 1;
        proof {
            lemma_first_fit_from_bound(s, want, 1);
        }
        while k < self.nodes.len()
            invariant
                self@ == s,
                s == old(self)@,
                free_list_wf(s),
                want == size,
                1 <= k,
                k <= first_fit(s, want) || first_fit(s, want) == s.len(),
                first_fit_from(s, want, k as nat) == first_fit(s, want),
            decreases s.len() - k,
        {
            let node = self.nodes[k];
            if node.size == want {
                assert(k == first_fit(s, want));
                self.nodes.remove(k);
                return Some(node.start);
            } else if node.size > want {
                assert(k == first_fit(s, want));
                assert(s[k as int].start + s[k as int].size < crate::memory::LOWER_HALF_END);
                self.nodes.set(k, ListNode { start: node.start + want, size: node.size - want });
                return Some(node.start);
            }
            proof {
                lemma_first_fit_from_bound(s, want, (k + 1) as nat);
            }
            k = k + 1;
        }
        None
    }

    /// Puts the chunk back in the list of free regions, merging it with the
    /// region before it or the region after it where they touch.
    pub fn add_free_region(&mut self, mem_chunk: crate::memory::MemChunk)
        requires
            free_list_wf(old(self)@),
            mem_chunk.start_addr.0 + mem_chunk.size < crate::memory::LOWER_HALF_END,
        ensures
            free_list_wf(final(self)@),
            final(self)@ == list_after_free(old(self)@, mem_chunk.start_addr.0, mem_chunk.size),
    {
        let start = mem_chunk.start_addr.0;
        let size = mem_chunk.size;
        let ghost s = self@;
        let mut i: usize = 0;
        proof {
            lemma_free_pos_from_bound(s, start, size, 0);
        }
        while i < self.nodes.len()
            invariant
                self@ == s,
                s == old(self)@,
                start == mem_chunk.start_addr.0,
                size == mem_chunk.size,
                free_list_wf(s),
                start + size < crate::memory::LOWER_HALF_END,
                i <= free_pos_from(s, start, size, 0),
                free_pos_from(s, start, size, i as nat) == free_pos_from(s, start, size, 0),
                free_pos_from(s, start, size, 0) < s.len(),
            decreases s.len() - i,
        {
            let node = self.nodes[i];
            if node.start + node.size == start {
                self.nodes.set(i, ListNode { start: node.start, size: node.size + size });
                return;
            } else if i + 1 == self.nodes.len() || start + size < self.nodes[i + 1].start {
                self.nodes.insert(i + 1, ListNode { start, size });
                return;
            } else if start + size == self.nodes[i + 1].start {
                let next = self.nodes[i + 1];
                self.nodes.set(i + 1, ListNode { start, size: next.size + size });
                return;
            }
            proof {
                lemma_free_pos_from_bound(s, start, size, (i + 1) as nat);
            }
            i = i + 1;
        }
    }
}

} // verus!
