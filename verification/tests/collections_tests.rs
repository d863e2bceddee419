use lib::collections::{Allocator, Box, Error, LinkedListAllocator, ListNode, Queue, Vec};
use lib::memory::{Addr, MemChunk};
use std::cell::{Cell, RefCell};

/// Hands out fresh addresses from a bump pointer and never fails.
struct AlwaysSuccessfulAllocator {
    next: Cell<usize>,
}

impl AlwaysSuccessfulAllocator {
    fn new() -> Self {
        AlwaysSuccessfulAllocator { next: Cell::new(0x10_0000) }
    }
}

impl Allocator for AlwaysSuccessfulAllocator {
    fn allocate(&self, size_of_type: usize, size_to_alloc: usize) -> Result<usize, Error> {
        let addr = self.next.get();
        self.next.set(addr + size_of_type * size_to_alloc + 16);
        Ok(addr)
    }

    fn deallocate(&self, _addr: usize, _size_to_dealloc: usize) -> Result<(), Error> {
        Ok(())
    }
}

/// Fails every request while `should_fail` is set.
struct ConditionalFailureAllocator {
    should_fail: Cell<bool>,
    inner: AlwaysSuccessfulAllocator,
}

impl ConditionalFailureAllocator {
    fn new(should_fail: bool) -> Self {
        ConditionalFailureAllocator { should_fail: Cell::new(should_fail), inner: AlwaysSuccessfulAllocator::new() }
    }
}

impl Allocator for ConditionalFailureAllocator {
    fn allocate(&self, size_of_type: usize, size_to_alloc: usize) -> Result<usize, Error> {
        if self.should_fail.get() {
            Err(Error::UnknownError)
        } else {
            self.inner.allocate(size_of_type, size_to_alloc)
        }
    }

    fn deallocate(&self, addr: usize, size_to_dealloc: usize) -> Result<(), Error> {
        if self.should_fail.get() {
            Err(Error::UnknownError)
        } else {
            self.inner.deallocate(addr, size_to_dealloc)
        }
    }
}

/// The free-list allocator behind a shared cell, as the kernel holds it behind a lock.
struct SharedListAllocator(RefCell<LinkedListAllocator>);

impl Allocator for SharedListAllocator {
    fn allocate(&self, size_of_type: usize, size_to_alloc: usize) -> Result<usize, Error> {
        match self.0.borrow_mut().find_free_region(size_of_type * size_to_alloc) {
            Some(addr) => Ok(addr as usize),
            None => Err(Error::AllocationError),
        }
    }

    fn deallocate(&self, addr: usize, size_to_dealloc: usize) -> Result<(), Error> {
        self.0
            .borrow_mut()
            .add_free_region(MemChunk { start_addr: Addr(addr as u64), size: size_to_dealloc as u64 });
        Ok(())
    }
}

const FOUR_KIB: usize = 4096;

fn get_4kib_allocator() -> SharedListAllocator {
    let mut allocator = LinkedListAllocator::new();
    allocator.add_free_region(MemChunk { start_addr: Addr(0x20_0000), size: FOUR_KIB as u64 });
    SharedListAllocator(RefCell::new(allocator))
}

#[derive(Clone)]
#[allow(dead_code)]
struct SomeValues {
    x: i32,
    y: usize,
    z: i128,
}

#[test]
fn test_vec_create() {
    let allocator = get_4kib_allocator();
    let vec_size = 20;
    let _v: Vec<u8, _> = Vec::with_capacity(vec_size, &allocator).unwrap();
    let new_heap_size = allocator.0.borrow().free_regions()[1].size;
    assert_eq!(new_heap_size as usize, FOUR_KIB - vec_size);
}

#[test]
fn test_vec_drop() {
    let allocator = get_4kib_allocator();
    let vec_size = 20;
    {
        let v: Vec<u8, _> = Vec::with_capacity(vec_size, &allocator).unwrap();
        v.release().unwrap();
    }
    let heap_size_after_dropping_vec = allocator.0.borrow().free_regions()[1].size;
    assert_eq!(heap_size_after_dropping_vec, FOUR_KIB as u64);
}

#[test]
fn vec_too_big_is_refused() {
    let allocator = get_4kib_allocator();
    let v: Result<Vec<u8, _>, Error> = Vec::with_capacity(FOUR_KIB + 1, &allocator);
    assert!(matches!(v, Err(Error::AllocationError)));
}

#[test]
fn test_box_create() {
    let a = AlwaysSuccessfulAllocator::new();
    let b: Box<i32, _> = Box::new(32, &a).unwrap();
    assert!(b == 32);
}

#[test]
fn test_cmp() {
    let a = AlwaysSuccessfulAllocator::new();
    let b1: Box<i32, _> = Box::new(43, &a).unwrap();
    let b2: Box<i32, _> = Box::new(43, &a).unwrap();
    assert!(b1 == b2);
}

#[test]
fn test_mutate() {
    let a = AlwaysSuccessfulAllocator::new();
    let mut b: Box<i32, _> = Box::new(45, &a).unwrap();
    b.set(999_999);
    assert!(b == 999_999);
}

#[test]
fn box_out_of_space_is_an_error() {
    let allocator = ConditionalFailureAllocator::new(true);
    let b: Result<Box<usize, _>, Error> = Box::new(32, &allocator);
    assert!(matches!(b, Err(Error::UnknownError)));
}

#[test]
fn box_into_raw() {
    let a = AlwaysSuccessfulAllocator::new();
    let b: Box<usize, _> = Box::new(1984, &a).unwrap();
    let (_addr, val) = Box::into_raw(b);
    assert_eq!(val, 1984);
}

#[test]
fn box_from_raw() {
    let a = AlwaysSuccessfulAllocator::new();
    let addr = a.allocate(std::mem::size_of::<i32>(), 1).unwrap();
    let b = Box::<i32>::from_raw(addr, 100_000_000, &a);
    assert_eq!(*b, 100_000_000);
}

#[test]
fn box_into_raw_gives_back_the_address() {
    let a = AlwaysSuccessfulAllocator::new();
    let b = Box::from_raw(0x4000, 7u8, &a);
    assert_eq!(Box::into_raw(b), (0x4000, 7));
}

#[test]
fn queue_test_create() {
    let a = AlwaysSuccessfulAllocator::new();
    let queue: Queue<u8, _> = Queue::with_capacity(100, &a).unwrap();
    assert_eq!(queue.capacity(), 100)
}

#[test]
fn test_enqueue_dequeue1() {
    let a = AlwaysSuccessfulAllocator::new();
    let mut queue: Queue<u128, _> = Queue::with_capacity(100, &a).unwrap();
    queue.enqueue(32).unwrap();
    queue.enqueue(100).unwrap();
    assert_eq!(queue.len(), 2);

    let first = queue.dequeue();
    let second = queue.dequeue();
    assert_eq!(first, Some(32));
    assert_eq!(second, Some(100));
    assert_eq!(queue.len(), 0);
}

#[test]
fn test_enqueue_dequeue_need_more_space() {
    let a = AlwaysSuccessfulAllocator::new();
    let mut queue: Queue<u8, _> = Queue::with_capacity(3, &a).unwrap();
    queue.enqueue(43).unwrap();
    queue.enqueue(133).unwrap();
    queue.enqueue(54).unwrap();
    assert_eq!(queue.capacity(), 3);
    assert_eq!(queue.len(), 3);
    queue.enqueue(255).unwrap();
    assert!(queue.capacity() > 3);
    assert_eq!(queue.len(), 4);
    assert_eq!(queue.dequeue(), Some(43));
    assert_eq!(queue.dequeue(), Some(133));
    assert_eq!(queue.dequeue(), Some(54));
    assert_eq!(queue.dequeue(), Some(255));
}

#[test]
fn test_enqueue_dequeue2() {
    let a = AlwaysSuccessfulAllocator::new();
    let mut queue: Queue<u8, _> = Queue::with_capacity(5, &a).unwrap();
    queue.enqueue(32).unwrap();
    queue.enqueue(230).unwrap();
    queue.enqueue(254).unwrap();
    let first = queue.dequeue();
    let second = queue.dequeue();
    queue.enqueue(43).unwrap();
    queue.enqueue(129).unwrap();
    queue.enqueue(233).unwrap();
    queue.enqueue(12).unwrap();
    let third = queue.dequeue();
    let fourth = queue.dequeue();
    let fifth = queue.dequeue();
    let sixth = queue.dequeue();
    let seventh = queue.dequeue();
    assert_eq!(first, Some(32));
    assert_eq!(second, Some(230));
    assert_eq!(third, Some(254));
    assert_eq!(fourth, Some(43));
    assert_eq!(fifth, Some(129));
    assert_eq!(sixth, Some(233));
    assert_eq!(seventh, Some(12));
    assert_eq!(queue.dequeue(), None);
}

#[test]
fn test_dequeue_empty_queue() {
    let a = AlwaysSuccessfulAllocator::new();
    let mut queue: Queue<u8, _> = Queue::with_capacity(3, &a).unwrap();
    assert_eq!(queue.dequeue(), None);
}

#[test]
fn queue_alloc_fail_is_an_error() {
    let allocator = ConditionalFailureAllocator::new(true);
    let queue: Result<Queue<u8, _>, Error> = Queue::with_capacity(1, &allocator);
    assert!(matches!(queue, Err(Error::UnknownError)));
}

#[test]
fn queue_out_of_space_on_enqueue_keeps_items() {
    let allocator = ConditionalFailureAllocator::new(false);
    let mut queue: Queue<u32, _> = Queue::with_capacity(1, &allocator).unwrap();
    queue.enqueue(3).unwrap();
    allocator.should_fail.set(true);
    assert_eq!(queue.enqueue(32), Err(Error::UnknownError));
    assert_eq!(queue.len(), 1);
    assert_eq!(queue.capacity(), 1);
    assert_eq!(queue.dequeue(), Some(3));
}

#[test]
fn queue_release_reports_dealloc_failure() {
    let allocator = ConditionalFailureAllocator::new(false);
    let queue: Queue<bool, _> = Queue::with_capacity(3, &allocator).unwrap();
    allocator.should_fail.set(true);
    assert_eq!(queue.release(), Err(Error::UnknownError));
}

#[test]
fn test_queue_of_structs() {
    let a = AlwaysSuccessfulAllocator::new();
    let mut queue = Queue::with_capacity(2, &a).unwrap();
    queue.enqueue(SomeValues { x: 32, y: 54_444, z: 889_987_233_554 }).unwrap();
    queue.enqueue(SomeValues { x: 890, y: 5_343, z: 335_232 }).unwrap();
    assert_eq!(queue.len(), 2);
}

#[test]
fn test_macro() {
    let allocator = AlwaysSuccessfulAllocator::new();
    let mut queue: Queue<u8, _> = Queue::with_capacity(10, &allocator).unwrap();
    assert_eq!(queue.len(), 0);
    assert_eq!(queue.capacity(), 10);
    queue.enqueue(56).unwrap();
    assert_eq!(queue.dequeue(), Some(56));
}

#[test]
fn queue_wraps_around_many_times() {
    let a = AlwaysSuccessfulAllocator::new();
    let mut queue: Queue<u32, _> = Queue::with_capacity(2, &a).unwrap();
    for i in 0..10u32 {
        queue.enqueue(i).unwrap();
        assert_eq!(queue.dequeue(), Some(i));
    }
    assert_eq!(queue.capacity(), 2);
    assert_eq!(queue.dequeue(), None);
}

#[test]
fn vec_test_create() {
    let a = AlwaysSuccessfulAllocator::new();
    let v: Vec<u8, _> = Vec::with_capacity(100, &a).unwrap();
    assert_eq!(v.capacity(), 100);
}

#[test]
fn test_push() {
    let a = AlwaysSuccessfulAllocator::new();
    let mut v = Vec::with_capacity(3, &a).unwrap();
    v.push(2).unwrap();
    v.push(4).unwrap();
    assert_eq!(v[0], 2);
    assert_eq!(v[1], 4);
}

#[test]
fn test_pop() {
    let a = AlwaysSuccessfulAllocator::new();
    let mut v = Vec::with_capacity(3, &a).unwrap();
    v.push(2).unwrap();
    v.push(100).unwrap();
    assert_eq!(v.pop(), 100);
    assert_eq!(v.pop(), 2);
}

#[test]
fn try_pop_on_empty_vec() {
    let a = AlwaysSuccessfulAllocator::new();
    let mut v: Vec<u8, _> = Vec::with_capacity(3, &a).unwrap();
    assert_eq!(v.try_pop(), None);
    v.push(9).unwrap();
    assert_eq!(v.try_pop(), Some(9));
}

#[test]
fn test_remove() {
    let a = AlwaysSuccessfulAllocator::new();
    let mut v = Vec::with_capacity(3, &a).unwrap();
    v.push(2).unwrap();
    v.push(3).unwrap();
    v.push(122).unwrap();
    assert_eq!(v.len(), 3);
    assert_eq!(v[1], 3);

    assert_eq!(v.remove(1), 3);

    assert_eq!(v[0], 2);
    assert_eq!(v[1], 122);
    assert_eq!(v.len(), 2);
}

#[test]
fn test_index() {
    let a = AlwaysSuccessfulAllocator::new();
    let mut v = Vec::with_capacity(5, &a).unwrap();
    v.push(2).unwrap();
    assert_eq!(v[0], 2);
    v.push(3).unwrap();
    assert_eq!(v[1], 3);
    v.set(0, 100_000);
    assert_eq!(v[0], 100_000);
}

#[test]
fn test_need_more_space() {
    let a = AlwaysSuccessfulAllocator::new();
    let mut v = Vec::with_capacity(1, &a).unwrap();
    v.push(2).unwrap();
    v.push(32).unwrap();
    v.push(23).unwrap();
    v.push(1).unwrap();
    v.push(900).unwrap();
    assert_eq!(v.len(), 5);
    assert_eq!(v.capacity(), 8);
}

#[test]
fn test_macro_1() {
    let a = AlwaysSuccessfulAllocator::new();
    let mut v = Vec::with_capacity(1, &a).unwrap();
    for e in [3, 4, 54_444, 23, 2] {
        v.push(e).unwrap();
    }
    assert_eq!(v.len(), 5);
    assert_eq!(v[0], 3);
    assert_eq!(v[1], 4);
    assert_eq!(v[2], 54_444);
    assert_eq!(v[3], 23);
    assert_eq!(v[4], 2);
}

#[test]
fn test_macro_2() {
    let a = AlwaysSuccessfulAllocator::new();
    let mut v = Vec::with_capacity(5, &a).unwrap();
    for _ in 0..5 {
        v.push(0u8).unwrap();
    }
    assert_eq!(v.len(), 5);
    for i in 0..v.len() {
        assert_eq!(v[i], 0);
    }
}

#[test]
fn test_iter() {
    let a = AlwaysSuccessfulAllocator::new();
    let mut v = Vec::with_capacity(1, &a).unwrap();
    v.push(2).unwrap();
    v.push(4).unwrap();
    let mut v_iter = v.iter();
    assert_eq!(v_iter.next(), Some(&2));
    assert_eq!(v_iter.next(), Some(&4));
    assert_eq!(v_iter.next(), None);
}

#[test]
fn test_iter_mut() {
    let a = AlwaysSuccessfulAllocator::new();
    let mut v = Vec::with_capacity(1, &a).unwrap();
    v.push(4).unwrap();
    v.push(9).unwrap();
    assert_eq!(v.get(0), &4);
    v.set(0, 999_999_999);
    assert_eq!(v[0], 999_999_999);
}

#[test]
fn vec_alloc_fail_is_an_error() {
    let allocator = ConditionalFailureAllocator::new(true);
    let v: Result<Vec<u8, _>, Error> = Vec::with_capacity(1, &allocator);
    assert!(matches!(v, Err(Error::UnknownError)));
}

#[test]
fn vec_out_of_space_on_push_keeps_items() {
    let allocator = ConditionalFailureAllocator::new(false);
    let mut v: Vec<u32, _> = Vec::with_capacity(1, &allocator).unwrap();
    v.push(3).unwrap();
    assert_eq!(v[0], 3);
    allocator.should_fail.set(true);
    assert_eq!(v.push(3), Err(Error::UnknownError));
    assert_eq!(v.len(), 1);
}

#[test]
fn vec_release_reports_dealloc_failure() {
    let allocator = ConditionalFailureAllocator::new(false);
    let v: Vec<bool, _> = Vec::with_capacity(3, &allocator).unwrap();
    allocator.should_fail.set(true);
    assert_eq!(v.release(), Err(Error::UnknownError));
}

#[test]
fn test_vec_of_structs() {
    let a = AlwaysSuccessfulAllocator::new();
    let mut v = Vec::with_capacity(2, &a).unwrap();
    v.push(SomeValues { x: 32, y: 54_444, z: 889_987_233_554 }).unwrap();
    v.push(SomeValues { x: 890, y: 5_343, z: 335_232 }).unwrap();
    assert_eq!(v.len(), 2);
}

#[test]
fn vec_clone() {
    let a = AlwaysSuccessfulAllocator::new();
    let mut v = Vec::with_capacity(1, &a).unwrap();
    for e in [4, 5, 87777] {
        v.push(e).unwrap();
    }
    let other_v = v.clone().unwrap();
    assert!(v == other_v);
    assert_eq!(v.len(), other_v.len());
    assert_eq!(v.capacity(), other_v.capacity());
}

#[test]
fn vec_as_slice_and_address() {
    let a = AlwaysSuccessfulAllocator::new();
    let mut v = Vec::with_capacity(2, &a).unwrap();
    v.push(1u16).unwrap();
    v.push(2u16).unwrap();
    assert_eq!(v.as_slice(), &[1, 2]);
    assert_eq!(v.as_ptr(), 0x10_0000);
}

#[test]
fn free_list_first_fit_takes_from_the_first_region_with_room() {
    let mut allocator = LinkedListAllocator::new();
    allocator.add_free_region(MemChunk { start_addr: Addr(0x1000), size: 16 });
    allocator.add_free_region(MemChunk { start_addr: Addr(0x3000), size: 64 });
    assert_eq!(allocator.find_free_region(32), Some(0x3000));
    assert_eq!(
        allocator.free_regions(),
        &[
            ListNode { start: 0, size: 0 },
            ListNode { start: 0x1000, size: 16 },
            ListNode { start: 0x3020, size: 32 }
        ]
    );
    assert_eq!(allocator.find_free_region(16), Some(0x1000));
    assert_eq!(allocator.free_regions().len(), 2);
    assert_eq!(allocator.find_free_region(64), None);
}

#[test]
fn free_list_merges_neighbours() {
    let mut allocator = LinkedListAllocator::new();
    allocator.add_free_region(MemChunk { start_addr: Addr(0x1000), size: 0x100 });
    allocator.add_free_region(MemChunk { start_addr: Addr(0x1100), size: 0x100 });
    assert_eq!(allocator.free_regions(), &[ListNode { start: 0, size: 0 }, ListNode { start: 0x1000, size: 0x200 }]);
    allocator.add_free_region(MemChunk { start_addr: Addr(0x800), size: 0x800 });
    assert_eq!(allocator.free_regions(), &[ListNode { start: 0, size: 0 }, ListNode { start: 0x800, size: 0xa00 }]);
}

#[test]
#[should_panic]
fn test_vec_too_big() {
    let allocator = get_4kib_allocator();
    let _v: Vec<u8, _> = Vec::with_capacity(FOUR_KIB + 1, &allocator).unwrap();
}

#[test]
#[should_panic]
fn box_out_of_space() {
    let allocator = ConditionalFailureAllocator::new(true);
    let _b: Box<usize, _> = Box::new(32, &allocator).unwrap();
}

#[test]
#[should_panic]
fn test_create_queue_alloc_fail() {
    let allocator = ConditionalFailureAllocator::new(true);
    let _queue: Queue<u8, _> = Queue::with_capacity(1, &allocator).unwrap();
}

#[test]
#[should_panic]
fn test_out_of_space_on_enqueue() {
    let allocator = ConditionalFailureAllocator::new(false);
    let mut queue: Queue<u32, _> = Queue::with_capacity(1, &allocator).unwrap();
    queue.enqueue(3).unwrap();
    assert_eq!(queue.len(), 1);
    allocator.should_fail.set(true);
    queue.enqueue(32).unwrap();
}

#[test]
#[should_panic]
fn queue_test_failure_on_dealloc() {
    let allocator = ConditionalFailureAllocator::new(false);
    let queue: Queue<bool, _> = Queue::with_capacity(3, &allocator).unwrap();
    allocator.should_fail.set(true);
    queue.release().unwrap();
}

#[test]
#[should_panic]
fn test_create_vec_alloc_fail() {
    let allocator = ConditionalFailureAllocator::new(true);
    let _v: Vec<u8, _> = Vec::with_capacity(1, &allocator).unwrap();
}

#[test]
#[should_panic]
fn test_out_of_space_on_push() {
    let allocator = ConditionalFailureAllocator::new(false);
    let mut v: Vec<u32, _> = Vec::with_capacity(1, &allocator).unwrap();
    v.push(3).unwrap();
    assert_eq!(v[0], 3);
    allocator.should_fail.set(true);
    v.push(3).unwrap();
}

#[test]
#[should_panic]
fn vec_test_failure_on_dealloc() {
    let allocator = ConditionalFailureAllocator::new(false);
    let v: Vec<bool, _> = Vec::with_capacity(3, &allocator).unwrap();
    allocator.should_fail.set(true);
    v.release().unwrap();
}
