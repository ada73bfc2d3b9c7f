use memory_arena::arena::Construction;
use memory_arena::backing::ProviderReply;
use memory_arena::{AllocError, Arena, ArenaBox};

/// An address that is a multiple of every alignment used below.
const BLOCK: usize = 0x40_0000;

fn arena_at(alignment: usize, size: usize, address: usize) -> Arena {
    match Arena::new(alignment, size) {
        Construction::Ready(a) => a,
        Construction::Acquire(request) => {
            let reply = ProviderReply { errno: 0, address };
            assert!(reply.honours(&request));
            match Arena::from_reply(request, reply) {
                Ok(a) => a,
                Err(_) => panic!("the provider granted the block"),
            }
        }
    }
}

fn arena(alignment: usize, size: usize) -> Arena {
    arena_at(alignment, size, BLOCK)
}

#[test]
fn arena_box() {
    let alignment = 1024;
    let size = 1024;
    let mut a = arena(alignment, size);
    let mut num = a.new_box(42).unwrap();
    assert_eq!(*num, 42);
    *num += 1;
    assert_eq!(*num, 43);
}

#[test]
fn arena_out_of_memory() {
    let alignment = 512;
    let size = 1;
    let mut a = arena(alignment, size);
    let i: usize = 42;
    match a.new_box(i) {
        Err(back) => assert_eq!(back, 42),
        Ok(_) => panic!("a usize cannot fit into one byte"),
    }
    assert_eq!(a.used(), 0);
}

#[test]
fn arena_aligned_alloc() {
    let mut a = arena(1024, 1024);
    let p1 = a.aligned_alloc(1, 1).unwrap();
    let p2 = a.aligned_alloc(1, 4).unwrap();
    let p3 = a.aligned_alloc(1, 8).unwrap();
    let p4 = a.aligned_alloc(1, 512).unwrap();
    assert!(((p1 as usize) % 1024) == 0);
    assert!(((p2 as usize) % 4) == 0);
    assert!(((p3 as usize) % 8) == 0);
    assert!(((p4 as usize) % 512) == 0);
}

#[test]
fn ln112() {
    let mut a = arena(1024, 1024);
    let x = a.new_box(5).unwrap();
    let ptr = ArenaBox::into_raw(x);
    let _ = ArenaBox::from_raw(ptr);
}

#[test]
fn ln140() {
    let mut a = arena(1024, 1024);
    let x = a.new_box(5).unwrap();
    let _ = ArenaBox::into_raw(x);
}

#[test]
fn aligned_alloc_places_each_range_behind_the_last() {
    let mut a = arena(1024, 1024);
    assert_eq!(a.aligned_alloc(1, 1), Some(BLOCK));
    assert_eq!(a.used(), 1);
    assert_eq!(a.aligned_alloc(1, 4), Some(BLOCK + 4));
    assert_eq!(a.used(), 5);
    assert_eq!(a.aligned_alloc(1, 8), Some(BLOCK + 8));
    assert_eq!(a.used(), 9);
    assert_eq!(a.aligned_alloc(1, 512), Some(BLOCK + 512));
    assert_eq!(a.used(), 513);
    assert_eq!(a.capacity(), 1024);
    assert_eq!(a.base(), BLOCK);
}

#[test]
fn aligned_alloc_pads_from_the_address_not_from_the_offset() {
    // The block starts 8 bytes past a multiple of 16.
    let mut a = arena_at(8, 64, BLOCK + 8);
    assert_eq!(a.aligned_alloc(4, 16), Some(BLOCK + 16));
    assert_eq!(a.used(), 12);
    assert_eq!(a.aligned_alloc(4, 16), Some(BLOCK + 32));
    assert_eq!(a.used(), 28);
}

#[test]
fn aligned_alloc_fills_the_block_to_the_last_byte() {
    let mut a = arena(16, 16);
    assert_eq!(a.aligned_alloc(8, 8), Some(BLOCK));
    assert_eq!(a.aligned_alloc(8, 8), Some(BLOCK + 8));
    assert_eq!(a.used(), 16);
    assert_eq!(a.aligned_alloc(1, 1), None);
    assert_eq!(a.used(), 16);
    assert_eq!(a.aligned_alloc(0, 1), Some(BLOCK + 16));
    assert_eq!(a.used(), 16);
}

#[test]
fn aligned_alloc_near_the_end_of_the_address_space() {
    let base = usize::MAX - 15;
    let mut a = arena_at(16, 15, base);
    assert_eq!(a.aligned_alloc(1, 1), Some(base));
    // The next multiple of 16 lies beyond the last address.
    assert_eq!(a.aligned_alloc(1, 16), None);
    assert_eq!(a.used(), 1);
    assert_eq!(a.aligned_alloc(14, 1), Some(base + 1));
    assert_eq!(a.used(), 15);
}

#[test]
fn exhaustion_changes_nothing() {
    let mut a = arena(8, 12);
    let first = a.new_box(7u64).unwrap();
    assert_eq!(a.used(), 8);
    match a.new_box(9u64) {
        Err(back) => assert_eq!(back, 9),
        Ok(_) => panic!("four bytes are left"),
    }
    assert_eq!(a.used(), 8);
    assert_eq!(a.capacity(), 12);
    assert_eq!(*first, 7);
    let small = a.new_box(3u32).unwrap();
    assert_eq!(a.used(), 12);
    assert_eq!(small.as_ptr(), BLOCK + 8);
}

#[test]
fn zero_sized_values_take_no_bytes() {
    let mut empty = arena(1, 0);
    assert_eq!(empty.capacity(), 0);
    assert_eq!(empty.base(), 1);
    let unit = empty.new_box(()).unwrap();
    assert_eq!(*unit, ());
    assert_eq!(unit.as_ptr(), 1);
    assert_eq!(empty.used(), 0);
    assert!(empty.new_box(1u8).is_err());

    let mut full = arena(1, 1);
    full.new_box(1u8).unwrap();
    assert_eq!(full.used(), 1);
    let none: ArenaBox<[u32; 0]> = full.new_box([]).unwrap();
    assert_eq!(none.as_ptr(), std::mem::align_of::<u32>());
    assert_eq!(full.used(), 1);
}

#[test]
fn alloc_typed_uses_the_size_and_alignment_of_the_type() {
    let mut a = arena(64, 64);
    assert_eq!(a.alloc_typed::<u8>(), Some(BLOCK));
    assert_eq!(a.alloc_typed::<u32>(), Some(BLOCK + 4));
    assert_eq!(a.alloc_typed::<u16>(), Some(BLOCK + 8));
    assert_eq!(a.alloc_typed::<u64>(), Some(BLOCK + 16));
    assert_eq!(a.used(), 24);
    assert_eq!(a.alloc_typed::<[u64; 6]>(), None);
    assert_eq!(a.used(), 24);
    assert_eq!(a.alloc_typed::<()>(), Some(1));
    assert_eq!(a.used(), 24);
}

#[test]
fn placements_are_disjoint_and_aligned() {
    let mut a = arena(1024, 1024);
    let b1 = a.new_box(1u8).unwrap();
    let b2 = a.new_box(2u64).unwrap();
    let b3 = a.new_box(3u16).unwrap();
    let b4 = a.new_box(4u32).unwrap();
    let ranges = [
        (b1.as_ptr(), 1usize, 1usize),
        (b2.as_ptr(), 8, std::mem::align_of::<u64>()),
        (b3.as_ptr(), 2, 2),
        (b4.as_ptr(), 4, 4),
    ];
    for (i, (p, size, alignment)) in ranges.iter().enumerate() {
        assert_eq!(p % alignment, 0);
        assert!(BLOCK <= *p && p + size <= BLOCK + 1024);
        for (q, _, _) in ranges.iter().skip(i + 1) {
            assert!(p + size <= *q);
        }
    }
    assert_eq!((*b1, *b2, *b3, *b4), (1, 2, 3, 4));
}

#[test]
fn new_asks_for_the_block_it_was_told() {
    match Arena::new(512, 1) {
        Construction::Acquire(request) => {
            assert_eq!(request.size, 1);
            assert_eq!(request.alignment, 512);
        }
        Construction::Ready(_) => panic!("one byte needs a block"),
    }
    assert!(matches!(Arena::new(512, 0), Construction::Ready(_)));
}

#[test]
fn a_refusal_becomes_the_error() {
    match Arena::new(64, 4096) {
        Construction::Acquire(request) => {
            let reply = ProviderReply { errno: 12, address: 0 };
            assert!(reply.honours(&request));
            match Arena::from_reply(request, reply) {
                Err(e) => assert_eq!(e, AllocError::Errno(12)),
                Ok(_) => panic!("the provider refused"),
            }
        }
        Construction::Ready(_) => panic!("4096 bytes need a block"),
    }
}

#[test]
fn release_names_the_block_to_give_back() {
    let mut a = arena(1024, 1024);
    a.new_box(1u32).unwrap();
    assert_eq!(a.release(), Some(BLOCK));
    assert_eq!(arena(1024, 0).release(), None);
}
