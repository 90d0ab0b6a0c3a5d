use std::sync::atomic::AtomicUsize;
use std::sync::atomic::Ordering;

use par_array_init::from_iter;
use par_array_init::par_array_init;
use par_array_init::slot_write;
use par_array_init::UninitBuffer;

#[test]
fn test_array_init_in_parallel_works() {
    let array: [usize; 10] = par_array_init(|i| i);
    for (indx, i) in array.iter().enumerate() {
        assert_eq!(*i, indx)
    }
}

#[test]
fn test_array_init_with_capturing_lambda_works() {
    let vec = vec![40; 10];
    let array: [usize; 10] = par_array_init(|i| vec[i]);
    for i in array.iter() {
        assert_eq!(*i, 40);
    }
}

#[test]
fn test_from_iter_works() {
    let vec = vec![1, 2, 3, 4];
    let array: Option<[usize; 4]> = from_iter(vec);
    assert_eq!(array, Some([1, 2, 3, 4]));
}

#[test]
fn test_from_iter_fails_when_len_is_different() {
    let vec = vec![1, 2, 3, 4];
    let array: Option<[usize; 10]> = from_iter(vec);
    assert_eq!(array, None);
}

#[test]
fn test_initialization_works_with_larger_types() {
    let vec = vec![
        "A neat string",
        "A lame string",
        "A longish string abcdefghijklmnopqrstuvwxyz",
    ];
    let array: Option<[&str; 3]> = from_iter(vec);
    assert_eq!(
        array,
        Some([
            "A neat string",
            "A lame string",
            "A longish string abcdefghijklmnopqrstuvwxyz"
        ])
    )
}

#[test]
fn squares_from_index_fn() {
    let array: [u64; 50] = par_array_init(|i| (i * i) as u64);
    assert_eq!(array[7], 49);
    assert_eq!(array[0], 0);
    assert_eq!(array[49], 2401);
}

#[test]
fn longer_source_keeps_first_elements_in_order() {
    let vec = vec![1u32, 2, 3, 4, 5, 6];
    let array: Option<[u32; 3]> = from_iter(vec);
    assert_eq!(array, Some([1, 2, 3]));
}

#[test]
fn zero_capacity_always_succeeds() {
    let empty_from_fn: [u32; 0] = par_array_init(|_i| 7u32);
    assert_eq!(empty_from_fn.len(), 0);
    let from_long_source: Option<[u32; 0]> = from_iter(vec![5u32, 6, 7]);
    assert_eq!(from_long_source, Some([]));
    let from_empty_source: Option<[u32; 0]> = from_iter(Vec::new());
    assert_eq!(from_empty_source, Some([]));
}

#[test]
fn initializer_runs_exactly_once_per_slot() {
    let count = AtomicUsize::new(0);
    let array: [usize; 64] = par_array_init(|i| {
        count.fetch_add(1, Ordering::SeqCst);
        i
    });
    assert_eq!(count.load(Ordering::SeqCst), 64);
    assert_eq!(array[63], 63);
}

#[test]
fn slot_write_fills_an_empty_slot() {
    let mut slot: Option<u8> = None;
    slot_write(&mut slot, 9);
    assert_eq!(slot, Some(9));
}

#[test]
fn empty_buffer_promotes_to_no_elements() {
    let buffer: UninitBuffer<u8> = UninitBuffer::new(0);
    let elems = buffer.promote();
    assert!(elems.is_empty());
}
