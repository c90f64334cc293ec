use std::ops::{Deref, DerefMut};
use exercises::local_storage_vec::LocalStorageVec;

#[test]
fn it_from_vecs() {
    let vec: LocalStorageVec<usize, 10> = LocalStorageVec::from(vec![1, 2, 3]);
    assert!(matches!(vec, LocalStorageVec::Heap(_)));

    let vec: LocalStorageVec<usize, 2> = LocalStorageVec::from(vec![1, 2, 3]);

    assert!(matches!(vec, LocalStorageVec::Heap(_)));
}

#[test]
fn it_as_refs() {
    let vec: LocalStorageVec<i32, 256> = LocalStorageVec::from([0; 128]);
    let slice: &[i32] = vec.as_ref();
    assert!(slice.len() == 128);
    let vec: LocalStorageVec<i32, 32> = LocalStorageVec::from([0; 128]);
    let slice: &[i32] = vec.as_ref();
    assert!(slice.len() == 128);

    let mut vec: LocalStorageVec<i32, 256> = LocalStorageVec::from([0; 128]);
    let slice_mut: &[i32] = vec.as_mut();
    assert!(slice_mut.len() == 128);
    let mut vec: LocalStorageVec<i32, 32> = LocalStorageVec::from([0; 128]);
    let slice_mut: &[i32] = vec.as_mut();
    assert!(slice_mut.len() == 128);
}

#[test]
fn it_constructs() {
    let vec: LocalStorageVec<usize, 10> = LocalStorageVec::new();
    assert!(matches!(vec, LocalStorageVec::Stack { buf: _, len: 0 }));
}

#[test]
fn it_lens() {
    let vec: LocalStorageVec<_, 3> = LocalStorageVec::from([0, 1, 2]);
    assert_eq!(vec.len(), 3);
    let vec: LocalStorageVec<_, 2> = LocalStorageVec::from([0, 1, 2]);
    assert_eq!(vec.len(), 3);
}

#[test]
fn it_pushes() {
    let mut vec: LocalStorageVec<_, 128> = LocalStorageVec::new();
    for value in 0..128 {
        vec.push(value);
    }
    assert!(matches!(vec, LocalStorageVec::Stack { len: 128, .. }));
    for value in 128..256 {
        vec.push(value);
    }
    assert!(matches!(vec, LocalStorageVec::Heap(v) if v.len() == 256))
}

#[test]
fn it_pops() {
    let mut vec: LocalStorageVec<_, 128> = LocalStorageVec::from([0; 128]);
    for _ in 0..128 {
        assert_eq!(vec.pop(), Some(0))
    }
    assert_eq!(vec.pop(), None);

    let mut vec: LocalStorageVec<_, 128> = LocalStorageVec::from([0; 256]);
    for _ in 0..256 {
        assert_eq!(vec.pop(), Some(0))
    }
    assert_eq!(vec.pop(), None);

    let mut vec: LocalStorageVec<_, 128> = LocalStorageVec::from(vec![0; 256]);
    for _ in 0..256 {
        assert_eq!(vec.pop(), Some(0))
    }
    assert_eq!(vec.pop(), None);
}

#[test]
fn it_inserts() {
    let mut vec: LocalStorageVec<_, 4> = LocalStorageVec::from([0, 1, 2]);
    vec.insert(1, 3);
    assert!(matches!(
        vec,
        LocalStorageVec::Stack {
            buf: [0, 3, 1, 2],
            len: 4
        }
    ));

    let mut vec: LocalStorageVec<_, 4> = LocalStorageVec::from([0, 1, 2, 3]);
    vec.insert(1, 3);
    assert!(matches!(vec, LocalStorageVec::Heap { .. }));
    assert_eq!(vec.as_ref(), &[0, 3, 1, 2, 3]);

    let mut vec: LocalStorageVec<_, 4> = LocalStorageVec::from([0, 1, 2, 3, 4]);
    vec.insert(1, 3);
    assert!(matches!(vec, LocalStorageVec::Heap { .. }));
    assert_eq!(vec.as_ref(), &[0, 3, 1, 2, 3, 4])
}

#[test]
fn it_removes() {
    let mut vec: LocalStorageVec<_, 4> = LocalStorageVec::from([0, 1, 2]);
    let elem = vec.remove(1);
    assert!(matches!(
        vec,
        LocalStorageVec::Stack {
            buf: [0, 2, _, _],
            len: 2
        }
    ));
    assert_eq!(elem, 1);

    let mut vec: LocalStorageVec<_, 2> = LocalStorageVec::from([0, 1, 2]);
    let elem = vec.remove(1);
    assert!(matches!(vec, LocalStorageVec::Heap(..)));
    assert_eq!(vec.as_ref(), &[0, 2]);
    assert_eq!(elem, 1);
}

#[test]
fn it_clears() {
    let mut vec: LocalStorageVec<_, 10> = LocalStorageVec::from([0, 1, 2, 3]);
    assert!(matches!(vec, LocalStorageVec::Stack { buf: _, len: 4 }));
    vec.clear();
    assert_eq!(vec.len(), 0);

    let mut vec: LocalStorageVec<_, 3> = LocalStorageVec::from([0, 1, 2, 3]);
    assert!(matches!(vec, LocalStorageVec::Heap(_)));
    vec.clear();
    assert_eq!(vec.len(), 0);
}

#[test]
fn it_iters() {
    let vec: LocalStorageVec<_, 128> = LocalStorageVec::from([0; 32]);
    let mut iter = vec.into_iter();
    for item in &mut iter {
        assert_eq!(item, 0);
    }
    assert_eq!(iter.next(), None);

    let vec: LocalStorageVec<_, 128> = LocalStorageVec::from(vec![0; 128]);
    let mut iter = vec.into_iter();
    for item in &mut iter {
        assert_eq!(item, 0);
    }
    assert_eq!(iter.next(), None);
}

#[test]
fn it_indexes() {
    let vec: LocalStorageVec<i32, 10> = LocalStorageVec::from([0, 1, 2, 3, 4, 5]);
    assert_eq!(vec[1], 1);
    assert_eq!(vec[..2], [0, 1]);
    assert_eq!(vec[4..], [4, 5]);
    assert_eq!(vec[1..3], [1, 2]);
}

#[test]
fn it_borrowing_iters() {
    let vec: LocalStorageVec<String, 10> = LocalStorageVec::from([
        "0".to_owned(),
        "1".to_owned(),
        "2".to_owned(),
        "3".to_owned(),
        "4".to_owned(),
        "5".to_owned(),
    ]);
    let iter = vec.iter();
    for _ in iter {}
    drop(vec);
}

#[test]
#[allow(unused_variables)]
fn it_derefs() {
    let vec: LocalStorageVec<_, 128> = LocalStorageVec::from([0; 128]);
    let chunks = vec.chunks(4);
    let slice: &[_] = vec.deref();

    let mut vec: LocalStorageVec<_, 128> = LocalStorageVec::from([0; 128]);
    let chunks = vec.chunks_mut(4);
    drop(chunks);
    let slice: &mut [_] = vec.deref_mut();
}

#[test]
fn from_array_fits_inline_or_spills() {
    let vec: LocalStorageVec<i32, 3> = LocalStorageVec::from([7, 8, 9]);
    assert!(matches!(vec, LocalStorageVec::Stack { buf: [7, 8, 9], len: 3 }));
    let vec: LocalStorageVec<i32, 2> = LocalStorageVec::from([7, 8, 9]);
    assert!(matches!(vec, LocalStorageVec::Heap(ref v) if v == &vec![7, 8, 9]));
    let vec: LocalStorageVec<i32, 0> = LocalStorageVec::from([5]);
    assert!(matches!(vec, LocalStorageVec::Heap(_)));
    let vec: LocalStorageVec<i32, 0> = LocalStorageVec::from([]);
    assert!(matches!(vec, LocalStorageVec::Stack { len: 0, .. }));
}

#[test]
fn push_spills_at_capacity() {
    let mut vec: LocalStorageVec<i32, 4> = LocalStorageVec::from([0, 1, 2]);
    assert!(matches!(vec, LocalStorageVec::Stack { len: 3, .. }));
    vec.push(3);
    assert!(matches!(vec, LocalStorageVec::Stack { len: 4, .. }));
    vec.push(4);
    assert!(matches!(vec, LocalStorageVec::Heap(_)));
    assert_eq!(vec.as_ref(), &[0, 1, 2, 3, 4]);
}

#[test]
fn insert_then_spill() {
    let mut vec: LocalStorageVec<i32, 4> = LocalStorageVec::from([0, 1, 2]);
    vec.insert(1, 3);
    assert!(matches!(vec, LocalStorageVec::Stack { buf: [0, 3, 1, 2], len: 4 }));
    vec.insert(0, 9);
    assert!(matches!(vec, LocalStorageVec::Heap(_)));
    assert_eq!(vec.as_ref(), &[9, 0, 3, 1, 2]);
}

#[test]
fn insert_at_end_and_past_end() {
    let mut vec: LocalStorageVec<i32, 4> = LocalStorageVec::from([0, 1]);
    vec.insert(2, 5);
    assert_eq!(vec.as_ref(), &[0, 1, 5]);
    vec.insert(7, 6);
    assert_eq!(vec.as_ref(), &[0, 1, 5]);
    assert!(matches!(vec, LocalStorageVec::Stack { len: 3, .. }));

    let mut vec: LocalStorageVec<i32, 2> = LocalStorageVec::from([0, 1]);
    vec.insert(2, 5);
    assert!(matches!(vec, LocalStorageVec::Heap(_)));
    assert_eq!(vec.as_ref(), &[0, 1, 5]);
    vec.insert(9, 6);
    assert_eq!(vec.as_ref(), &[0, 1, 5]);
}

#[test]
fn remove_from_spilled_keeps_heap() {
    let mut vec: LocalStorageVec<i32, 2> = LocalStorageVec::from([0, 1, 2]);
    assert_eq!(vec.remove(1), 1);
    assert_eq!(vec.as_ref(), &[0, 2]);
    assert!(matches!(vec, LocalStorageVec::Heap(_)));
}

#[test]
fn spilled_stays_spilled() {
    let mut vec: LocalStorageVec<i32, 2> = LocalStorageVec::new();
    vec.push(1);
    vec.push(2);
    vec.push(3);
    assert!(matches!(vec, LocalStorageVec::Heap(_)));
    assert_eq!(vec.pop(), Some(3));
    assert_eq!(vec.remove(0), 1);
    assert!(matches!(vec, LocalStorageVec::Heap(_)));
    vec.clear();
    assert!(matches!(vec, LocalStorageVec::Heap(_)));
    vec.insert(0, 4);
    assert!(matches!(vec, LocalStorageVec::Heap(_)));
    assert_eq!(vec.as_ref(), &[4]);
}

#[test]
fn push_then_pop_restores() {
    let mut vec: LocalStorageVec<i32, 4> = LocalStorageVec::from([1, 2]);
    vec.push(9);
    assert_eq!(vec.pop(), Some(9));
    assert_eq!(vec.as_ref(), &[1, 2]);
}

#[test]
fn into_iter_yields_live_prefix() {
    let mut vec: LocalStorageVec<i32, 8> = LocalStorageVec::from([4, 5, 6]);
    vec.pop();
    let items: Vec<i32> = vec.into_iter().collect();
    assert_eq!(items, vec![4, 5]);
    let vec: LocalStorageVec<i32, 1> = LocalStorageVec::from([4, 5, 6]);
    let mut iter = vec.into_iter();
    assert_eq!(iter.next(), Some(4));
    assert_eq!(iter.next(), Some(5));
    assert_eq!(iter.next(), Some(6));
    assert_eq!(iter.next(), None);
}

#[test]
fn chunks_split_live_items() {
    let vec: LocalStorageVec<i32, 8> = LocalStorageVec::from([1, 2, 3, 4, 5]);
    let chunks = vec.chunks(2);
    assert_eq!(chunks.len(), 3);
    assert_eq!(chunks[0], &[1, 2]);
    assert_eq!(chunks[1], &[3, 4]);
    assert_eq!(chunks[2], &[5]);
    let empty: LocalStorageVec<i32, 8> = LocalStorageVec::new();
    assert_eq!(empty.chunks(3).len(), 0);
}

#[test]
fn chunks_mut_write_through() {
    let mut vec: LocalStorageVec<i32, 8> = LocalStorageVec::from([1, 2, 3]);
    for chunk in vec.chunks_mut(2) {
        chunk[0] = 0;
    }
    assert_eq!(vec.as_ref(), &[0, 2, 0]);
    let mut vec: LocalStorageVec<i32, 1> = LocalStorageVec::from([1, 2, 3]);
    vec.as_mut()[1] = 7;
    assert_eq!(vec.as_ref(), &[1, 7, 3]);
}

#[test]
fn range_index_up_to_len() {
    let vec: LocalStorageVec<i32, 10> = LocalStorageVec::from([0, 1, 2, 3]);
    assert_eq!(vec[2..4], [2, 3]);
    assert_eq!(vec[..4], [0, 1, 2, 3]);
    assert_eq!(vec[4..], []);
}

#[test]
fn for_loop_consumes_list() {
    let vec: LocalStorageVec<i32, 2> = LocalStorageVec::from([3, 4, 5]);
    let mut seen = Vec::new();
    for x in vec {
        seen.push(x);
    }
    assert_eq!(seen, vec![3, 4, 5]);
    let vec: LocalStorageVec<i32, 8> = LocalStorageVec::from([3, 4]);
    let mut total = 0;
    for x in vec {
        total += x;
    }
    assert_eq!(total, 7);
}

#[test]
fn writes_through_inline_slices() {
    let mut vec: LocalStorageVec<i32, 8> = LocalStorageVec::from([1, 2, 3]);
    vec.as_mut()[2] = 9;
    vec.deref_mut()[0] = 8;
    assert_eq!(vec.as_ref(), &[8, 2, 9]);
    assert!(matches!(vec, LocalStorageVec::Stack { len: 3, .. }));
}
