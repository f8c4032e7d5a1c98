use local_storage_vec::LocalStorageVec;

#[test]
fn it_compiles() {
    let vec: LocalStorageVec<u32, 10> = LocalStorageVec::from_array([3]);
    match vec {
        LocalStorageVec::Stack { buf, len } => {
            let _buf: Vec<u32> = buf;
            let _len: usize = len;
        }
        LocalStorageVec::Heap(v) => {
            let _v: Vec<u32> = v;
        }
    }
}

#[test]
fn it_from_vecs() {
    let vec: LocalStorageVec<usize, 10> = LocalStorageVec::from_vec(vec![1, 2, 3]);
    assert!(matches!(vec, LocalStorageVec::Heap(_)));
    let vec: LocalStorageVec<usize, 2> = LocalStorageVec::from_vec(vec![1, 2, 3]);
    assert!(matches!(vec, LocalStorageVec::Heap(_)));
}

#[test]
fn it_as_refs() {
    let vec: LocalStorageVec<i32, 256> = LocalStorageVec::from_array([0; 128]);
    let slice: &[i32] = vec.as_ref();
    assert!(slice.len() == 128);
    let vec: LocalStorageVec<i32, 32> = LocalStorageVec::from_array([0; 128]);
    let slice: &[i32] = vec.as_ref();
    assert!(slice.len() == 128);
    let mut vec: LocalStorageVec<i32, 256> = LocalStorageVec::from_array([0; 128]);
    let slice_mut: &[i32] = vec.as_mut();
    assert!(slice_mut.len() == 128);
    let mut vec: LocalStorageVec<i32, 32> = LocalStorageVec::from_array([0; 128]);
    let slice_mut: &[i32] = vec.as_mut();
    assert!(slice_mut.len() == 128);
}

#[test]
fn it_constructs() {
    let vec: LocalStorageVec<usize, 10> = LocalStorageVec::new();
    assert!(matches!(vec, LocalStorageVec::Stack { buf: _, len: 0 }));
}

#[test]
fn it_lens() {
    let vec: LocalStorageVec<_, 3> = LocalStorageVec::from_array([0, 1, 2]);
    assert_eq!(vec.len(), 3);
    let vec: LocalStorageVec<_, 2> = LocalStorageVec::from_array([0, 1, 2]);
    assert_eq!(vec.len(), 3);
}

#[test]
fn it_pushes() {
    let mut vec: LocalStorageVec<_, 128> = LocalStorageVec::new();
    for value in 0..128 {
        vec.push(value);
    }
    assert!(matches!(vec, LocalStorageVec::Stack { len: 128, .. }));
    for value in 128..256 {
        vec.push(value);
    }
    let vec_len = vec.len();
    assert!(
        matches!(vec, LocalStorageVec::Heap(v) if v.len() == 256),
        "v.len() = {}",
        vec_len
    )
}

#[test]
fn it_pops() {
    let mut vec: LocalStorageVec<_, 128> = LocalStorageVec::from_array([0; 128]);
    for _ in 0..128 {
        assert_eq!(vec.pop(), Some(0))
    }
    assert_eq!(vec.pop(), None);

    let mut vec: LocalStorageVec<_, 128> = LocalStorageVec::from_array([0; 256]);
    for _ in 0..256 {
        assert_eq!(vec.pop(), Some(0))
    }
    assert_eq!(vec.pop(), None);

    let mut vec: LocalStorageVec<_, 128> = LocalStorageVec::from_vec(vec![0; 256]);
    for _ in 0..256 {
        assert_eq!(vec.pop(), Some(0))
    }
    assert_eq!(vec.pop(), None);
}

#[test]
fn it_inserts() {
    let mut vec: LocalStorageVec<_, 4> = LocalStorageVec::from_array([0, 1, 2]);
    vec.insert(1, 3);
    let len = vec.len();
    assert!(
        matches!(vec, LocalStorageVec::Stack { len: 4, .. }),
        "len={len}"
    );
    assert_eq!(vec.as_ref(), &[0, 3, 1, 2]);

    let mut vec: LocalStorageVec<_, 4> = LocalStorageVec::from_array([0, 1, 2, 3]);
    vec.insert(1, 3);
    assert!(matches!(vec, LocalStorageVec::Heap { .. }));
    assert_eq!(vec.as_ref(), &[0, 3, 1, 2, 3]);

    let mut vec: LocalStorageVec<_, 4> = LocalStorageVec::from_array([0, 1, 2, 3, 4]);
    vec.insert(1, 3);
    assert!(matches!(vec, LocalStorageVec::Heap { .. }));
    assert_eq!(vec.as_ref(), &[0, 3, 1, 2, 3, 4])
}

#[test]
fn it_removes() {
    let mut vec: LocalStorageVec<_, 4> = LocalStorageVec::from_array([0, 1, 2]);
    let elem = vec.remove(1);
    let vec_len = vec.len();
    assert!(
        matches!(vec, LocalStorageVec::Stack { len: 2, .. }),
        "len={vec_len}"
    );
    assert_eq!(vec.as_ref(), &[0, 2]);
    assert_eq!(elem, 1);
    let mut vec: LocalStorageVec<_, 2> = LocalStorageVec::from_array([0, 1, 2]);
    let elem = vec.remove(1);
    assert!(matches!(vec, LocalStorageVec::Heap(..)));
    assert_eq!(vec.as_ref(), &[0, 2]);
    assert_eq!(elem, 1);
}

#[test]
fn it_clears() {
    let mut vec: LocalStorageVec<_, 10> = LocalStorageVec::from_array([0, 1, 2, 3]);
    assert!(matches!(vec, LocalStorageVec::Stack { buf: _, len: 4 }));
    vec.clear();
    assert_eq!(vec.len(), 0);

    let mut vec: LocalStorageVec<_, 3> = LocalStorageVec::from_array([0, 1, 2, 3]);
    assert!(matches!(vec, LocalStorageVec::Heap(_)));
    vec.clear();
    assert_eq!(vec.len(), 0);
}

#[test]
fn it_iters() {
    let vec: LocalStorageVec<_, 128> = LocalStorageVec::from_array([0; 32]);
    let mut iter = vec.into_iter();
    while let Some(item) = iter.next() {
        assert_eq!(item, 0);
    }
    assert_eq!(iter.next(), None);

    let vec: LocalStorageVec<_, 128> = LocalStorageVec::from_vec(vec![0; 128]);
    let mut iter = vec.into_iter();
    while let Some(item) = iter.next() {
        assert_eq!(item, 0);
    }
    assert_eq!(iter.next(), None);
}

#[test]
fn it_indexes() {
    let vec: LocalStorageVec<i32, 10> = LocalStorageVec::from_array([0, 1, 2, 3, 4, 5]);
    assert_eq!(*vec.index(1), 1);
    assert_eq!(vec.slice_from(4), [4, 5]);
    assert_eq!(vec.slice_to(10), [0, 1, 2, 3, 4, 5]);
    assert_eq!(vec.slice_from(4), [4, 5]);
    assert_eq!(vec.slice_range(1, 3), [1, 2]);
}

#[test]
fn it_borrowing_iters() {
    let vec: LocalStorageVec<String, 10> = LocalStorageVec::from_array([
        "0".to_owned(),
        "1".to_owned(),
        "2".to_owned(),
        "3".to_owned(),
        "4".to_owned(),
        "5".to_owned(),
    ]);
    let mut iter = vec.iter();
    while let Some(_) = iter.next() {}
    // This requires the `vec` not to be consumed by the call to `iter()`
    drop(vec);
}

#[test]
fn it_derefs() {
    let vec: LocalStorageVec<_, 128> = LocalStorageVec::from_array([0; 128]);
    // `chunks` is a method defined for slices `[T]`, usable through the flat view
    let _chunks = vec.as_ref().chunks(4);
    let _slice: &[_] = vec.as_ref();

    let mut vec: LocalStorageVec<_, 128> = LocalStorageVec::from_array([0; 128]);
    let _chunks = vec.as_mut().chunks_mut(4);
    let _slice: &mut [_] = vec.as_mut();
}
