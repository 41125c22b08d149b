use gloom::layout::{byte_size_of_array, offset, size_of};

#[test]
fn byte_size_of_float_array() {
    let v: Vec<f32> = vec![0.0, 1.0, 2.0];
    assert_eq!(byte_size_of_array(&v), 12);
}

#[test]
fn byte_size_of_empty_array() {
    let v: Vec<u64> = Vec::new();
    assert_eq!(byte_size_of_array(&v), 0);
}

#[test]
fn byte_size_of_wide_array() {
    let v: [u64; 5] = [1, 2, 3, 4, 5];
    assert_eq!(byte_size_of_array(&v), 40);
}

#[test]
fn size_of_primitives() {
    assert_eq!(size_of::<u8>(), 1);
    assert_eq!(size_of::<f32>(), 4);
    assert_eq!(size_of::<u64>(), 8);
    assert_eq!(size_of::<[f32; 3]>(), 12);
}

#[test]
fn offset_counts_whole_values() {
    assert_eq!(offset::<u64>(4), 32);
    assert_eq!(offset::<f32>(3), 12);
    assert_eq!(offset::<u8>(0), 0);
}

#[test]
fn byte_size_of_joined_arrays_adds() {
    let a: Vec<f32> = vec![1.0, 2.0];
    let b: Vec<f32> = vec![3.0, 4.0, 5.0];
    let c = [a.as_slice(), b.as_slice()].concat();
    assert_eq!(byte_size_of_array(&c), byte_size_of_array(&a) + byte_size_of_array(&b));
    assert_eq!(byte_size_of_array(&c), 20);
}
