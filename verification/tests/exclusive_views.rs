use owning_slice::{AsSlice, IntoSlice, IntoSliceFrom, IntoSliceTo, Truncate};

#[test]
fn exclusive_range_scenario() {
    let mut a: [u64; 5] = [10, 20, 30, 40, 50];
    let v: &mut [u64] = &mut a;
    let r = v.into_slice(1u8, 3u8);
    assert_eq!(r, &mut [20, 30, 40]);
}

#[test]
fn exclusive_range_writes_reach_the_buffer() {
    let mut a: [u64; 5] = [10, 20, 30, 40, 50];
    let v: &mut [u64] = &mut a;
    let r = v.into_slice(1u8, 3u8);
    r[0] = 99;
    r[2] = 44;
    assert_eq!(a, [10, 99, 30, 44, 50]);
}

#[test]
fn exclusive_prefix_scenario() {
    let mut a: [u64; 5] = [10, 20, 30, 40, 50];
    let v: &mut [u64] = &mut a;
    let r = v.into_slice_to(2u16);
    assert_eq!(r, &mut [10, 20]);
    r[1] = 21;
    assert_eq!(a, [10, 21, 30, 40, 50]);
}

#[test]
fn exclusive_suffix_scenario() {
    let mut a: [u64; 5] = [10, 20, 30, 40, 50];
    let v: &mut [u64] = &mut a;
    let r = v.into_slice_from(3u32);
    assert_eq!(r, &mut [40, 50]);
    r[0] = 41;
    assert_eq!(a, [10, 20, 30, 41, 50]);
}

#[test]
fn exclusive_truncate_shrinks_in_place() {
    let mut a: [u64; 5] = [10, 20, 30, 40, 50];
    let mut v: &mut [u64] = &mut a;
    v.truncate(2u8);
    assert_eq!(v, &mut [10, 20]);
    v[0] = 11;
    assert_eq!(a, [11, 20, 30, 40, 50]);
}

#[test]
fn exclusive_truncate_over_length_is_no_op() {
    let mut a: [u64; 5] = [10, 20, 30, 40, 50];
    let mut v: &mut [u64] = &mut a;
    v.truncate(10usize);
    assert_eq!(v, &mut [10, 20, 30, 40, 50]);
}

#[test]
fn exclusive_chained_slicing_keeps_capabilities() {
    let mut a: [u64; 5] = [10, 20, 30, 40, 50];
    let v: &mut [u64] = &mut a;
    let r = v.into_slice_from(1u8).into_slice_to(3u8).into_slice(1u8, 2u8);
    assert_eq!(r, &mut [30, 40]);
    r[0] = 31;
    assert_eq!(a, [10, 20, 31, 40, 50]);
}

#[test]
fn exclusive_as_slice_borrows_elements() {
    let mut a: [u8; 3] = [7, 8, 9];
    let v: &mut [u8] = &mut a;
    assert_eq!(v.as_slice(), &[7, 8, 9]);
}

#[test]
fn exclusive_truncate_with_all_index_kinds() {
    let mut a: [i32; 4] = [1, 2, 3, 4];
    let mut v: &mut [i32] = &mut a;
    v.truncate(3u8);
    v.truncate(2u16);
    v.truncate(1u32);
    assert_eq!(v, &mut [1]);
}
