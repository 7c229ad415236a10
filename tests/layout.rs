use wgpu_util::{align_up, padded_size, zero_filled_bytes, BufferInitDescriptor, COPY_DST, VERTEX};

fn descriptor<'a>(contents: &'a [u8], size: Option<u64>) -> BufferInitDescriptor<'a> {
    BufferInitDescriptor {
        label: Some("layout"),
        contents,
        size,
        usage: VERTEX | COPY_DST,
    }
}

#[test]
fn padded_size_rounds_up_to_alignment() {
    assert_eq!(padded_size(3, 4), 4);
    assert_eq!(padded_size(4, 4), 4);
    assert_eq!(padded_size(5, 4), 8);
    assert_eq!(padded_size(8, 4), 8);
    assert_eq!(padded_size(9, 8), 16);
}

#[test]
fn padded_size_of_zero_is_one_unit() {
    assert_eq!(padded_size(0, 4), 4);
    assert_eq!(padded_size(0, 16), 16);
}

#[test]
fn padded_size_near_the_top_of_u64() {
    assert_eq!(padded_size(u64::MAX - 3, 4), u64::MAX - 3);
    assert_eq!(padded_size(u64::MAX - 6, 4), u64::MAX - 3);
}

#[test]
fn zero_filled_bytes_pads_with_zeros() {
    assert_eq!(zero_filled_bytes(&[7, 8], 5), vec![7, 8, 0, 0, 0]);
    assert_eq!(zero_filled_bytes(&[7, 8], 2), vec![7, 8]);
    assert_eq!(zero_filled_bytes(&[], 3), vec![0, 0, 0]);
}

#[test]
fn short_contents_fill_one_alignment_unit() {
    let contents = [1u8, 2, 3];
    let d = descriptor(&contents, None);
    assert_eq!(d.unpadded_size(), Some(3));
    assert_eq!(d.layout(), vec![1, 2, 3, 0]);
}

#[test]
fn layout_rounds_contents_to_copy_alignment() {
    let contents = [9u8, 9, 9, 9, 9];
    let d = descriptor(&contents, None);
    assert_eq!(d.layout(), vec![9, 9, 9, 9, 9, 0, 0, 0]);
}

#[test]
fn empty_contents_still_get_one_unit() {
    let d = descriptor(&[], None);
    assert_eq!(d.unpadded_size(), Some(0));
    assert_eq!(d.layout(), vec![0, 0, 0, 0]);
}

#[test]
fn explicit_size_reserves_zeroed_space() {
    let contents = [5u8, 6];
    let d = descriptor(&contents, Some(10));
    assert_eq!(d.unpadded_size(), Some(10));
    assert_eq!(d.layout(), vec![5, 6, 0, 0, 0, 0, 0, 0, 0, 0, 0, 0]);
}

#[test]
fn explicit_size_equal_to_contents_is_accepted() {
    let contents = [1u8, 2, 3, 4];
    let d = descriptor(&contents, Some(4));
    assert_eq!(d.unpadded_size(), Some(4));
    assert_eq!(d.layout(), vec![1, 2, 3, 4]);
}

#[test]
fn explicit_size_below_contents_is_rejected() {
    let contents = [1u8, 2, 3];
    for size in 0..3u64 {
        assert_eq!(descriptor(&contents, Some(size)).unpadded_size(), None);
    }
}

#[test]
fn align_up_rounds_to_the_next_multiple() {
    assert_eq!(align_up(0, 4), 0);
    assert_eq!(align_up(1, 4), 4);
    assert_eq!(align_up(3, 4), 4);
    assert_eq!(align_up(4, 4), 4);
    assert_eq!(align_up(5, 4), 8);
}
