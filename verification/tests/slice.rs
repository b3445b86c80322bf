use std::collections::HashMap;

use command_router::slice::UnsafeSlice;

#[test]
fn hash_map() {
    let data = "Hello".to_string();
    let slice: UnsafeSlice = (&data[..]).into();

    let mut map = HashMap::<UnsafeSlice, UnsafeSlice>::new();
    map.insert(slice, slice);
    assert_eq!(map.get(&slice).unwrap(), &slice);
}

#[test]
fn slices_compare_by_content() {
    let one = "Hello world".to_string();
    let two = "Hello".to_string();
    let a: UnsafeSlice = (&one[..5]).into();
    let b: UnsafeSlice = (&two[..]).into();
    let c: UnsafeSlice = (&one[6..]).into();
    assert!(a == b);
    assert!(a != c);
    assert!(b == a);
    assert!(c != b);
    let mut map = HashMap::<UnsafeSlice, u8>::new();
    map.insert(a, 1);
    assert_eq!(map.get(&b), Some(&1));
    assert_eq!(map.get(&c), None);
}

#[test]
fn slice_length_is_in_bytes() {
    let text = "h\u{e9}llo".to_string();
    let slice: UnsafeSlice = (&text[..]).into();
    assert_eq!(slice.len(), 6);
    assert_eq!(slice.as_str(), "h\u{e9}llo");
}
