use bal_array::ArrayError;
use bal_array::BalType;
use bal_array::DynamicBalArray;

#[test]
fn new_zero_hint_uses_default_capacity() {
    let a = DynamicBalArray::new(0);
    assert_eq!(a.capacity(), 8);
    assert_eq!(a.length(), 0);
}

#[test]
fn new_negative_hint_uses_default_capacity() {
    let a = DynamicBalArray::new(-5);
    assert_eq!(a.capacity(), 8);
    assert_eq!(a.length(), 0);
}

#[test]
fn new_positive_hint_is_capacity_verbatim() {
    let a = DynamicBalArray::new(20);
    assert_eq!(a.capacity(), 20);
    assert_eq!(a.length(), 0);
}

#[test]
fn tag_is_integer_kind() {
    let a = DynamicBalArray::new(0);
    assert_eq!(a.inherent_type(), BalType::Int);
}

#[test]
fn fresh_array_reads_fail_everywhere_within_capacity() {
    let a = DynamicBalArray::new(0);
    for i in 0..8 {
        assert_eq!(a.try_get_element(i), Err(ArrayError::IndexOutOfRange));
    }
}

#[test]
fn fresh_slots_hold_zero_once_reachable() {
    let mut a = DynamicBalArray::new(0);
    a.set_element(7, 99);
    for i in 0..7 {
        assert_eq!(a.get_element(i), 0);
    }
    assert_eq!(a.get_element(7), 99);
}

#[test]
fn set_within_capacity_then_get() {
    let mut a = DynamicBalArray::new(0);
    a.set_element(5, 123);
    assert_eq!(a.get_element(5), 123);
    assert_eq!(a.length(), 6);
}

#[test]
fn length_never_decreases() {
    let mut a = DynamicBalArray::new(0);
    a.set_element(5, 1);
    assert_eq!(a.length(), 6);
    a.set_element(0, 2);
    assert_eq!(a.length(), 6);
    a.set_element(2, 3);
    assert_eq!(a.length(), 6);
    a.set_element(9, 4);
    assert_eq!(a.length(), 10);
}

#[test]
fn growth_from_8_at_index_10_gives_16() {
    let mut a = DynamicBalArray::new(0);
    a.set_element(10, 1);
    assert_eq!(a.capacity(), 16);
    assert_eq!(a.length(), 11);
}

#[test]
fn growth_from_8_at_index_50_gives_64() {
    let mut a = DynamicBalArray::new(0);
    a.set_element(50, 1);
    assert_eq!(a.capacity(), 64);
    assert_eq!(a.length(), 51);
}

#[test]
fn growth_preserves_old_slots_and_zero_fills_new_ones() {
    let mut a = DynamicBalArray::new(0);
    a.set_element(2, 7);
    a.set_element(3, 8);
    a.set_element(20, 9);
    assert_eq!(a.capacity(), 32);
    assert_eq!(a.length(), 21);
    assert_eq!(a.get_element(2), 7);
    assert_eq!(a.get_element(3), 8);
    assert_eq!(a.get_element(20), 9);
    for j in 0..21 {
        if j != 2 && j != 3 && j != 20 {
            assert_eq!(a.get_element(j), 0);
        }
    }
}

#[test]
fn end_to_end_small_array() {
    let mut a = DynamicBalArray::new(4);
    a.set_element(0, 10);
    a.set_element(3, 40);
    assert_eq!(a.get_element(0), 10);
    assert_eq!(a.get_element(3), 40);
    assert_eq!(a.length(), 4);
    assert_eq!(a.try_get_element(1), Ok(0));
    assert_eq!(a.get_element(1), 0);
}

#[test]
fn single_resize_reaches_far_index() {
    let mut a = DynamicBalArray::new(1);
    assert_eq!(a.capacity(), 1);
    a.set_element(1_000_000, 5);
    assert_eq!(a.capacity(), 1_000_002);
    assert_eq!(a.length(), 1_000_001);
    assert_eq!(a.get_element(1_000_000), 5);
}

#[test]
fn single_resize_from_default_capacity() {
    let mut a = DynamicBalArray::new(0);
    a.set_element(1_000_000, 6);
    assert_eq!(a.capacity(), 1_000_016);
    assert_eq!(a.get_element(1_000_000), 6);
}

#[test]
fn read_beyond_length_within_capacity_fails() {
    let mut a = DynamicBalArray::new(0);
    a.set_element(2, 5);
    assert_eq!(a.try_get_element(5), Err(ArrayError::IndexOutOfRange));
}

#[test]
fn negative_index_read_fails() {
    let a = DynamicBalArray::new(0);
    assert_eq!(a.try_get_element(-1), Err(ArrayError::IndexOutOfRange));
}

#[test]
fn negative_index_write_fails_and_changes_nothing() {
    let mut a = DynamicBalArray::new(0);
    assert_eq!(a.try_set_element(-1, 3), Err(ArrayError::IndexOutOfRange));
    assert_eq!(a.capacity(), 8);
    assert_eq!(a.length(), 0);
}

#[test]
fn far_overflowing_write_fails_and_changes_nothing() {
    let mut a = DynamicBalArray::new(0);
    assert_eq!(a.try_set_element(i64::MAX, 1), Err(ArrayError::Overflow));
    assert_eq!(a.capacity(), 8);
    assert_eq!(a.length(), 0);
}

#[test]
fn checked_write_succeeds_in_range() {
    let mut a = DynamicBalArray::new(0);
    assert_eq!(a.try_set_element(3, 11), Ok(()));
    assert_eq!(a.get_element(3), 11);
    assert_eq!(a.length(), 4);
}

#[test]
fn checked_write_grows_like_the_unchecked_one() {
    let mut a = DynamicBalArray::new(0);
    assert_eq!(a.try_set_element(10, 4), Ok(()));
    assert_eq!(a.capacity(), 16);
    assert_eq!(a.get_element(10), 4);
}

#[test]
fn layout_of_small_capacity() {
    assert_eq!(DynamicBalArray::get_layout(5), Some((48, 8)));
}

#[test]
fn layout_of_zero_capacity_is_header_only() {
    assert_eq!(DynamicBalArray::get_layout(0), Some((8, 8)));
}

#[test]
fn layout_rejects_negative_capacity() {
    assert_eq!(DynamicBalArray::get_layout(-1), None);
}

#[test]
fn layout_rejects_address_space_overflow() {
    assert_eq!(DynamicBalArray::get_layout(i64::MAX), None);
}
