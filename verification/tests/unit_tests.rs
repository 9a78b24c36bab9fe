//! Tests of the small helpers: clamping, integer square root, slot
//! collections, and the deadzone filter.

use galaxy_monkey::input::{check_deadzone, normalize_axis};
use galaxy_monkey::slots::{delete_marked_entities, insert_into_option_vec, no_occupied_slot};
use galaxy_monkey::structs::Vector2;
use galaxy_monkey::util::{clamp, isqrt, obtain_result};
use galaxy_monkey::UNITS_PER_PIXEL;

#[test]
fn clamp_applies_both_bounds() {
    assert_eq!(clamp(5, 0, 10), 5);
    assert_eq!(clamp(-3, 0, 10), 0);
    assert_eq!(clamp(42, 0, 10), 10);
    assert_eq!(clamp(0, 0, 0), 0);
}

#[test]
fn obtain_result_returns_the_ok_value() {
    let res: Result<u32, i32> = Ok(7);
    assert_eq!(obtain_result(res), 7);
}

#[test]
fn isqrt_exact_and_floored() {
    assert_eq!(isqrt(0), 0);
    assert_eq!(isqrt(1), 1);
    assert_eq!(isqrt(2), 1);
    assert_eq!(isqrt(3), 1);
    assert_eq!(isqrt(4), 2);
    assert_eq!(isqrt(32767 * 32767), 32767);
    assert_eq!(isqrt(32767 * 32767 + 1), 32767);
    assert_eq!(isqrt(0xffff_ffff), 65535);
}

#[test]
fn axis_readings_normalize_into_full_deflection() {
    // the full signed 16-bit range maps into [-1.0, 1.0]: the one reading
    // of larger magnitude saturates
    assert_eq!(normalize_axis(i16::MIN), -UNITS_PER_PIXEL);
    assert_eq!(normalize_axis(-32767), -UNITS_PER_PIXEL);
    assert_eq!(normalize_axis(0), 0);
    assert_eq!(normalize_axis(i16::MAX), UNITS_PER_PIXEL);
}

#[test]
fn deadzone_zeroes_small_sticks_whole() {
    // 6553 / 32767 is just below 0.20 on both axes: the whole vector reads
    // as neutral.
    let filtered = check_deadzone(Vector2 { x: 6553, y: 6553 });
    assert_eq!(filtered.x, 0);
    assert_eq!(filtered.y, 0);
    let filtered = check_deadzone(Vector2 { x: -6553, y: -6553 });
    assert_eq!(filtered.x, 0);
    assert_eq!(filtered.y, 0);
}

#[test]
fn deadzone_keeps_deflected_sticks_unmodified() {
    // 6554 / 32767 is at least 0.20: one deflected axis keeps the whole
    // vector, the small component included.
    let filtered = check_deadzone(Vector2 { x: 6554, y: 3 });
    assert_eq!(filtered.x, 6554);
    assert_eq!(filtered.y, 3);
    let filtered = check_deadzone(Vector2 { x: 5, y: -6554 });
    assert_eq!(filtered.x, 5);
    assert_eq!(filtered.y, -6554);
    let full = check_deadzone(Vector2 { x: UNITS_PER_PIXEL, y: 0 });
    assert_eq!(full.x, UNITS_PER_PIXEL);
    assert_eq!(full.y, 0);
}

#[test]
fn insert_fills_the_lowest_empty_slot() {
    let mut v: Vec<Option<u32>> = vec![Some(10), None, Some(30), None];
    insert_into_option_vec(&mut v, 99);
    assert_eq!(v, vec![Some(10), Some(99), Some(30), None]);
}

#[test]
fn insert_appends_only_when_full() {
    let mut v: Vec<Option<u32>> = vec![Some(1), Some(2)];
    insert_into_option_vec(&mut v, 3);
    assert_eq!(v, vec![Some(1), Some(2), Some(3)]);

    let mut empty: Vec<Option<u32>> = Vec::new();
    insert_into_option_vec(&mut empty, 8);
    assert_eq!(empty, vec![Some(8)]);
}

#[test]
fn delete_empties_exactly_the_marked_slots() {
    let mut v: Vec<Option<u32>> = vec![Some(1), Some(2), Some(3), Some(4)];
    delete_marked_entities(&mut v, vec![0, 2]);
    assert_eq!(v, vec![None, Some(2), None, Some(4)]);

    let mut v: Vec<Option<u32>> = vec![Some(1), Some(2), Some(3)];
    delete_marked_entities(&mut v, vec![2, 0]);
    assert_eq!(v, vec![None, Some(2), None]);

    let mut v: Vec<Option<u32>> = vec![Some(1)];
    delete_marked_entities(&mut v, Vec::new());
    assert_eq!(v, vec![Some(1)]);
}

#[test]
fn no_occupied_slot_sees_through_empties() {
    let v: Vec<Option<u32>> = vec![None, None];
    assert!(no_occupied_slot(&v));
    let v: Vec<Option<u32>> = vec![None, Some(5)];
    assert!(!no_occupied_slot(&v));
    let v: Vec<Option<u32>> = Vec::new();
    assert!(no_occupied_slot(&v));
}
