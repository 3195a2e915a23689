use led_effects::buffers::{Buffer, BufferStore, ElementType, Item};
use led_effects::color::Color;
use led_effects::error::EffectError;
use led_effects::geometry::Point;

#[test]
fn create_buffer_twice_is_a_duplicate() {
    let mut store = BufferStore::new();
    assert_eq!(store.create_buffer("x", ElementType::Point), Ok(()));
    assert_eq!(
        store.create_buffer("x", ElementType::Point),
        Err(EffectError::DuplicateBuffer)
    );
    assert_eq!(
        store.create_buffer("x", ElementType::Color),
        Err(EffectError::DuplicateBuffer)
    );
    assert_eq!(store.len(), 1);
}

#[test]
fn get_buffer_with_another_type_is_a_mismatch() {
    let mut store = BufferStore::new();
    store.create_buffer("x", ElementType::Point).unwrap();
    assert_eq!(
        store.get_buffer("x", ElementType::Color).err(),
        Some(EffectError::TypeMismatch)
    );
    assert_eq!(
        store.get_buffer("x", ElementType::Scalar).err(),
        Some(EffectError::TypeMismatch)
    );
    assert!(store.get_buffer("x", ElementType::Point).is_ok());
    assert_eq!(store.get_colors_mut("x").err(), Some(EffectError::TypeMismatch));
    assert_eq!(store.get_scalars_mut("x").err(), Some(EffectError::TypeMismatch));
}

#[test]
fn get_buffer_of_an_unknown_name_is_missing() {
    let mut store = BufferStore::new();
    store.create_buffer("x", ElementType::Point).unwrap();
    assert_eq!(
        store.get_buffer("y", ElementType::Point).err(),
        Some(EffectError::MissingBuffer)
    );
    assert_eq!(store.get_points_mut("y").err(), Some(EffectError::MissingBuffer));
    assert_eq!(
        store.get_buffer_item("y", ElementType::Point, 0),
        Err(EffectError::MissingBuffer)
    );
    assert!(store.contains("x"));
    assert!(!store.contains("y"));
    assert!(!store.contains(""));
}

#[test]
fn a_new_buffer_is_empty_and_keeps_its_type() {
    let mut store = BufferStore::new();
    store.create_buffer("s", ElementType::Scalar).unwrap();
    store.create_buffer("p", ElementType::Point).unwrap();
    store.create_buffer("c", ElementType::Color).unwrap();
    assert_eq!(store.len(), 3);
    let s = store.get_buffer("s", ElementType::Scalar).unwrap();
    assert_eq!(s.len(), 0);
    assert_eq!(s.kind(), ElementType::Scalar);
    assert_eq!(store.get_buffer("p", ElementType::Point).unwrap().kind(), ElementType::Point);
    assert_eq!(store.get_buffer("c", ElementType::Color).unwrap().kind(), ElementType::Color);
}

#[test]
fn what_is_written_through_mutable_access_is_read_back() {
    let mut store = BufferStore::new();
    store.create_buffer("p", ElementType::Point).unwrap();
    store.create_buffer("s", ElementType::Scalar).unwrap();
    store.create_buffer("c", ElementType::Color).unwrap();
    {
        let points = store.get_points_mut("p").unwrap();
        points.push(Point::new(1, 2));
        points.push(Point::new(-3, 4));
    }
    store.get_scalars_mut("s").unwrap().push(-7);
    store.get_colors_mut("c").unwrap().push(Color::new(1, 2, 3));
    assert_eq!(
        store.get_buffer_item("p", ElementType::Point, 1),
        Ok(Item::Point(Point::new(-3, 4)))
    );
    assert_eq!(store.get_buffer_item("s", ElementType::Scalar, 0), Ok(Item::Scalar(-7)));
    assert_eq!(
        store.get_buffer_item("c", ElementType::Color, 0),
        Ok(Item::Color(Color::new(1, 2, 3)))
    );
    match store.get_buffer("p", ElementType::Point).unwrap() {
        Buffer::Points(v) => assert_eq!(v, &vec![Point::new(1, 2), Point::new(-3, 4)]),
        _ => panic!("a points buffer is expected"),
    }
    assert_eq!(store.len(), 3);
}

#[test]
fn get_buffer_item_past_the_end_is_out_of_range() {
    let mut store = BufferStore::new();
    store.create_buffer("p", ElementType::Point).unwrap();
    assert_eq!(
        store.get_buffer_item("p", ElementType::Point, 0),
        Err(EffectError::IndexOutOfRange)
    );
    store.get_points_mut("p").unwrap().push(Point::new(5, 6));
    assert_eq!(
        store.get_buffer_item("p", ElementType::Point, 0),
        Ok(Item::Point(Point::new(5, 6)))
    );
    assert_eq!(
        store.get_buffer_item("p", ElementType::Point, 1),
        Err(EffectError::IndexOutOfRange)
    );
    assert_eq!(
        store.get_buffer_item("p", ElementType::Color, 0),
        Err(EffectError::TypeMismatch)
    );
}

#[test]
fn clear_removes_every_buffer() {
    let mut store = BufferStore::new();
    store.create_buffer("a", ElementType::Scalar).unwrap();
    store.create_buffer("b", ElementType::Color).unwrap();
    store.clear();
    assert_eq!(store.len(), 0);
    assert!(!store.contains("a"));
    assert_eq!(store.create_buffer("a", ElementType::Point), Ok(()));
}

#[test]
fn names_are_told_apart_exactly() {
    let mut store = BufferStore::new();
    store.create_buffer("stars", ElementType::Point).unwrap();
    assert_eq!(store.create_buffer("star", ElementType::Point), Ok(()));
    assert_eq!(store.create_buffer("Stars", ElementType::Point), Ok(()));
    assert_eq!(store.create_buffer("", ElementType::Point), Ok(()));
    assert_eq!(store.len(), 4);
}

#[test]
fn every_error_has_its_own_description() {
    let all = [
        EffectError::DuplicateBuffer,
        EffectError::MissingBuffer,
        EffectError::TypeMismatch,
        EffectError::IndexOutOfRange,
        EffectError::AlreadyMounted,
        EffectError::NotMounted,
    ];
    for (i, a) in all.iter().enumerate() {
        for (j, b) in all.iter().enumerate() {
            assert_eq!(a.describe() == b.describe(), i == j);
        }
    }
    assert_eq!(EffectError::NotMounted.describe(), "the driver holds no domain");
}
