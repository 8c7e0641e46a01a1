use narrow::{Bitmap, BitmapRef, BufferRef, Collection, NullArray, Nulls, Unit, ValidityBitmap};
use std::mem;

#[derive(Copy, Clone, Debug, Default, PartialEq, Eq)]
struct Marker;

impl Unit for Marker {
    fn sole_value(_a: Self, _b: Self) {}
}

#[test]
fn nulls_count_and_keep_nothing() {
    let mut nulls = Nulls::<()>::from_iter(vec![(); 5]);
    assert_eq!(nulls.len(), 5);
    nulls.extend(vec![(); 2]);
    nulls.extend(Vec::new());
    assert_eq!(nulls.len(), 7);
    assert_eq!(nulls.iter(), vec![(); 7]);
    assert_eq!(nulls.iter(), vec![(); 7]);
    assert_eq!(nulls.into_iter(), vec![(); 7]);
}

#[test]
fn nulls_default_and_copy() {
    let nulls = Nulls::<Marker>::default();
    assert_eq!(nulls.len(), 0);
    assert_eq!(nulls.into_iter(), Vec::<Marker>::new());

    let nulls = Nulls::<Marker>::from_iter(vec![Marker; 3]);
    let copy = nulls;
    let clone = nulls.clone();
    assert_eq!(nulls.len(), 3);
    assert_eq!(copy.len(), 3);
    assert_eq!(clone.into_iter(), [Marker; 3]);
}

#[test]
fn null_array_length_is_the_number_collected() {
    for len in [0usize, 1, 8, 9, 42, 100_000] {
        let array = NullArray::<Marker, false>::from_iter(vec![Marker; len]);
        assert_eq!(array.len(), len);
        assert_eq!(mem::size_of_val(&array), mem::size_of::<usize>());
    }
}

#[test]
fn null_array_promotion_adds_one_bit_for_each_item() {
    for len in [0usize, 1, 7, 8, 9, 16, 17, 42] {
        let array = NullArray::<Marker, false>::from_iter(vec![Marker; len]);
        let nullable = NullArray::<Marker, true>::from(array);
        assert_eq!(nullable.len(), len);
        assert_eq!(nullable.bitmap_ref().len(), len);
        assert_eq!(nullable.bitmap_ref().buffer_ref().len(), (len + 7) / 8);
        assert!(nullable.all_valid());
        assert_eq!(
            mem::size_of_val(&nullable),
            mem::size_of::<usize>() + mem::size_of::<Bitmap>()
        );
    }
}

#[test]
fn nullable_null_array_tells_null_from_valid() {
    let input = vec![None, Some(Marker), None, None, Some(Marker)];
    let array = NullArray::<Marker, true>::from_iter(input.clone());
    assert_eq!(array.len(), 5);
    assert_eq!(array.is_valid(0), Some(false));
    assert_eq!(array.is_valid(1), Some(true));
    assert_eq!(array.is_null(2), Some(true));
    assert_eq!(array.is_valid(5), None);
    assert!(!array.all_valid());
    assert_eq!(array.iter(), input);
    assert_eq!(array.into_iter(), input);
}
