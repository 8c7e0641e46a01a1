use narrow::array::fixed_size_primitive::{
    Int16Array, Int32Array, Int64Array, IsizeArray, Uint16Array, Uint32Array, Uint64Array,
    Uint8Array, UsizeArray,
};
use narrow::{
    BitmapRef, BitmapRefMut, BooleanArray, BufferRef, BufferRefMut, Collection,
    FixedSizePrimitiveArray, NullArray, ValidityBitmap,
};

fn booleans(len: usize) -> Vec<bool> {
    (0..len).map(|i| (i * i + i / 3) % 5 < 2).collect()
}

fn optional_booleans(len: usize) -> Vec<Option<bool>> {
    (0..len).map(|i| if i % 4 == 1 { None } else { Some(i % 3 == 0) }).collect()
}

#[test]
fn boolean_array_reproduces_what_it_collected() {
    for len in [0usize, 1, 5, 8, 9, 31, 32, 33, 257] {
        let input = booleans(len);
        let array = BooleanArray::<false>::from_iter(input.clone());
        assert_eq!(array.len(), len);
        assert_eq!(array.iter(), input);
        assert_eq!(array.iter(), input);
        assert_eq!(array.into_iter(), input);
    }
}

#[test]
fn nullable_boolean_array_keeps_validity_and_present_values() {
    for len in [2usize, 5, 8, 9, 31, 32, 33, 257] {
        let input = optional_booleans(len);
        let array = BooleanArray::<true>::from_iter(input.clone());
        assert_eq!(array.len(), len);
        for i in 0..len {
            assert_eq!(array.is_valid(i), Some(input[i].is_some()));
            assert_eq!(array.bitmap_ref().get(i), Some(input[i].is_some()));
            if let Some(value) = input[i] {
                assert_eq!(array.0.data.get(i), Some(value));
            } else {
                assert_eq!(array.0.data.get(i), Some(false));
            }
        }
        assert_eq!(array.is_valid(len), None);
        assert_eq!(array.0.data.len(), array.0.validity.len());
        assert_eq!(array.iter(), input);
        assert_eq!(array.into_iter(), input);
    }
}

#[test]
fn packed_byte_of_four_booleans() {
    let array = BooleanArray::<false>::from_iter(vec![true, false, true, true]);
    assert_eq!(array.buffer_ref(), [0b00001101]);
    assert_eq!(array.len(), 4);
}

#[test]
fn nullable_fixed_size_array_stores_default_for_null() {
    let array =
        FixedSizePrimitiveArray::<u64, true>::from_iter(vec![Some(1u64), None, Some(3), Some(4)]);
    assert_eq!(array.buffer_ref(), [1, 0, 3, 4]);
    assert_eq!(array.0.data.as_slice(), [1, 0, 3, 4]);
    assert_eq!(array.bitmap_ref().iter(), [true, false, true, true]);
    assert_eq!(array.bitmap_ref().buffer_ref(), [0b0000_1101]);
}

#[test]
fn validity_of_null_and_of_index_past_the_end() {
    let array = BooleanArray::<true>::from_iter(vec![Some(true), None, Some(true), Some(false)]);
    assert_eq!(array.is_valid(1), Some(false));
    assert_eq!(array.is_valid(4), None);
    assert_eq!(array.is_null(1), Some(true));
    assert_eq!(array.is_null(4), None);
}

#[test]
fn promotion_makes_every_item_valid() {
    for len in [0usize, 1, 7, 8, 9, 100] {
        let input = booleans(len);
        let nullable = BooleanArray::<true>::from(BooleanArray::<false>::from_iter(input.clone()));
        assert!(nullable.all_valid());
        assert_eq!(nullable.bitmap_ref().len(), len);
        assert_eq!(nullable.len(), len);
        let expected: Vec<Option<bool>> = (0..len).map(|i| Some(input[i])).collect();
        assert_eq!(nullable.into_iter(), expected);

        let values: Vec<i64> = (0..len as i64).map(|i| i - 3).collect();
        let nullable = Int64Array::<true>::from(Int64Array::<false>::from_iter(values.clone()));
        assert!(nullable.all_valid());
        assert_eq!(nullable.bitmap_ref().len(), len);
        assert_eq!(nullable.buffer_ref(), values);
        let expected: Vec<Option<i64>> = (0..len).map(|i| Some(values[i])).collect();
        assert_eq!(nullable.into_iter(), expected);

        let nullable = NullArray::<(), true>::from(NullArray::<(), false>::from_iter(vec![(); len]));
        assert!(nullable.all_valid());
        assert_eq!(nullable.bitmap_ref().len(), len);
        assert_eq!(nullable.into_iter(), vec![Some(()); len]);
    }
}

#[test]
fn promotion_does_not_look_at_the_values() {
    let nullable = Uint8Array::<true>::from(Uint8Array::<false>::from_iter(vec![0, 0, 7]));
    assert_eq!(nullable.into_iter(), [Some(0), Some(0), Some(7)]);
    let nullable = BooleanArray::<true>::from(BooleanArray::<false>::from_iter(vec![false; 3]));
    assert_eq!(nullable.into_iter(), [Some(false); 3]);
}

#[test]
fn promotion_of_array_without_default() {
    let array = FixedSizePrimitiveArray::<[u8; 2], false>::from_iter(vec![[1, 2], [3, 4]]);
    let nullable: FixedSizePrimitiveArray<[u8; 2], true> = array.into();
    assert!(nullable.bitmap_ref().all_valid());
    assert_eq!(nullable.bitmap_ref().len(), 2);
    assert_eq!(nullable.0.data.as_slice(), [[1, 2], [3, 4]]);
}

#[test]
fn default_arrays_are_empty() {
    let array = BooleanArray::<false>::default();
    assert_eq!(array.len(), 0);
    assert!(array.buffer_ref().is_empty());
    assert_eq!(array.into_iter(), Vec::<bool>::new());

    let array = BooleanArray::<true>::default();
    assert_eq!(array.len(), 0);
    assert_eq!(array.is_valid(0), None);
    assert!(array.all_valid());

    let array = Int32Array::<false>::default();
    assert_eq!(array.len(), 0);
    let array = Int32Array::<true>::default();
    assert_eq!(array.len(), 0);
    assert_eq!(array.into_iter(), Vec::<Option<i32>>::new());

    let array = NullArray::<(), false>::default();
    assert_eq!(array.len(), 0);
    let array = NullArray::<(), true>::default();
    assert_eq!(array.len(), 0);
    assert_eq!(array.bitmap_ref().len(), 0);
}

#[test]
fn arrays_extend_in_order() {
    let mut array = BooleanArray::<false>::from_iter(vec![true, true, false]);
    array.extend(vec![false, true, false, true, true, true]);
    assert_eq!(array.len(), 9);
    assert_eq!(
        array.iter(),
        [true, true, false, false, true, false, true, true, true]
    );
    assert_eq!(array.buffer_ref(), [0b1101_0011, 0b0000_0001]);

    let mut array = BooleanArray::<true>::default();
    array.extend(vec![Some(true), None]);
    array.extend(vec![None, Some(false), Some(true)]);
    assert_eq!(array.len(), 5);
    assert_eq!(array.iter(), [Some(true), None, None, Some(false), Some(true)]);
    assert_eq!(array.buffer_ref(), [0b0001_0001]);
    assert_eq!(array.bitmap_ref().buffer_ref(), [0b0001_1001]);

    let mut array = Uint16Array::<false>::from_iter(vec![1, 2]);
    array.extend(vec![3]);
    array.extend(Vec::new());
    assert_eq!(array.iter(), [1, 2, 3]);

    let mut array = Uint32Array::<true>::from_iter(vec![None]);
    array.extend(vec![Some(5), None]);
    assert_eq!(array.len(), 3);
    assert_eq!(array.buffer_ref(), [0, 5, 0]);
    assert_eq!(array.iter(), [None, Some(5), None]);

    let mut array = NullArray::<(), false>::from_iter(vec![(); 3]);
    array.extend(vec![(); 4]);
    assert_eq!(array.len(), 7);
    assert_eq!(array.iter(), vec![(); 7]);

    let mut array = NullArray::<(), true>::from_iter(vec![Some(()), None]);
    array.extend(vec![None, Some(())]);
    assert_eq!(array.len(), 4);
    assert_eq!(array.into_iter(), [Some(()), None, None, Some(())]);
}

#[test]
fn fixed_size_arrays_of_every_integer() {
    assert_eq!(Int16Array::<false>::from_iter(vec![-1, 2]).into_iter(), [-1, 2]);
    assert_eq!(Int32Array::<false>::from_iter(vec![i32::MIN, 2]).into_iter(), [i32::MIN, 2]);
    assert_eq!(Int64Array::<false>::from_iter(vec![i64::MAX]).into_iter(), [i64::MAX]);
    assert_eq!(Uint16Array::<false>::from_iter(vec![u16::MAX]).into_iter(), [u16::MAX]);
    assert_eq!(Uint32Array::<false>::from_iter(vec![7]).into_iter(), [7]);
    assert_eq!(Uint64Array::<false>::from_iter(vec![u64::MAX]).into_iter(), [u64::MAX]);
    assert_eq!(IsizeArray::<false>::from_iter(vec![-5]).into_iter(), [-5]);
    assert_eq!(UsizeArray::<false>::from_iter(vec![5]).into_iter(), [5]);
    assert_eq!(
        IsizeArray::<true>::from_iter(vec![None, Some(-5)]).into_iter(),
        [None, Some(-5)]
    );
}

#[test]
fn buffer_ref_mut_of_arrays_writes_values() {
    let mut array = Uint8Array::<false>::from_iter(vec![1, 2, 3]);
    array.buffer_ref_mut()[1] = 9;
    assert_eq!(array.iter(), [1, 9, 3]);

    let mut array = Uint8Array::<true>::from_iter(vec![Some(1), None, Some(3)]);
    array.buffer_ref_mut()[1] = 9;
    array.buffer_ref_mut()[2] = 8;
    assert_eq!(array.iter(), [Some(1), None, Some(8)]);

    let mut array = BooleanArray::<true>::from_iter(vec![Some(false), None, Some(false)]);
    array.buffer_ref_mut()[0] = 0xff;
    assert_eq!(array.iter(), [Some(true), None, Some(true)]);
}

#[test]
fn bitmap_ref_mut_of_arrays_changes_validity() {
    let mut array = BooleanArray::<true>::from_iter(vec![Some(true), Some(false), Some(true)]);
    array.bitmap_ref_mut().buffer_ref_mut()[0] = 0b0000_0110;
    assert_eq!(array.iter(), [None, Some(false), Some(true)]);
    assert!(!array.all_valid());

    let mut array = NullArray::<(), true>::from_iter(vec![Some(()); 3]);
    array.bitmap_ref_mut().buffer_ref_mut()[0] = 0;
    assert_eq!(array.iter(), [None, None, None]);
    assert_eq!(array.len(), 3);
}

fn is_array<A: narrow::Array>(_array: &A) -> bool {
    true
}

#[test]
fn every_kind_is_an_array() {
    assert!(is_array(&BooleanArray::<false>::default()));
    assert!(is_array(&BooleanArray::<true>::default()));
    assert!(is_array(&Uint8Array::<false>::default()));
    assert!(is_array(&Uint8Array::<true>::default()));
    assert!(is_array(&NullArray::<(), false>::default()));
    assert!(is_array(&NullArray::<(), true>::default()));
}

#[test]
fn validity_bit_written_through_the_bitmap() {
    let mut array = Uint8Array::<true>::from_iter(vec![Some(5), Some(6), None]);
    array.bitmap_ref_mut().set(0, false);
    array.bitmap_ref_mut().set(2, true);
    assert_eq!(array.iter(), [None, Some(6), Some(0)]);
    assert_eq!(array.is_valid(0), Some(false));
    assert_eq!(array.is_null(2), Some(false));
}
