use narrow::{
    Bitmap, BitmapRef, BooleanArray, BufferRef, BufferRefMut, Collection, ValidityBitmap,
};
use std::mem;

#[test]
fn boolean_from_iter() {
    let mut array = BooleanArray::<false>::from_iter(vec![true, false, true, true]);
    assert_eq!(array.len(), 4);
    assert_eq!(array.buffer_ref(), [0b00001101]);
    array.buffer_ref_mut()[0] = 0xff;
    assert_eq!(array.buffer_ref(), [0b11111111]);

    let array = BooleanArray::<true>::from_iter(vec![Some(true), None, Some(true), Some(false)]);
    assert_eq!(array.len(), 4);
    assert_eq!(array.0.data.is_valid(0), Some(true));
    assert_eq!(array.0.data.is_null(1), Some(true));
    assert_eq!(array.0.data.is_valid(2), Some(true));
    assert_eq!(array.0.data.is_valid(3), Some(false));
    assert_eq!(array.is_valid(0), Some(true));
    assert_eq!(array.is_null(1), Some(true));
    assert_eq!(array.is_valid(2), Some(true));
    assert_eq!(array.is_valid(3), Some(true));
    assert!(array.bitmap_ref()[0]);
    assert!(!array.bitmap_ref()[1]);
    assert!(array.bitmap_ref()[2]);
    assert!(array.bitmap_ref()[3]);
    assert!(array.0.data.is_valid(4).is_none());
    assert_eq!(array.0.data.bitmap_ref().len(), array.len());
}

#[test]
fn boolean_into_iter() {
    let input = [true, false, true, true];
    let array = BooleanArray::<false>::from_iter(input.to_vec());
    let output = array.iter();
    assert_eq!(input, output.as_slice());

    let output = array.into_iter();
    assert_eq!(input, output.as_slice());

    let input = [Some(true), None, Some(true), Some(false)];
    let array = BooleanArray::<true>::from_iter(input.to_vec());
    let output = array.iter();
    assert_eq!(input, output.as_slice());

    let output = array.into_iter();
    assert_eq!(input, output.as_slice());
}

#[test]
fn buffer_ref_mut() {
    let input = [false, false, false, false];
    let mut array = BooleanArray::<false>::from_iter(input.to_vec());
    array.0.buffer_ref_mut()[0] = 0b0000_1111;
    assert_eq!(array.into_iter(), [true, true, true, true]);
}

#[test]
fn boolean_convert_nullable() {
    let input = [true, false];
    let array = BooleanArray::<false>::from_iter(input.to_vec());
    let nullable: BooleanArray<true> = array.into();
    assert!(nullable.all_valid());
    assert_eq!(nullable.into_iter(), [Some(true), Some(false)]);
}

#[test]
fn boolean_size_of() {
    assert_eq!(mem::size_of::<BooleanArray<false>>(), mem::size_of::<Bitmap>());
    assert_eq!(
        mem::size_of::<BooleanArray<true>>(),
        mem::size_of::<BooleanArray<false>>() + mem::size_of::<Bitmap>()
    );
}
