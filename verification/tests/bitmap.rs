use narrow::{Bitmap, BitmapRef, BitmapRefMut, BufferRef, BufferRefMut, Collection, ValidityBitmap};

fn pattern(len: usize) -> Vec<bool> {
    (0..len).map(|i| i % 3 == 0 || i % 7 == 2).collect()
}

#[test]
fn bitmap_round_trip_of_every_length() {
    for len in [0usize, 1, 2, 7, 8, 9, 15, 16, 17, 63, 64, 65, 1000] {
        let input = pattern(len);
        let bitmap = Bitmap::from_iter(input.clone());
        assert_eq!(bitmap.len(), len);
        assert_eq!(bitmap.iter(), input);
        assert_eq!(bitmap.buffer_ref().len(), (len + 7) / 8);
        assert_eq!(bitmap.into_iter(), input);
    }
}

#[test]
fn bitmap_packs_least_significant_bit_first() {
    let bitmap = Bitmap::from_iter(vec![true, false, true, true]);
    assert_eq!(bitmap.buffer_ref(), [0b0000_1101]);

    let bitmap = Bitmap::from_iter(vec![
        false, false, false, false, false, false, false, true, true,
    ]);
    assert_eq!(bitmap.buffer_ref(), [0b1000_0000, 0b0000_0001]);

    let bitmap = Bitmap::from_iter(vec![true; 8]);
    assert_eq!(bitmap.buffer_ref(), [0xff]);

    let bitmap = Bitmap::from_iter(vec![true; 9]);
    assert_eq!(bitmap.buffer_ref(), [0xff, 0x01]);
}

#[test]
fn bitmap_empty() {
    let bitmap = Bitmap::new();
    assert_eq!(bitmap.len(), 0);
    assert!(bitmap.buffer_ref().is_empty());
    assert_eq!(bitmap.get(0), None);
    assert_eq!(bitmap.iter(), Vec::<bool>::new());
    assert!(bitmap.all_valid());

    let bitmap = Bitmap::default();
    assert_eq!(bitmap.len(), 0);
    assert!(bitmap.buffer_ref().is_empty());

    let bitmap = Bitmap::from_iter(Vec::new());
    assert_eq!(bitmap.len(), 0);
    assert!(bitmap.buffer_ref().is_empty());
}

#[test]
fn bitmap_get_inside_and_past_the_end() {
    let bitmap = Bitmap::from_iter(vec![true, false, true, true, false, false, false, false, true]);
    assert_eq!(bitmap.get(0), Some(true));
    assert_eq!(bitmap.get(1), Some(false));
    assert_eq!(bitmap.get(7), Some(false));
    assert_eq!(bitmap.get(8), Some(true));
    assert_eq!(bitmap.get(9), None);
    assert_eq!(bitmap.get(15), None);
    assert_eq!(bitmap.get(usize::MAX), None);
}

#[test]
fn bitmap_index() {
    let bitmap = Bitmap::from_iter(vec![true, false, true]);
    assert!(bitmap[0]);
    assert!(!bitmap[1]);
    assert!(bitmap[2]);
}

#[test]
fn bitmap_push_grows_by_one_bit() {
    let mut bitmap = Bitmap::new();
    let input = pattern(20);
    for i in 0..input.len() {
        bitmap.push(input[i]);
        assert_eq!(bitmap.len(), i + 1);
        assert_eq!(bitmap.get(i), Some(input[i]));
        assert_eq!(bitmap.get(i + 1), None);
        assert_eq!(bitmap.buffer_ref().len(), (i + 8) / 8);
    }
    assert_eq!(bitmap.into_iter(), input);
}

#[test]
fn bitmap_extend_across_byte_boundaries() {
    let mut bitmap = Bitmap::from_iter(vec![true, false, true]);
    bitmap.extend(vec![true, true, false, false, true, true, false]);
    assert_eq!(bitmap.len(), 10);
    assert_eq!(bitmap.buffer_ref(), [0b1001_1101, 0b0000_0001]);
    bitmap.extend(Vec::new());
    assert_eq!(bitmap.len(), 10);
    bitmap.extend(vec![true; 6]);
    assert_eq!(bitmap.len(), 16);
    assert_eq!(bitmap.buffer_ref(), [0b1001_1101, 0b1111_1101]);
    bitmap.extend(vec![false]);
    assert_eq!(bitmap.buffer_ref(), [0b1001_1101, 0b1111_1101, 0]);
}

#[test]
fn bitmap_push_clears_what_the_padding_held() {
    let mut bitmap = Bitmap::from_iter(vec![true, false]);
    bitmap.buffer_ref_mut()[0] = 0xff;
    assert_eq!(bitmap.iter(), [true, true]);
    bitmap.push(false);
    bitmap.push(true);
    bitmap.extend(vec![false, false]);
    assert_eq!(bitmap.iter(), [true, true, false, true, false, false]);
    assert_eq!(bitmap.buffer_ref(), [0b1100_1011]);
}

#[test]
fn bitmap_buffer_ref_mut_flips_bits() {
    let mut bitmap = Bitmap::from_iter(vec![false; 12]);
    bitmap.buffer_ref_mut()[1] = 0b0000_0101;
    assert_eq!(bitmap.len(), 12);
    assert_eq!(bitmap.get(8), Some(true));
    assert_eq!(bitmap.get(9), Some(false));
    assert_eq!(bitmap.get(10), Some(true));
    assert_eq!(bitmap.get(11), Some(false));
    assert_eq!(bitmap.get(12), None);
}

#[test]
fn bitmap_validity_questions() {
    let bitmap = Bitmap::from_iter(vec![true, false, true]);
    assert_eq!(bitmap.is_valid(0), Some(true));
    assert_eq!(bitmap.is_valid(1), Some(false));
    assert_eq!(bitmap.is_valid(3), None);
    assert_eq!(bitmap.is_null(0), Some(false));
    assert_eq!(bitmap.is_null(1), Some(true));
    assert_eq!(bitmap.is_null(3), None);
    assert!(!bitmap.all_valid());
    assert!(Bitmap::from_iter(vec![true; 17]).all_valid());

    let mut last = vec![true; 17];
    last[16] = false;
    assert!(!Bitmap::from_iter(last).all_valid());
}

#[test]
fn bitmap_all_valid_ignores_the_padding() {
    let mut bitmap = Bitmap::from_iter(vec![true; 3]);
    assert_eq!(bitmap.buffer_ref(), [0b0000_0111]);
    assert!(bitmap.all_valid());
    bitmap.buffer_ref_mut()[0] = 0b1111_0111;
    assert!(bitmap.all_valid());
    bitmap.buffer_ref_mut()[0] = 0b1111_1011;
    assert!(!bitmap.all_valid());
}

#[test]
fn bitmap_lends_itself_as_validity_bitmap() {
    let mut bitmap = Bitmap::from_iter(vec![true, false]);
    assert_eq!(bitmap.bitmap_ref().len(), 2);
    bitmap.bitmap_ref_mut().push(true);
    assert_eq!(bitmap.iter(), [true, false, true]);
}

#[test]
fn bitmap_set_writes_one_bit() {
    let mut bitmap = Bitmap::from_iter(vec![false; 10]);
    bitmap.set(0, true);
    bitmap.set(9, true);
    bitmap.set(3, true);
    bitmap.set(3, false);
    bitmap.set(9, true);
    assert_eq!(bitmap.len(), 10);
    assert_eq!(bitmap.buffer_ref(), [0b0000_0001, 0b0000_0010]);
    bitmap.set(0, false);
    assert_eq!(
        bitmap.iter(),
        [false, false, false, false, false, false, false, false, false, true]
    );
}
