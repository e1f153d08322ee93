use rgb_img::Greyscale;
use rgb_img::GreyscaleIter;
use rgb_img::RgbError;
use rgb_img::RgbImg;
use rgb_img::RgbSource;
use rgb_img::luma;

#[test]
fn new_image_is_empty() {
    let img = RgbImg::new();
    assert_eq!(img.height(), 0);
    assert_eq!(img.width(), 0);
    assert_eq!(img.total(), 0);
    assert_eq!(img.r().len(), 0);
    assert_eq!(img.g().len(), 0);
    assert_eq!(img.b().len(), 0);
    assert_eq!(img.to_packed_buf(), Vec::<u8>::new());
}

#[test]
fn decode_end_to_end_scenario() {
    let buf: Vec<u8> = vec![10, 20, 30, 40, 50, 60];
    let img = RgbImg::from_packed_buf(&buf, 1, 2).unwrap();
    assert_eq!(img.height(), 1);
    assert_eq!(img.width(), 2);
    assert_eq!(img.total(), 2);
    assert_eq!(img.r(), &[10, 40]);
    assert_eq!(img.g(), &[20, 50]);
    assert_eq!(img.b(), &[30, 60]);
    assert_eq!(img.to_packed_buf(), buf);

    let mut grey = img.iter().greyscale();
    assert_eq!(grey.next(), Some(luma(10, 20, 30)));
    assert_eq!(grey.next(), Some(luma(40, 50, 60)));
    assert_eq!(grey.next(), None);
}

#[test]
fn round_trip_through_planar_and_back() {
    let buf: Vec<u8> = (0..=251).collect();
    assert_eq!(buf.len(), 252);
    let img = RgbImg::from_packed_buf(&buf, 4, 21).unwrap();
    assert_eq!(img.to_packed_buf(), buf);
}

#[test]
fn round_trip_of_empty_buffer() {
    let img = RgbImg::from_packed_buf(&[], 0, 0).unwrap();
    assert_eq!(img.to_packed_buf(), Vec::<u8>::new());
    let img = RgbImg::from_packed_buf(&[], 0, 17).unwrap();
    assert_eq!(img.total(), 0);
    assert_eq!(img.to_packed_buf(), Vec::<u8>::new());
}

#[test]
fn round_trip_from_image_side() {
    let buf: Vec<u8> = vec![1, 2, 3, 4, 5, 6, 7, 8, 9, 10, 11, 12];
    let img = RgbImg::from_packed_buf(&buf, 2, 2).unwrap();
    let packed = img.to_packed_buf();
    let again = RgbImg::from_packed_buf(&packed, img.height(), img.width()).unwrap();
    assert_eq!(again.r(), img.r());
    assert_eq!(again.g(), img.g());
    assert_eq!(again.b(), img.b());
    assert_eq!(again.height(), img.height());
    assert_eq!(again.width(), img.width());
}

#[test]
fn dimension_consistency() {
    let buf: Vec<u8> = vec![0; 3 * 5 * 7];
    let img = RgbImg::from_packed_buf(&buf, 5, 7).unwrap();
    assert_eq!(img.total(), img.height() * img.width());
    assert_eq!(img.r().len(), img.total());
    assert_eq!(img.g().len(), img.total());
    assert_eq!(img.b().len(), img.total());
}

#[test]
fn decode_rejects_length_not_multiple_of_three() {
    let buf: Vec<u8> = vec![1, 2, 3, 4];
    assert!(matches!(
        RgbImg::from_packed_buf(&buf, 1, 1),
        Err(RgbError::InvalidBufferLength)
    ));
}

#[test]
fn decode_rejects_mismatched_dimensions() {
    let buf: Vec<u8> = vec![1, 2, 3, 4, 5, 6];
    assert!(matches!(
        RgbImg::from_packed_buf(&buf, 1, 3),
        Err(RgbError::InvalidBufferLength)
    ));
    assert!(matches!(
        RgbImg::from_packed_buf(&buf, 0, 0),
        Err(RgbError::InvalidBufferLength)
    ));
}

#[test]
fn decode_rejects_overflowing_dimensions() {
    let buf: Vec<u8> = vec![0; 6];
    assert!(matches!(
        RgbImg::from_packed_buf(&buf, usize::MAX, 2),
        Err(RgbError::InvalidBufferLength)
    ));
}

#[test]
fn zip_yields_each_pixel_then_stops() {
    let buf: Vec<u8> = vec![9, 8, 7, 6, 5, 4, 3, 2, 1];
    let img = RgbImg::from_packed_buf(&buf, 3, 1).unwrap();
    let mut it = img.iter();
    assert_eq!(it.size_hint(), (3, Some(3)));
    assert_eq!(it.next_triple(), Some((9, 8, 7)));
    assert_eq!(it.next_triple(), Some((6, 5, 4)));
    assert_eq!(it.size_hint(), (1, Some(1)));
    assert_eq!(it.next_triple(), Some((3, 2, 1)));
    assert_eq!(it.next_triple(), None);
    assert_eq!(it.next_triple(), None);
    assert_eq!(it.size_hint(), (0, Some(0)));
}

#[test]
fn zip_count_matches_total() {
    let buf: Vec<u8> = (0..60).collect();
    let img = RgbImg::from_packed_buf(&buf, 4, 5).unwrap();
    let mut it = img.iter();
    let mut count = 0usize;
    while let Some(_) = it.next_triple() {
        count += 1;
    }
    assert_eq!(count, img.total());
}

#[test]
fn luma_boundary_values() {
    assert_eq!(luma(255, 255, 255), 255);
    assert_eq!(luma(0, 0, 0), 0);
    assert_eq!(luma(255, 0, 0), 54);
}

#[test]
fn luma_exact_formula_values() {
    // 0.21263901 * 10 + 0.71516868 * 20 + 0.07219232 * 30 = 18.59...
    assert_eq!(luma(10, 20, 30), 18);
    // 0.21263901 * 40 + 0.71516868 * 50 + 0.07219232 * 60 = 48.59...
    assert_eq!(luma(40, 50, 60), 48);
    assert_eq!(luma(0, 255, 0), 182);
    assert_eq!(luma(0, 0, 255), 18);
}

#[test]
fn luma_matches_floating_point_reference() {
    for r in (0u16..256).step_by(5) {
        for g in (0u16..256).step_by(5) {
            for b in (0u16..256).step_by(5) {
                let rf = (r as f64) / 255.0;
                let gf = (g as f64) / 255.0;
                let bf = (b as f64) / 255.0;
                let grey = 0.21263901 * rf + 0.71516868 * gf + 0.07219232 * bf;
                let expected: u8 = if grey >= 1.0 { 255 } else { (255.0 * grey) as u8 };
                assert_eq!(luma(r as u8, g as u8, b as u8), expected);
            }
        }
    }
}

#[test]
fn greyscale_iter_over_fresh_zip() {
    let buf: Vec<u8> = vec![255, 255, 255, 0, 0, 0, 255, 0, 0];
    let img = RgbImg::from_packed_buf(&buf, 1, 3).unwrap();
    let mut grey = GreyscaleIter::new(img.iter());
    assert_eq!(grey.size_hint(), (3, Some(3)));
    assert_eq!(grey.next(), Some(255));
    assert_eq!(grey.next(), Some(0));
    assert_eq!(grey.next(), Some(54));
    assert_eq!(grey.next(), None);
    assert_eq!(grey.size_hint(), (0, Some(0)));
}

#[test]
fn greyscale_on_empty_image() {
    let img = RgbImg::new();
    let mut grey = img.iter().greyscale();
    assert_eq!(grey.size_hint(), (0, Some(0)));
    assert_eq!(grey.next(), None);
}
