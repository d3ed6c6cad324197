use leaf::EdgeMask;
use leaf::GrayscaleImage;

fn sample() -> GrayscaleImage {
    // 3 columns, 2 rows:
    //   1 2 3
    //   4 5 6
    GrayscaleImage::new(3, 2, vec![1, 2, 3, 4, 5, 6]).unwrap()
}

fn mask(width: u32, height: u32, pixels: Vec<u8>) -> EdgeMask {
    EdgeMask::from_image(GrayscaleImage::new(width, height, pixels).unwrap()).unwrap()
}

fn sample_mask() -> EdgeMask {
    //   255   0   0
    //     0 255 255
    mask(3, 2, vec![255, 0, 0, 0, 255, 255])
}

fn parts(m: &EdgeMask) -> (u32, u32, Vec<u8>) {
    (m.image().width(), m.image().height(), m.image().pixels().clone())
}

fn outside(image: &GrayscaleImage) -> image::GrayImage {
    image::GrayImage::from_raw(image.width(), image.height(), image.pixels().clone()).unwrap()
}

#[test]
fn new_takes_one_sample_per_cell() {
    let image = GrayscaleImage::new(3, 2, vec![1, 2, 3, 4, 5, 6]).unwrap();
    assert_eq!(image.width(), 3);
    assert_eq!(image.height(), 2);
    assert_eq!(image.pixels(), &vec![1, 2, 3, 4, 5, 6]);
    assert_eq!(image.into_pixels(), vec![1, 2, 3, 4, 5, 6]);
}

#[test]
fn new_rejects_other_lengths() {
    assert!(GrayscaleImage::new(3, 2, vec![1, 2, 3, 4, 5]).is_none());
    assert!(GrayscaleImage::new(3, 2, vec![1, 2, 3, 4, 5, 6, 7]).is_none());
    assert!(GrayscaleImage::new(0, 5, vec![1]).is_none());
    assert!(GrayscaleImage::new(65536, 65536, vec![0; 16]).is_none());
}

#[test]
fn new_takes_an_empty_image() {
    let image = GrayscaleImage::new(0, 7, vec![]).unwrap();
    assert_eq!(image.width(), 0);
    assert_eq!(image.height(), 7);
    assert_eq!(image.get(0, 0), None);
}

#[test]
fn get_reads_row_by_row() {
    let image = sample();
    assert_eq!(image.get(0, 0), Some(1));
    assert_eq!(image.get(2, 0), Some(3));
    assert_eq!(image.get(0, 1), Some(4));
    assert_eq!(image.get(2, 1), Some(6));
    assert_eq!(image.get(3, 0), None);
    assert_eq!(image.get(0, 2), None);
}

#[test]
fn invert_subtracts_from_255() {
    let image = GrayscaleImage::new(2, 2, vec![0, 255, 1, 200]).unwrap();
    assert_eq!(image.invert().into_pixels(), vec![255, 0, 254, 55]);
}

#[test]
fn invert_matches_the_image_crate() {
    let image = sample();
    let mut expected = outside(&image);
    image::imageops::colorops::invert(&mut expected);
    assert_eq!(image.invert().into_pixels(), expected.into_raw());
}

#[test]
fn flip_horizontal_mirrors_columns() {
    let flipped = sample().flip_horizontal();
    assert_eq!((flipped.width(), flipped.height()), (3, 2));
    assert_eq!(flipped.into_pixels(), vec![3, 2, 1, 6, 5, 4]);
}

#[test]
fn rotate180_reverses() {
    let turned = sample().rotate180();
    assert_eq!((turned.width(), turned.height()), (3, 2));
    assert_eq!(turned.into_pixels(), vec![6, 5, 4, 3, 2, 1]);
}

#[test]
fn rotate90_turns_clockwise() {
    //   4 1
    //   5 2
    //   6 3
    let turned = sample().rotate90();
    assert_eq!((turned.width(), turned.height()), (2, 3));
    assert_eq!(turned.into_pixels(), vec![4, 1, 5, 2, 6, 3]);
}

#[test]
fn rotate270_turns_counter_clockwise() {
    //   3 6
    //   2 5
    //   1 4
    let turned = sample().rotate270();
    assert_eq!((turned.width(), turned.height()), (2, 3));
    assert_eq!(turned.into_pixels(), vec![3, 6, 2, 5, 1, 4]);
}

#[test]
fn turns_match_the_image_crate() {
    let image = GrayscaleImage::new(4, 3, (0u8..12).collect()).unwrap();
    let raster = outside(&image);
    assert_eq!(
        image.flip_horizontal().into_pixels(),
        image::imageops::flip_horizontal(&raster).into_raw()
    );
    assert_eq!(image.rotate180().into_pixels(), image::imageops::rotate180(&raster).into_raw());
    let quarter = image::imageops::rotate90(&raster);
    let turned = image.rotate90();
    assert_eq!((turned.width(), turned.height()), quarter.dimensions());
    assert_eq!(turned.into_pixels(), quarter.into_raw());
    let three_quarters = image::imageops::rotate270(&raster);
    let turned = image.rotate270();
    assert_eq!((turned.width(), turned.height()), three_quarters.dimensions());
    assert_eq!(turned.into_pixels(), three_quarters.into_raw());
}

#[test]
fn turns_of_an_empty_image_are_empty() {
    let image = GrayscaleImage::new(0, 3, vec![]).unwrap();
    let turned = image.rotate90();
    assert_eq!((turned.width(), turned.height()), (3, 0));
    assert_eq!(image.flip_horizontal().into_pixels(), Vec::<u8>::new());
}

#[test]
fn mask_takes_only_two_values() {
    assert!(EdgeMask::from_image(GrayscaleImage::new(2, 1, vec![0, 255]).unwrap()).is_some());
    assert!(EdgeMask::from_image(GrayscaleImage::new(2, 1, vec![0, 254]).unwrap()).is_none());
    assert!(EdgeMask::from_image(GrayscaleImage::new(2, 1, vec![1, 255]).unwrap()).is_none());
    assert!(EdgeMask::from_image(GrayscaleImage::new(0, 0, vec![]).unwrap()).is_some());
}

#[test]
fn mask_gives_its_image_back() {
    let m = sample_mask();
    assert_eq!(m.into_image().into_pixels(), vec![255, 0, 0, 0, 255, 255]);
}

#[test]
fn mask_invert_exchanges_the_two_values() {
    assert_eq!(parts(&sample_mask().invert()), (3, 2, vec![0, 255, 255, 255, 0, 0]));
}

#[test]
fn orient_identity_codes_change_nothing() {
    for code in [0u8, 1, 9, 100, 255] {
        assert_eq!(parts(&sample_mask().orient(code)), (3, 2, vec![255, 0, 0, 0, 255, 255]));
    }
}

#[test]
fn orient_follows_the_table() {
    // source:  A . .      with A = B = C = 255
    //          . B C
    assert_eq!(parts(&sample_mask().orient(2)), (3, 2, vec![0, 0, 255, 255, 255, 0]));
    assert_eq!(parts(&sample_mask().orient(3)), (3, 2, vec![255, 255, 0, 0, 0, 255]));
    assert_eq!(parts(&sample_mask().orient(4)), (3, 2, vec![0, 255, 255, 255, 0, 0]));
    assert_eq!(parts(&sample_mask().orient(5)), (2, 3, vec![255, 0, 255, 0, 0, 255]));
    assert_eq!(parts(&sample_mask().orient(6)), (2, 3, vec![0, 255, 255, 0, 255, 0]));
    assert_eq!(parts(&sample_mask().orient(7)), (2, 3, vec![255, 0, 0, 255, 0, 255]));
    assert_eq!(parts(&sample_mask().orient(8)), (2, 3, vec![0, 255, 0, 255, 255, 0]));
}

#[test]
fn orient_composes_as_the_image_crate_does() {
    let m = mask(3, 2, vec![255, 0, 0, 0, 255, 255]);
    let raster = outside(m.image());
    let mirrored = image::imageops::flip_horizontal(&raster);
    let expected = [
        (2u8, mirrored.clone()),
        (3, image::imageops::rotate180(&raster)),
        (4, image::imageops::rotate180(&mirrored)),
        (5, image::imageops::rotate90(&mirrored)),
        (6, image::imageops::rotate90(&raster)),
        (7, image::imageops::rotate270(&mirrored)),
        (8, image::imageops::rotate270(&raster)),
    ];
    for (code, want) in expected {
        let got = sample_mask().orient(code);
        assert_eq!((got.image().width(), got.image().height()), want.dimensions(), "code {}", code);
        assert_eq!(got.image().pixels(), want.as_raw(), "code {}", code);
    }
}

#[test]
fn orient_half_turn_twice_is_identity() {
    assert_eq!(parts(&sample_mask().orient(3).orient(3)), parts(&sample_mask()));
}

#[test]
fn orient_mirror_twice_is_identity() {
    assert_eq!(parts(&sample_mask().orient(2).orient(2)), parts(&sample_mask()));
}

#[test]
fn orient_quarter_turn_then_three_quarters_is_identity() {
    assert_eq!(parts(&sample_mask().orient(6).orient(8)), parts(&sample_mask()));
    assert_eq!(parts(&sample_mask().orient(8).orient(6)), parts(&sample_mask()));
}

#[test]
fn orient_code_4_mirrors_rows() {
    assert_eq!(parts(&mask(1, 2, vec![255, 0]).orient(4)), (1, 2, vec![0, 255]));
}

#[test]
fn orient_keeps_masks_binary() {
    for code in 0u8..=9 {
        let turned = sample_mask().invert().orient(code);
        assert!(turned.image().pixels().iter().all(|p| *p == 0 || *p == 255));
        assert_eq!(turned.image().pixels().len(), 6);
    }
}
