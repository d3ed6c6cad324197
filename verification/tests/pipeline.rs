use leaf::codec::decode;
use leaf::codec::encode;
use leaf::EdgeMask;
use leaf::GrayscaleImage;
use leaf::Leaf;
use leaf::LeafError;

fn png_of(image: &image::GrayImage) -> Vec<u8> {
    let mut bytes: Vec<u8> = Vec::new();
    image
        .write_to(&mut std::io::Cursor::new(&mut bytes), image::ImageOutputFormat::Png)
        .unwrap();
    bytes
}

fn boxes(width: u32, height: u32) -> image::GrayImage {
    image::GrayImage::from_fn(width, height, |x, y| {
        let inside = x >= width / 4 && x < 3 * width / 4 && y >= height / 4 && y < 3 * height / 4;
        image::Luma([if inside { 230u8 } else { 15u8 }])
    })
}

fn read(bytes: &[u8]) -> image::GrayImage {
    image::load_from_memory(bytes).unwrap().to_luma8()
}

/// The pipeline as the two outside crates run it, stage by stage.
fn edges_by_hand(source: &image::GrayImage, low: u16, high: u16) -> image::GrayImage {
    let mut edges = imageproc::edges::canny(source, low.into(), high.into());
    image::imageops::colorops::invert(&mut edges);
    edges
}

#[test]
fn decode_reads_a_png() {
    let source = boxes(5, 4);
    let image = decode(&png_of(&source)).unwrap();
    assert_eq!((image.width(), image.height()), (5, 4));
    assert_eq!(image.pixels(), source.as_raw());
}

#[test]
fn decode_converts_color_to_gray() {
    let color = image::RgbImage::from_fn(3, 2, |x, y| image::Rgb([(x * 80) as u8, (y * 200) as u8, 9]));
    let mut bytes: Vec<u8> = Vec::new();
    color
        .write_to(&mut std::io::Cursor::new(&mut bytes), image::ImageOutputFormat::Bmp)
        .unwrap();
    let image = decode(&bytes).unwrap();
    let want = image::DynamicImage::ImageRgb8(color).to_luma8();
    assert_eq!((image.width(), image.height()), (3, 2));
    assert_eq!(image.pixels(), want.as_raw());
}

#[test]
fn decode_rejects_three_bytes() {
    assert_eq!(decode(&[0x89, 0x50, 0x4E]).err(), Some(LeafError::Decode));
}

#[test]
fn decode_rejects_nothing_at_all() {
    assert_eq!(decode(&[]).err(), Some(LeafError::Decode));
}

#[test]
fn decode_rejects_a_truncated_png() {
    let mut bytes = png_of(&boxes(16, 16));
    bytes.truncate(40);
    assert_eq!(decode(&bytes).err(), Some(LeafError::Decode));
}

#[test]
fn encode_writes_a_png_of_the_mask() {
    let pixels = vec![0, 255, 255, 0, 0, 0];
    let mask = EdgeMask::from_image(GrayscaleImage::new(3, 2, pixels.clone()).unwrap()).unwrap();
    let bytes = encode(&mask).unwrap();
    assert_eq!(&bytes[..8], &[0x89, b'P', b'N', b'G', 0x0D, 0x0A, 0x1A, 0x0A]);
    let back = read(&bytes);
    assert_eq!(back.dimensions(), (3, 2));
    assert_eq!(back.into_raw(), pixels);
}

#[test]
fn encode_refuses_a_mask_without_cells() {
    let mask = EdgeMask::from_image(GrayscaleImage::new(0, 0, vec![]).unwrap()).unwrap();
    assert_eq!(encode(&mask).err(), Some(LeafError::Encode));
}

#[test]
fn render_edges_inverts_turns_and_encodes() {
    let mask = EdgeMask::from_image(GrayscaleImage::new(3, 2, vec![255, 0, 0, 0, 255, 255]).unwrap())
        .unwrap();
    let back = read(&Leaf::render_edges(mask, 6).unwrap());
    // inverted:  0 255 255      turned a quarter clockwise:  255   0
    //          255   0   0                                     0 255
    //                                                          0 255
    assert_eq!(back.dimensions(), (2, 3));
    assert_eq!(back.into_raw(), vec![255, 0, 0, 255, 0, 255]);
}

#[test]
fn get_edge_rejects_malformed_bytes() {
    assert_eq!(Leaf::get_edge(&[1, 2, 3], 50, 100, 1), Err(LeafError::Decode));
    assert_eq!(Leaf::get_edge(&[], 50, 100, 0), Err(LeafError::Decode));
    assert_eq!(Leaf::get_edge(b"not an image at all, only text", 50, 100, 6), Err(LeafError::Decode));
}

#[test]
fn get_edge_reports_bad_bytes_before_bad_thresholds() {
    assert_eq!(Leaf::get_edge(&[1, 2, 3], 100, 50, 1), Err(LeafError::Decode));
}

#[test]
fn get_edge_rejects_thresholds_out_of_order() {
    let blob = png_of(&boxes(16, 16));
    assert_eq!(Leaf::get_edge(&blob, 100, 50, 1), Err(LeafError::InvalidParameter));
    assert_eq!(Leaf::get_edge(&blob, 1, 0, 1), Err(LeafError::InvalidParameter));
}

#[test]
fn get_edge_takes_a_low_threshold_of_zero() {
    // One strong edge, and every cell hangs together with it: all dark.
    let out = read(&Leaf::get_edge(&png_of(&boxes(24, 16)), 0, 50, 1).unwrap());
    assert_eq!(out.dimensions(), (24, 16));
    assert_eq!(out.into_raw(), vec![0u8; 24 * 16]);
    // No edge is 2000 strong: all light.
    let out = read(&Leaf::get_edge(&png_of(&boxes(24, 16)), 0, 2000, 6).unwrap());
    assert_eq!(out.dimensions(), (16, 24));
    assert_eq!(out.into_raw(), vec![255u8; 24 * 16]);
    // Every cell is 0 strong.
    let out = read(&Leaf::get_edge(&png_of(&boxes(24, 16)), 0, 0, 3).unwrap());
    assert_eq!(out.dimensions(), (24, 16));
    assert_eq!(out.into_raw(), vec![0u8; 24 * 16]);
}

#[test]
fn get_edge_keeps_the_dimensions_of_the_narrowed_image() {
    for (low, high) in [(0u16, 0u16), (0, 50), (1, 1), (50, 100), (65535, 65535)] {
        let out = read(&Leaf::get_edge(&png_of(&boxes(30, 11)), low, high, 1).unwrap());
        assert_eq!(out.dimensions(), (30, 11));
        assert_eq!(out.as_raw().len(), 330);
        assert!(out.as_raw().iter().all(|p| *p == 0 || *p == 255));
    }
}

#[test]
fn get_edge_gives_dark_edges_on_light() {
    let source = boxes(24, 16);
    let out = read(&Leaf::get_edge(&png_of(&source), 50, 100, 1).unwrap());
    assert_eq!(out.dimensions(), (24, 16));
    assert!(out.as_raw().iter().all(|p| *p == 0 || *p == 255));
    let dark = out.as_raw().iter().filter(|p| **p == 0).count();
    assert!(dark > 0 && dark < 24 * 16 / 2);
    assert_eq!(out, edges_by_hand(&source, 50, 100));
}

#[test]
fn get_edge_turns_as_the_code_says() {
    let source = boxes(24, 16);
    let blob = png_of(&source);
    let upright = edges_by_hand(&source, 50, 100);
    let mirrored = image::imageops::flip_horizontal(&upright);
    let expected = [
        (0u8, upright.clone()),
        (1, upright.clone()),
        (2, mirrored.clone()),
        (3, image::imageops::rotate180(&upright)),
        (4, image::imageops::rotate180(&mirrored)),
        (5, image::imageops::rotate90(&mirrored)),
        (6, image::imageops::rotate90(&upright)),
        (7, image::imageops::rotate270(&mirrored)),
        (8, image::imageops::rotate270(&upright)),
        (9, upright.clone()),
    ];
    for (code, want) in expected {
        let got = read(&Leaf::get_edge(&blob, 50, 100, code).unwrap());
        assert_eq!(got.dimensions(), want.dimensions(), "code {}", code);
        assert_eq!(got, want, "code {}", code);
    }
}

#[test]
fn get_edge_swaps_dimensions_for_quarter_turns() {
    let blob = png_of(&boxes(24, 16));
    for code in [5u8, 6, 7, 8] {
        assert_eq!(read(&Leaf::get_edge(&blob, 50, 100, code).unwrap()).dimensions(), (16, 24));
    }
    for code in [1u8, 2, 3, 4] {
        assert_eq!(read(&Leaf::get_edge(&blob, 50, 100, code).unwrap()).dimensions(), (24, 16));
    }
}

#[test]
fn get_edge_narrows_wide_images() {
    let source = boxes(2160, 40);
    let out = read(&Leaf::get_edge(&png_of(&source), 50, 100, 1).unwrap());
    assert_eq!(out.dimensions(), (1080, 20));
    let small = image::imageops::resize(&source, 1080, 20, image::imageops::FilterType::Nearest);
    assert_eq!(out, edges_by_hand(&small, 50, 100));
}

#[test]
fn get_edge_gives_the_same_bytes_every_time() {
    let blob = png_of(&boxes(40, 30));
    let first = Leaf::get_edge(&blob, 30, 90, 6).unwrap();
    let second = Leaf::get_edge(&blob, 30, 90, 6).unwrap();
    assert_eq!(first, second);
}

#[test]
fn get_edge_of_a_single_pixel_is_light() {
    let source = image::GrayImage::from_raw(1, 1, vec![77]).unwrap();
    let out = read(&Leaf::get_edge(&png_of(&source), 50, 100, 8).unwrap());
    assert_eq!(out.dimensions(), (1, 1));
    assert_eq!(out.into_raw(), vec![255]);
}
