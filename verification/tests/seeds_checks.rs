use base64::Engine as _;
use engine_host::seeds::{
    filter_seed_filenames, is_seed_filename, path_within, read_seed_as_base64,
    read_seed_thumbnail, SeedError,
};

#[test]
fn seed_filename_filtering() {
    assert!(is_seed_filename("a.png"));
    assert!(is_seed_filename("b.JPG"));
    assert!(is_seed_filename("C.JpEg"));
    assert!(is_seed_filename("photo.2024.png"));
    assert!(!is_seed_filename("d.txt"));
    assert!(!is_seed_filename("noext"));
    assert!(!is_seed_filename(".png"));
    assert!(!is_seed_filename("x.png.bak"));
    assert!(!is_seed_filename("archive.tar.gz"));
}

#[test]
fn listing_keeps_matching_names_in_order() {
    let names: Vec<String> = vec![
        "zebra.png".to_string(),
        "notes.txt".to_string(),
        "alpha.JPEG".to_string(),
        ".hidden".to_string(),
        "last.jpg".to_string(),
    ];
    let kept = filter_seed_filenames(&names);
    assert_eq!(
        kept,
        vec!["zebra.png".to_string(), "alpha.JPEG".to_string(), "last.jpg".to_string()]
    );
}

#[test]
fn containment_guards_against_traversal() {
    assert!(path_within("/data/seeds", "/data/seeds/a.png"));
    assert!(path_within("/data/seeds", "/data/seeds"));
    assert!(path_within("/data/seeds", "/data/seeds/sub/dir/b.jpg"));
    assert!(!path_within("/data/seeds", "/data/seedsx/a.png"));
    assert!(!path_within("/data/seeds", "/etc/passwd"));
    assert!(!path_within("/data/seeds", "/data"));
}

#[test]
fn seed_transfer_encoding() {
    let data = b"hello".to_vec();
    let got = read_seed_as_base64("/s", "/s/a.png", &data).unwrap();
    assert_eq!(got, "aGVsbG8=");
    let empty: Vec<u8> = Vec::new();
    assert_eq!(read_seed_as_base64("/s", "/s/a.png", &empty).unwrap(), "");
    assert!(matches!(
        read_seed_as_base64("/s", "/elsewhere/a.png", &data),
        Err(SeedError::InvalidPath)
    ));
}

fn tiny_png() -> Vec<u8> {
    let img = image::DynamicImage::ImageRgb8(image::RgbImage::from_pixel(
        64,
        32,
        image::Rgb([200u8, 10u8, 10u8]),
    ));
    let mut out: Vec<u8> = Vec::new();
    let mut cursor = std::io::Cursor::new(&mut out);
    img.write_to(&mut cursor, image::ImageFormat::Png).unwrap();
    out
}

#[test]
fn thumbnail_is_a_bounded_jpeg() {
    let png = tiny_png();
    let encoded = read_seed_thumbnail("/s", "/s/a.png", &png, Some(10)).unwrap();
    let jpeg = base64::engine::general_purpose::STANDARD.decode(encoded.as_bytes()).unwrap();
    assert_eq!(image::guess_format(&jpeg).unwrap(), image::ImageFormat::Jpeg);
    let thumb = image::load_from_memory(&jpeg).unwrap();
    // The 64x32 source scales by min(10/64, 10/32) to 10x5: within the
    // bound and still wider than tall.
    assert_eq!((thumb.width(), thumb.height()), (10, 5));
}

#[test]
fn thumbnail_errors() {
    let garbage = vec![0u8; 16];
    assert!(matches!(
        read_seed_thumbnail("/s", "/s/x.png", &garbage, None),
        Err(SeedError::Thumbnail { .. })
    ));
    let png = tiny_png();
    assert!(matches!(
        read_seed_thumbnail("/s", "/other/x.png", &png, None),
        Err(SeedError::InvalidPath)
    ));
}
