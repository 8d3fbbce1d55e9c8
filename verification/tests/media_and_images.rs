use std::io::Cursor;

use id3::TagLike;

use tauri_plugin_thumbnail::error::Error;
use tauri_plugin_thumbnail::imaging::{
    bitmap_len, bitmap_png, cover_thumbnail, image_thumbnail, optimize_thumbnail_size,
    shell_request_size, MAX_THUMBNAIL_SIZE,
};
use tauri_plugin_thumbnail::media::{classify_mime, sniff_media_kind, sniff_mime, MediaKind};

fn png_of(img: image::DynamicImage) -> Vec<u8> {
    let mut buf = Cursor::new(Vec::new());
    img.write_to(&mut buf, image::ImageFormat::Png).unwrap();
    buf.into_inner()
}

fn gradient(width: u32, height: u32) -> Vec<u8> {
    let img = image::RgbImage::from_fn(width, height, |x, y| {
        image::Rgb([(x % 256) as u8, (y % 256) as u8, ((x + y) % 256) as u8])
    });
    png_of(image::DynamicImage::ImageRgb8(img))
}

fn noise(width: u32, height: u32) -> Vec<u8> {
    let mut state: u32 = 12345;
    let img = image::RgbImage::from_fn(width, height, |_, _| {
        let mut px = [0u8; 3];
        for p in px.iter_mut() {
            state = state.wrapping_mul(1103515245).wrapping_add(12345);
            *p = (state >> 16) as u8;
        }
        image::Rgb(px)
    });
    png_of(image::DynamicImage::ImageRgb8(img))
}

fn dims(png: &[u8]) -> (u32, u32) {
    let img = image::load_from_memory(png).unwrap();
    (img.width(), img.height())
}

#[test]
fn mime_classification() {
    assert_eq!(classify_mime("image/png"), MediaKind::Image);
    assert_eq!(classify_mime("audio/mpeg"), MediaKind::Audio);
    assert_eq!(classify_mime("video/mp4"), MediaKind::Video);
    assert_eq!(classify_mime("application/pdf"), MediaKind::Pdf);
    assert_eq!(classify_mime("application/pdfx"), MediaKind::Other);
    assert_eq!(classify_mime("application/octet-stream"), MediaKind::Other);
    assert_eq!(classify_mime("image"), MediaKind::Other);
}

#[test]
fn sniffing_headers() {
    let png = gradient(4, 4);
    assert_eq!(sniff_mime(&png), "image/png");
    assert_eq!(sniff_media_kind(&png), MediaKind::Image);
    assert_eq!(sniff_media_kind(b"%PDF-1.7\n"), MediaKind::Pdf);
    assert_eq!(sniff_media_kind(b"ID3\x04\x00\x00\x00\x00\x00\x00"), MediaKind::Audio);
    let mp4 = b"\x00\x00\x00\x18ftypmp42\x00\x00\x00\x00mp42isom";
    assert_eq!(sniff_media_kind(mp4), MediaKind::Video);
    assert_eq!(sniff_mime(&[0u8; 16]), "application/octet-stream");
    assert_eq!(sniff_media_kind(&[0u8; 16]), MediaKind::Other);
    assert_eq!(sniff_media_kind(&[]), MediaKind::Other);
}

#[test]
fn small_thumbnail_is_unchanged() {
    let data = vec![7u8; 100];
    assert_eq!(optimize_thumbnail_size(data.clone()).unwrap(), data);
    let png = gradient(20, 10);
    assert_eq!(optimize_thumbnail_size(png.clone()).unwrap(), png);
    let at_limit = vec![0u8; MAX_THUMBNAIL_SIZE];
    assert_eq!(optimize_thumbnail_size(at_limit.clone()).unwrap(), at_limit);
}

#[test]
fn large_thumbnail_is_shrunk_under_limit() {
    let big = noise(600, 600);
    assert!(big.len() > MAX_THUMBNAIL_SIZE);
    let small = optimize_thumbnail_size(big.clone()).unwrap();
    assert!(small.len() <= MAX_THUMBNAIL_SIZE);
    let (w, h) = dims(&small);
    assert!(w <= 300 && h <= 300);
    assert_eq!(w, h);
    // Optimizing again hands the result out unchanged.
    assert_eq!(optimize_thumbnail_size(small.clone()).unwrap(), small);
}

#[test]
fn large_undecodable_data_is_an_image_error() {
    let junk = vec![0x42u8; MAX_THUMBNAIL_SIZE + 1];
    assert!(matches!(optimize_thumbnail_size(junk), Err(Error::Image(_))));
}

#[test]
fn large_small_image_is_still_shrunk() {
    let mut data = gradient(10, 10);
    data.extend(std::iter::repeat(0u8).take(MAX_THUMBNAIL_SIZE));
    assert!(data.len() > MAX_THUMBNAIL_SIZE);
    let small = optimize_thumbnail_size(data).unwrap();
    assert!(small.len() <= MAX_THUMBNAIL_SIZE);
    assert_eq!(dims(&small), (5, 5));
}

#[test]
fn narrow_tall_image_is_shrunk_under_limit() {
    let big = noise(20, 4000);
    assert!(big.len() > MAX_THUMBNAIL_SIZE);
    let small = optimize_thumbnail_size(big).unwrap();
    assert!(small.len() <= MAX_THUMBNAIL_SIZE);
    assert_eq!(&small[..8], b"\x89PNG\r\n\x1a\n");
    let (w, h) = dims(&small);
    assert!(w <= 10 && h <= 2000);
}

#[test]
fn image_thumbnail_keeps_aspect_ratio() {
    let png = gradient(400, 200);
    let thumb = image_thumbnail(&png, 128, 128).unwrap();
    assert_eq!(dims(&thumb), (128, 64));
    assert_eq!(&thumb[..8], b"\x89PNG\r\n\x1a\n");
    assert!(matches!(image_thumbnail(b"not an image", 128, 128), Err(Error::Image(_))));
}

fn tag_bytes(picture: Option<Vec<u8>>) -> Vec<u8> {
    let mut tag = id3::Tag::new();
    tag.set_title("song");
    if let Some(data) = picture {
        tag.add_frame(id3::frame::Picture {
            mime_type: "image/png".to_string(),
            picture_type: id3::frame::PictureType::CoverFront,
            description: String::new(),
            data,
        });
    }
    let mut out = Vec::new();
    tag.write_to(&mut out, id3::Version::Id3v24).unwrap();
    out.extend_from_slice(&[0xff, 0xfb, 0x90, 0x00]);
    out
}

#[test]
fn cover_art_thumbnail() {
    let file = tag_bytes(Some(gradient(300, 150)));
    let thumb = cover_thumbnail(&file, 100, 100).unwrap().unwrap();
    assert_eq!(dims(&thumb), (100, 50));
    assert!(cover_thumbnail(&tag_bytes(None), 100, 100).is_none());
    assert!(cover_thumbnail(b"no tag at all", 100, 100).is_none());
    let bad = tag_bytes(Some(b"garbage".to_vec()));
    assert!(matches!(cover_thumbnail(&bad, 100, 100), Some(Err(Error::Image(_)))));
}

#[test]
fn shell_sizes_and_bitmaps() {
    assert_eq!(shell_request_size(10, 500), (64, 500));
    assert_eq!(shell_request_size(64, 63), (64, 64));
    assert_eq!(bitmap_len(2, 3), Some(24));
    assert_eq!(bitmap_len(65536, 65536), None);
    assert_eq!(bitmap_len(32768, 32768), None);
    assert_eq!(bitmap_len(32768, 32767), Some(32768 * 32767 * 4));
    let png = bitmap_png(2, 2, vec![255u8; 16]).unwrap();
    assert_eq!(dims(&png), (2, 2));
    assert!(matches!(bitmap_png(2, 2, vec![255u8; 15]), Err(Error::NotFound)));
}
