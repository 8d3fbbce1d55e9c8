use tauri_plugin_thumbnail::hashing::{
    cache_dir, freedesktop_candidates, freedesktop_thumbnail_hash, hash_path,
};
use tauri_plugin_thumbnail::models::{GetThumbnailRequest, GetThumbnailResponse};
use tauri_plugin_thumbnail::text::{decimal_string, file_name, join_path, lower_hex, starts_with};

#[test]
fn request_dimensions_default_to_128() {
    let req = GetThumbnailRequest { path: "/a".to_string(), width: None, height: None };
    assert_eq!(req.dimensions(), (128, 128));
    let req = GetThumbnailRequest { path: "/a".to_string(), width: Some(300), height: None };
    assert_eq!(req.dimensions(), (300, 128));
    let req = GetThumbnailRequest { path: "/a".to_string(), width: Some(10), height: Some(20) };
    assert_eq!(req.dimensions(), (10, 20));
}

#[test]
fn png_response_has_png_mime() {
    let resp = GetThumbnailResponse::png(vec![1, 2, 3]);
    assert_eq!(resp.thumbnail, vec![1, 2, 3]);
    assert_eq!(resp.mime_type, "image/png");
}

#[test]
fn decimal_notation() {
    assert_eq!(decimal_string(0), "0");
    assert_eq!(decimal_string(7), "7");
    assert_eq!(decimal_string(10), "10");
    assert_eq!(decimal_string(1234567), "1234567");
    assert_eq!(decimal_string(u32::MAX as u64), u32::MAX.to_string());
    assert_eq!(decimal_string(u64::MAX), "18446744073709551615");
    for n in [1u64, 9, 99, 100, 101, 65535, 1_000_000, 1_700_000_000] {
        assert_eq!(decimal_string(n), n.to_string());
    }
}

#[test]
fn lower_hex_notation() {
    assert_eq!(lower_hex(&[]), "");
    assert_eq!(lower_hex(&[0x00, 0x0f, 0xa0, 0xff, 0x5c]), "000fa0ff5c");
}

#[test]
fn join_path_like_pathbuf() {
    assert_eq!(join_path("/home/u", ".cache"), "/home/u/.cache");
    assert_eq!(join_path("/home/u/", ".cache"), "/home/u/.cache");
    assert_eq!(join_path("", "a.png"), "a.png");
    assert_eq!(join_path("/tmp", "/etc/x"), "/etc/x");
    for (b, r) in [("/tmp", "v.png"), ("rel/dir", "x/y"), ("/", "a")] {
        let expected = std::path::Path::new(b).join(r);
        assert_eq!(join_path(b, r), expected.to_str().unwrap());
    }
}

#[test]
fn prefix_test() {
    assert!(starts_with("image/png", "image/"));
    assert!(starts_with("image/", "image/"));
    assert!(!starts_with("imag", "image/"));
    assert!(!starts_with("audio/mpeg", "image/"));
    assert!(starts_with("anything", ""));
}

#[test]
fn file_name_like_path() {
    let cases = [
        "/a/b.png", "a/b/", "a/.", "/", "..", "a/..", "", "./", "x", ".", "/x//y//", "a/./b",
        "/tmp/..x", "...",
    ];
    for c in cases {
        let expected = std::path::Path::new(c)
            .file_name()
            .map(|n| n.to_str().unwrap().to_string());
        assert_eq!(file_name(c), expected, "path {:?}", c);
    }
    assert_eq!(file_name("/a/b.png"), Some("b.png".to_string()));
    assert_eq!(file_name("a/.."), None);
}

#[test]
fn hash_path_is_md5_hex_of_path() {
    assert_eq!(hash_path("/tmp/video.mp4"), "5c97be3b27dc22a1b7c28a7730d9b629");
    assert_eq!(hash_path(""), "d41d8cd98f00b204e9800998ecf8427e");
    let h = hash_path("/home/user/doc.pdf");
    assert_eq!(h.len(), 32);
    assert!(h.chars().all(|c| c.is_ascii_digit() || ('a'..='f').contains(&c)));
}

#[test]
fn freedesktop_hash_of_file_url() {
    assert_eq!(
        freedesktop_thumbnail_hash("/home/user/a b.png"),
        Some("8636bc335304df3227efbc80fd88d481".to_string())
    );
    assert_eq!(freedesktop_thumbnail_hash("relative/path.png"), None);
}

#[test]
fn cache_dir_choice() {
    assert_eq!(cache_dir(Some("/xdg".to_string()), Some("/home/u".to_string())), "/xdg");
    assert_eq!(cache_dir(None, Some("/home/u".to_string())), "/home/u/.cache");
    assert_eq!(cache_dir(None, None), "");
    // An empty or relative value counts as unset.
    assert_eq!(cache_dir(Some(String::new()), Some("/home/u".to_string())), "/home/u/.cache");
    assert_eq!(cache_dir(Some("rel/cache".to_string()), Some("/home/u".to_string())), "/home/u/.cache");
    assert_eq!(cache_dir(Some(String::new()), None), "");
}

#[test]
fn freedesktop_candidates_in_order() {
    let c = freedesktop_candidates("/home/user/a b.png", None, Some("/home/user".to_string()))
        .unwrap();
    let h = "8636bc335304df3227efbc80fd88d481";
    assert_eq!(
        c,
        vec![
            format!("/home/user/.cache/thumbnails/large/{}.png", h),
            format!("/home/user/.cache/thumbnails/normal/{}.png", h),
            format!("/home/user/.cache/thumbnails/x-large/{}.png", h),
            format!("/home/user/.cache/thumbnails/xx-large/{}.png", h),
        ]
    );
    assert_eq!(freedesktop_candidates("/a.png", None, None), None);
    assert_eq!(freedesktop_candidates("a.png", Some("/c".to_string()), None), None);
    let c = freedesktop_candidates("/home/user/a b.png", Some(String::new()), Some("/home/user".to_string()))
        .unwrap();
    assert_eq!(c[1], format!("/home/user/.cache/thumbnails/normal/{}.png", h));
}

#[test]
fn default_response_is_empty() {
    let resp = GetThumbnailResponse::default();
    assert!(resp.thumbnail.is_empty());
    assert!(resp.mime_type.is_empty());
}
