use vstd::prelude::*;
use vstd::string::StrSliceExecFns;

use crate::text::{has_prefix, starts_with};

verus! {

/// The MIME type that `infer::get` finds for a file starting with `header`,
/// or `None` where it recognizes none.
pub uninterp spec fn sniffed_mime(header: Seq<u8>) -> Option<Seq<char>>;

/// `infer::get`, mapped to the MIME type of the kind it finds (named by
/// [`sniffed_mime`]).
#[verifier::external_body]
fn infer_mime(header: &[u8]) -> (r: Option<String>)
    ensures
        match r {
            Some(m) => sniffed_mime(header@) == Some(m@),
            None => sniffed_mime(header@) is None,
        },
{
    match infer::get(header) {
        Some(kind) => Some(kind.mime_type().to_owned()),
        None => None,
    }
}

/// The kinds of file for which a thumbnail is generated in its own way.
#[derive(Debug, Clone, Copy, PartialEq, Eq, Structural)]
pub enum MediaKind {
    Image,
    Audio,
    Video,
    Pdf,
    Other,
}

/// The kind of file a MIME type names: its `image/`, `audio/` or `video/`
/// prefix, or exactly `application/pdf`.
pub open spec fn media_kind_of(mime: Seq<char>) -> MediaKind {
    if has_prefix(mime, "image/"@) {
        MediaKind::Image
    } else if has_prefix(mime, "audio/"@) {
        MediaKind::Audio
    } else if has_prefix(mime, "video/"@) {
        MediaKind::Video
    } else if mime == "application/pdf"@ {
        MediaKind::Pdf
    } else {
        MediaKind::Other
    }
}

/// The kind of file depends on the MIME type's prefix alone: any `image/`,
/// `audio/` or `video/` type is an image, audio or video file, whatever
/// follows the slash; only `application/pdf` is a PDF; and a kind is only
/// given to a type that has its prefix.
pub proof fn law_kind_by_prefix(mime: Seq<char>)
    ensures
        has_prefix(mime, "image/"@) ==> media_kind_of(mime) == MediaKind::Image,
        has_prefix(mime, "audio/"@) ==> media_kind_of(mime) == MediaKind::Audio,
        has_prefix(mime, "video/"@) ==> media_kind_of(mime) == MediaKind::Video,
        mime == "application/pdf"@ ==> media_kind_of(mime) == MediaKind::Pdf,
        media_kind_of(mime) == MediaKind::Image ==> has_prefix(mime, "image/"@),
        media_kind_of(mime) == MediaKind::Audio ==> has_prefix(mime, "audio/"@),
        media_kind_of(mime) == MediaKind::Video ==> has_prefix(mime, "video/"@),
        media_kind_of(mime) == MediaKind::Pdf ==> mime == "application/pdf"@,
{
    reveal_strlit("image/");
    reveal_strlit("audio/");
    reveal_strlit("video/");
    reveal_strlit("application/pdf");
    assert("image/"@.len() == 6 && "image/"@[0] == 'i');
    assert("audio/"@.len() == 6 && "audio/"@[0] == 'a');
    assert("video/"@.len() == 6 && "video/"@[0] == 'v');
    assert("application/pdf"@[0] == 'a' && "application/pdf"@[1] == 'p');
    assert("audio/"@[1] == 'u');
    if mime.len() >= 6 {
        assert(mime.subrange(0, 6)[0] == mime[0]);
        assert(mime.subrange(0, 6)[1] == mime[1]);
    }

}

/// The MIME type assumed for a file whose header is not recognized.
pub open spec fn unknown_mime() -> Seq<char> {
    "application/octet-stream"@
}

/// The MIME type of a file starting with `header`.
pub open spec fn mime_of_header(header: Seq<u8>) -> Seq<char> {
    match sniffed_mime(header) {
        Some(m) => m,
        None => unknown_mime(),
    }
}

fn same_text(a: &str, b: &str) -> (r: bool)
    ensures
        r == (a@ == b@),
{
    let equal = a.unicode_len() == b.unicode_len() && starts_with(a, b);
    proof {
        if a@.len() == b@.len() && has_prefix(a@, b@) {
            assert(a@.subrange(0, b@.len() as int) =~= a@);
        }
        if a@ == b@ {
            assert(a@.subrange(0, b@.len() as int) =~= a@);
        }
    }
    equal
}

/// The kind of file a MIME type names.
pub fn classify_mime(mime: &str) -> (k: MediaKind)
    ensures
        k == media_kind_of(mime@),
        // The kind depends on the prefix alone: every `image/...` type is an
        // image, every `audio/...` type audio, every `video/...` type video.
        has_prefix(mime@, "image/"@) ==> k == MediaKind::Image,
        has_prefix(mime@, "audio/"@) ==> k == MediaKind::Audio,
        has_prefix(mime@, "video/"@) ==> k == MediaKind::Video,
        mime@ == "application/pdf"@ ==> k == MediaKind::Pdf,
        k == MediaKind::Image ==> has_prefix(mime@, "image/"@),
        k == MediaKind::Audio ==> has_prefix(mime@, "audio/"@),
        k == MediaKind::Video ==> has_prefix(mime@, "video/"@),
        k == MediaKind::Pdf ==> mime@ == "application/pdf"@,
{
    proof {
        law_kind_by_prefix(mime@);
    }
    if starts_with(mime, "image/") {
        MediaKind::Image
    } else if starts_with(mime, "audio/") {
        MediaKind::Audio
    } else if starts_with(mime, "video/") {
        MediaKind::Video
    } else if same_text(mime, "application/pdf") {
        MediaKind::Pdf
    } else {
        MediaKind::Other
    }
}

/// The MIME type of a file starting with `header`, by its magic bytes.
pub fn sniff_mime(header: &[u8]) -> (m: String)
    ensures
        m@ == mime_of_header(header@),
{
    match infer_mime(header) {
        Some(m) => m,
        None => "application/octet-stream".to_owned(),
    }
}

/// The kind of file that starts with `header`.
pub fn sniff_media_kind(header: &[u8]) -> (k: MediaKind)
    ensures
        k == media_kind_of(mime_of_header(header@)),
{
    let mime = sniff_mime(header);
    classify_mime(mime.as_str())
}

} // verus!
