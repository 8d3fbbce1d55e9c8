use vstd::prelude::*;

use crate::error::{Error, ErrorKind};
use crate::pngtext::is_png;

verus! {

/// The largest thumbnail, in bytes, that is handed out without shrinking it.
pub const MAX_THUMBNAIL_SIZE: usize = 200 * 1024;

/// Width and height of the image that `image::load_from_memory` decodes from
/// `bytes`, or `None` where it fails.
pub uninterp spec fn decoded_size(bytes: Seq<u8>) -> Option<(u32, u32)>;

/// The PNG encoding of `DynamicImage::thumbnail(width, height)` of the image
/// decoded from `bytes`, or `None` where decoding or encoding fails.
pub uninterp spec fn png_thumbnail(bytes: Seq<u8>, width: u32, height: u32) -> Option<Seq<u8>>;

/// The PNG encoding of `DynamicImage::resize(width, height, Lanczos3)` of the
/// image decoded from `bytes`, or `None` where decoding or encoding fails.
pub uninterp spec fn png_resized(bytes: Seq<u8>, width: u32, height: u32) -> Option<Seq<u8>>;

/// The data of the first picture in the ID3 tag that `id3::Tag::read_from2`
/// reads from `file`, or `None` where it reads no tag or the tag holds no
/// picture.
pub uninterp spec fn id3_cover(file: Seq<u8>) -> Option<Seq<u8>>;

/// `image::load_from_memory` and the decoded image's dimensions (named by
/// [`decoded_size`]). Decoding very large images may exhaust memory; nothing
/// here states a bound.
#[verifier::external_body]
fn image_size(bytes: &[u8]) -> (r: Result<(u32, u32), image::ImageError>)
    ensures
        match r {
            Ok(size) => decoded_size(bytes@) == Some(size),
            Err(_) => decoded_size(bytes@) is None,
        },
{
    match image::load_from_memory(bytes) {
        Ok(img) => Ok((img.width(), img.height())),
        Err(e) => Err(e),
    }
}

/// `image::load_from_memory`, then `DynamicImage::thumbnail`, then
/// `write_to` in PNG format (named by [`png_thumbnail`]); the PNG encoder
/// writes the signature first. `thumbnail` keeps the aspect ratio and fits
/// the image within the requested box (each edge at least 1), so where the
/// box is at least 1 by 1 and no larger than the decoded image, the PNG
/// decodes again to an image within the box, of at least 1 by 1. Very large requested sizes may
/// exhaust memory; nothing here states a bound.
#[verifier::external_body]
fn thumbnail_png(bytes: &[u8], width: u32, height: u32) -> (r: Result<Vec<u8>, image::ImageError>)
    ensures
        match r {
            Ok(png) => png_thumbnail(bytes@, width, height) == Some(png@),
            Err(_) => png_thumbnail(bytes@, width, height) is None,
        },
        r matches Ok(png) ==> is_png(png@),
        r matches Ok(png) ==> (within_box(bytes@, width, height) ==> (decoded_size(png@) matches Some(
            t,
        ) && (1 <= t.0 <= width && 1 <= t.1 <= height))),
{
    let img = image::load_from_memory(bytes)?;
    let mut buffer = std::io::Cursor::new(Vec::new());
    img.thumbnail(width, height).write_to(&mut buffer, image::ImageFormat::Png)?;
    Ok(buffer.into_inner())
}

/// `image::load_from_memory`, then `DynamicImage::resize` with the Lanczos3
/// filter, then `write_to` in PNG format (named by [`png_resized`]); the PNG
/// encoder writes the signature first.
/// `resize` keeps the aspect ratio and fits the image within the requested
/// box (each edge at least 1), so where the box is at least 1 by 1 and no
/// larger than the decoded image, the PNG decodes again to an image within
/// the box, of at least 1 by 1.
#[verifier::external_body]
fn resized_png(bytes: &[u8], width: u32, height: u32) -> (r: Result<Vec<u8>, image::ImageError>)
    ensures
        match r {
            Ok(png) => png_resized(bytes@, width, height) == Some(png@),
            Err(_) => png_resized(bytes@, width, height) is None,
        },
        r matches Ok(png) ==> is_png(png@),
        r matches Ok(png) ==> (within_box(bytes@, width, height) ==> (decoded_size(png@) matches Some(
            t,
        ) && (1 <= t.0 <= width && 1 <= t.1 <= height))),
{
    let img = image::load_from_memory(bytes)?;
    let mut buffer = std::io::Cursor::new(Vec::new());
    img.resize(width, height, image::imageops::FilterType::Lanczos3).write_to(
        &mut buffer,
        image::ImageFormat::Png,
    )?;
    Ok(buffer.into_inner())
}

/// `id3::Tag::read_from2` on the bytes of a file, and the data of the first
/// of the tag's pictures (named by [`id3_cover`]).
#[verifier::external_body]
fn first_picture(file: &[u8]) -> (r: Option<Vec<u8>>)
    ensures
        match r {
            Some(p) => id3_cover(file@) == Some(p@),
            None => id3_cover(file@) is None,
        },
{
    match id3::Tag::read_from2(std::io::Cursor::new(file)) {
        Ok(tag) => match tag.pictures().next() {
            Some(picture) => Some(picture.data.clone()),
            None => None,
        },
        Err(_) => None,
    }
}

/// Whether `width` by `height` is a box of at least one pixel that fits the
/// image decoded from `bytes`.
pub open spec fn within_box(bytes: Seq<u8>, width: u32, height: u32) -> bool {
    &&& 1 <= width
    &&& 1 <= height
    &&& decoded_size(bytes) matches Some(s) && width <= s.0 && height <= s.1
}

/// An edge halved, where it is more than one pixel.
pub open spec fn half(n: u32) -> u32 {
    if n > 1 {
        (n / 2) as u32
    } else {
        n
    }
}

/// What shrinking yields once `data`, encoded from `source`, was produced at
/// `width` by `height`: while `data` is over the limit, both edges are
/// halved (an edge of one pixel stays) and `source` is resized to them
/// again; an image error where a resize fails, and [`ErrorKind::TooLarge`]
/// where even one pixel by one is over the limit.
pub open spec fn shrink(source: Seq<u8>, data: Seq<u8>, width: u32, height: u32) -> Result<
    Seq<u8>,
    ErrorKind,
>
    decreases width + height,
{
    if data.len() <= MAX_THUMBNAIL_SIZE {
        Ok(data)
    } else if width <= 1 && height <= 1 {
        Err(ErrorKind::TooLarge)
    } else {
        match png_resized(source, half(width), half(height)) {
            Some(next) => shrink(source, next, half(width), half(height)),
            None => Err(ErrorKind::Image),
        }
    }
}

/// The thumbnail handed out for the encoded image `data`: itself where it
/// fits the limit, else the result of shrinking it from its decoded size;
/// an image error where it cannot be decoded.
pub open spec fn optimized(data: Seq<u8>) -> Result<Seq<u8>, ErrorKind> {
    if data.len() <= MAX_THUMBNAIL_SIZE {
        Ok(data)
    } else {
        match decoded_size(data) {
            Some(size) => shrink(data, data, size.0, size.1),
            None => Err(ErrorKind::Image),
        }
    }
}

/// How many resize passes shrinking makes: one per halving, the last one
/// counted even where it fails.
pub open spec fn shrink_passes(source: Seq<u8>, data: Seq<u8>, width: u32, height: u32) -> nat
    decreases width + height,
{
    if data.len() <= MAX_THUMBNAIL_SIZE || (width <= 1 && height <= 1) {
        0
    } else {
        match png_resized(source, half(width), half(height)) {
            Some(next) => 1 + shrink_passes(source, next, half(width), half(height)),
            None => 1,
        }
    }
}

/// How many resize passes keeping `data` under the limit makes.
pub open spec fn optimize_passes(data: Seq<u8>) -> nat {
    if data.len() <= MAX_THUMBNAIL_SIZE {
        0
    } else {
        match decoded_size(data) {
            Some(size) => shrink_passes(data, data, size.0, size.1),
            None => 0,
        }
    }
}

/// The outcome of an image step: the bytes, or the kind of error.
pub open spec fn outcome(r: Result<Vec<u8>, Error>) -> Result<Seq<u8>, ErrorKind> {
    match r {
        Ok(d) => Ok(d@),
        Err(e) => Err(e@),
    }
}

/// Keeps a thumbnail under [`MAX_THUMBNAIL_SIZE`]: an encoded image over
/// the limit is resized to half its width and height (an edge of one pixel
/// stays), again and again, until it fits; where even one pixel by one does
/// not fit, the answer is [`Error::TooLarge`].
pub fn optimize_thumbnail_size(data: Vec<u8>) -> (r: Result<Vec<u8>, Error>)
    ensures
        outcome(r) == optimized(data@),
        // Every thumbnail handed out fits the limit.
        r matches Ok(d) ==> d@.len() <= MAX_THUMBNAIL_SIZE,
        // It is the data as given, or a PNG made from it.
        r matches Ok(d) ==> d@ == data@ || is_png(d@),
        // It is no larger, edge by edge, than the image that `data` holds.
        r matches Ok(d) ==> (decoded_size(data@) matches Some(s) ==> (1 <= s.0 && 1 <= s.1 ==> (
        decoded_size(d@) matches Some(t) && (1 <= t.0 <= s.0 && 1 <= t.1 <= s.1)))),
{
    if data.len() <= MAX_THUMBNAIL_SIZE {
        return Ok(data);
    }
    let (mut width, mut height) = match image_size(data.as_slice()) {
        Ok(size) => size,
        Err(e) => return Err(Error::Image(e)),
    };
    let ghost size = (width, height);
    let ghost mut passes: nat = 0;
    proof {
        law_resize_passes_bounded(data@);
    }
    let mut current = data.clone();
    assert(current@ =~= data@);
    while current.len() > MAX_THUMBNAIL_SIZE && (width > 1 || height > 1)
        invariant
            decoded_size(data@) == Some(size),
            data@.len() > MAX_THUMBNAIL_SIZE,
            shrink(data@, data@, size.0, size.1) == shrink(data@, current@, width, height),
            // The passes made so far and those still to come are the passes
            // that `optimize_passes` counts, at most 32.
            passes + shrink_passes(data@, current@, width, height) == optimize_passes(data@),
            optimize_passes(data@) <= 32,
            current@ == data@ || is_png(current@),
            width <= size.0,
            height <= size.1,
            1 <= size.0 && 1 <= size.1 ==> 1 <= width && 1 <= height,
            1 <= size.0 && 1 <= size.1 ==> (current@ == data@ || (decoded_size(current@) matches Some(
                t,
            ) && (1 <= t.0 <= width && 1 <= t.1 <= height))),
        decreases width + height,
    {
        width = if width > 1 { width / 2 } else { width };
        height = if height > 1 { height / 2 } else { height };
        proof {
            passes = passes + 1;
        }
        match resized_png(data.as_slice(), width, height) {
            Ok(next) => {
                proof {
                    if 1 <= size.0 && 1 <= size.1 {
                        assert(within_box(data@, width, height));
                    }
                }
                current = next;
            },
            Err(e) => {
                return Err(Error::Image(e));
            },
        }
    }
    if current.len() > MAX_THUMBNAIL_SIZE {
        return Err(Error::TooLarge);
    }
    proof {
        if current@ == data@ {
            assert(decoded_size(current@) == Some(size));
        }
    }
    Ok(current)
}

/// The thumbnail of an encoded image: its PNG thumbnail at `width` by
/// `height`, kept under the size limit.
pub open spec fn image_thumbnail_of(bytes: Seq<u8>, width: u32, height: u32) -> Result<
    Seq<u8>,
    ErrorKind,
> {
    match png_thumbnail(bytes, width, height) {
        Some(png) => optimized(png),
        None => Err(ErrorKind::Image),
    }
}

/// The thumbnail of the encoded image `bytes`, fitting `width` by `height`
/// with its aspect ratio kept, as PNG under the size limit.
pub fn image_thumbnail(bytes: &[u8], width: u32, height: u32) -> (r: Result<Vec<u8>, Error>)
    ensures
        outcome(r) == image_thumbnail_of(bytes@, width, height),
        r matches Ok(d) ==> d@.len() <= MAX_THUMBNAIL_SIZE && is_png(d@),
        // Where the requested box fits the image, the thumbnail fits the
        // box: at most `width` wide and at most `height` high.
        r matches Ok(d) ==> (within_box(bytes@, width, height) ==> (decoded_size(d@) matches Some(
            t,
        ) && (1 <= t.0 <= width && 1 <= t.1 <= height))),
{
    match thumbnail_png(bytes, width, height) {
        Ok(png) => optimize_thumbnail_size(png),
        Err(e) => Err(Error::Image(e)),
    }
}

/// The thumbnail of an audio file's cover art, `None` where the file holds
/// no ID3 picture.
pub fn cover_thumbnail(file: &[u8], width: u32, height: u32) -> (r: Option<Result<Vec<u8>, Error>>)
    ensures
        match r {
            None => id3_cover(file@) is None,
            Some(t) => {
                &&& id3_cover(file@) is Some
                &&& outcome(t) == image_thumbnail_of(id3_cover(file@)->0, width, height)
                &&& t matches Ok(d) ==> d@.len() <= MAX_THUMBNAIL_SIZE && is_png(d@)
                &&& t matches Ok(d) ==> (within_box(id3_cover(file@)->0, width, height) ==> (
                decoded_size(d@) matches Some(s) && (1 <= s.0 <= width && 1 <= s.1 <= height)))
            },
        },
{
    match first_picture(file) {
        Some(picture) => Some(image_thumbnail(picture.as_slice(), width, height)),
        None => None,
    }
}

/// The PNG encoding of the RGBA pixels `pixels` of a `width` by `height`
/// image, as `image::RgbaImage::from_raw` and `write_to` make it, or `None`
/// where either fails.
pub uninterp spec fn rgba_png(width: u32, height: u32, pixels: Seq<u8>) -> Option<Seq<u8>>;

/// `image::RgbaImage::from_raw`, then `write_to` in PNG format (named by
/// [`rgba_png`]); `from_raw` refuses a buffer shorter than four bytes per
/// pixel.
#[verifier::external_body]
fn encode_rgba(width: u32, height: u32, pixels: Vec<u8>) -> (r: Option<Vec<u8>>)
    ensures
        match r {
            Some(png) => rgba_png(width, height, pixels@) == Some(png@),
            None => rgba_png(width, height, pixels@) is None,
        },
        pixels@.len() < width * height * 4 ==> r is None,
        r matches Some(png) ==> is_png(png@),
{
    let img = image::RgbaImage::from_raw(width, height, pixels)?;
    let mut bytes: Vec<u8> = Vec::new();
    img.write_to(&mut std::io::Cursor::new(&mut bytes), image::ImageFormat::Png).ok()?;
    Some(bytes)
}

/// The smallest edge requested from the Windows shell.
pub const MIN_SHELL_EDGE: u32 = 64;

/// The size to request from the Windows shell: each edge at least 64.
pub fn shell_request_size(width: u32, height: u32) -> (r: (u32, u32))
    ensures
        r.0 == (if width >= MIN_SHELL_EDGE { width } else { MIN_SHELL_EDGE }),
        r.1 == (if height >= MIN_SHELL_EDGE { height } else { MIN_SHELL_EDGE }),
{
    let w = if width >= MIN_SHELL_EDGE { width } else { MIN_SHELL_EDGE };
    let h = if height >= MIN_SHELL_EDGE { height } else { MIN_SHELL_EDGE };
    (w, h)
}

/// The byte length of a 32-bit bitmap of `width` by `height` pixels, `None`
/// where it exceeds `u32::MAX`.
pub fn bitmap_len(width: u32, height: u32) -> (r: Option<usize>)
    ensures
        match r {
            Some(n) => n == width * height * 4 && width * height * 4 <= u32::MAX,
            None => width * height * 4 > u32::MAX,
        },
{
    match width.checked_mul(height) {
        Some(area) => match area.checked_mul(4) {
            Some(n) => Some(n as usize),
            None => None,
        },
        None => {
            assert(width * height * 4 > u32::MAX) by (nonlinear_arith)
                requires
                    width * height > u32::MAX,
            ;
            None
        },
    }
}

/// The PNG encoding of a bitmap whose pixels are four bytes each, or
/// [`Error::NotFound`] where the pixels do not fill the bitmap or encoding
/// fails.
pub fn bitmap_png(width: u32, height: u32, pixels: Vec<u8>) -> (r: Result<Vec<u8>, Error>)
    ensures
        match r {
            Ok(png) => rgba_png(width, height, pixels@) == Some(png@),
            Err(e) => rgba_png(width, height, pixels@) is None && e@ == ErrorKind::NotFound,
        },
        pixels@.len() < width * height * 4 ==> r is Err,
{
    match encode_rgba(width, height, pixels) {
        Some(png) => Ok(png),
        None => Err(Error::NotFound),
    }
}

/// An encoded image that fits the size limit is handed out unchanged.
pub proof fn law_small_thumbnail_unchanged(data: Seq<u8>)
    requires
        data.len() <= MAX_THUMBNAIL_SIZE,
    ensures
        optimized(data) == Ok::<Seq<u8>, ErrorKind>(data),
{
}

proof fn lemma_shrink_fits(source: Seq<u8>, data: Seq<u8>, width: u32, height: u32)
    ensures
        shrink(source, data, width, height) matches Ok(r) ==> r.len() <= MAX_THUMBNAIL_SIZE,
    decreases width + height,
{
    if data.len() > MAX_THUMBNAIL_SIZE && !(width <= 1 && height <= 1) {
        if let Some(next) = png_resized(source, half(width), half(height)) {
            lemma_shrink_fits(source, next, half(width), half(height));
        }
    }
}

/// Every thumbnail that size-keeping hands out fits the limit, and is
/// handed out unchanged when given again.
pub proof fn law_optimized_fits(data: Seq<u8>)
    ensures
        optimized(data) matches Ok(r) ==> r.len() <= MAX_THUMBNAIL_SIZE && optimized(r) == Ok::<
            Seq<u8>,
            ErrorKind,
        >(r),
{
    if data.len() > MAX_THUMBNAIL_SIZE {
        if let Some(size) = decoded_size(data) {
            lemma_shrink_fits(data, data, size.0, size.1);
        }
    }
}

/// The first shrinking pass asks for half the decoded width by half the
/// decoded height (an edge of one pixel stays one), width first: where that
/// resize fits the limit, it is the thumbnail handed out.
pub proof fn law_first_pass_halves(data: Seq<u8>, width: u32, height: u32)
    requires
        data.len() > MAX_THUMBNAIL_SIZE,
        decoded_size(data) == Some((width, height)),
        width > 1 || height > 1,
    ensures
        ({
            let w = if width > 1 { (width / 2) as u32 } else { width };
            let h = if height > 1 { (height / 2) as u32 } else { height };
            png_resized(data, w, h) matches Some(r) ==> (r.len() <= MAX_THUMBNAIL_SIZE ==> optimized(
                data,
            ) == Ok::<Seq<u8>, ErrorKind>(r))
        }),
{
    let w = half(width);
    let h = half(height);
    if let Some(r) = png_resized(data, w, h) {
        if r.len() <= MAX_THUMBNAIL_SIZE {
            assert(shrink(data, r, w, h) == Ok::<Seq<u8>, ErrorKind>(r));
            assert(shrink(data, data, width, height) == shrink(data, r, w, h));
        }
    }
}

/// How many times an edge of `n` pixels can be halved while it is more
/// than one pixel.
pub open spec fn halvings(n: nat) -> nat
    decreases n,
{
    if n > 1 {
        1 + halvings(n / 2)
    } else {
        0
    }
}

/// `2^k`.
pub open spec fn two_to(k: nat) -> nat
    decreases k,
{
    if k == 0 {
        1
    } else {
        2 * two_to((k - 1) as nat)
    }
}

proof fn lemma_halvings_bound(n: nat, k: nat)
    requires
        n < two_to(k + 1),
    ensures
        halvings(n) <= k,
    decreases k,
{
    assert(two_to(k + 1) == 2 * two_to(k));
    if n > 1 {
        if k == 0 {
            assert(two_to(0) == 1);
        }
        lemma_halvings_bound(n / 2, (k - 1) as nat);
    }
}

proof fn lemma_passes_bound(source: Seq<u8>, data: Seq<u8>, width: u32, height: u32)
    ensures
        shrink_passes(source, data, width, height) <= if halvings(width as nat) >= halvings(
            height as nat,
        ) {
            halvings(width as nat)
        } else {
            halvings(height as nat)
        },
    decreases width + height,
{
    if data.len() > MAX_THUMBNAIL_SIZE && !(width <= 1 && height <= 1) {
        let w = half(width);
        let h = half(height);
        assert(width > 1 ==> halvings(width as nat) == 1 + halvings(w as nat));
        assert(height > 1 ==> halvings(height as nat) == 1 + halvings(h as nat));
        if let Some(next) = png_resized(source, w, h) {
            lemma_passes_bound(source, next, w, h);
        }
    }
}

/// Keeping a thumbnail under the limit makes at most 32 resize passes: each
/// halves every edge of more than one pixel, and a `u32` edge is down to one
/// pixel after 31 halvings.
pub proof fn law_resize_passes_bounded(data: Seq<u8>)
    ensures
        optimize_passes(data) <= 32,
{
    reveal_with_fuel(two_to, 33);
    assert(two_to(32) == 4294967296);
    if data.len() > MAX_THUMBNAIL_SIZE {
        if let Some(size) = decoded_size(data) {
            lemma_passes_bound(data, data, size.0, size.1);
            lemma_halvings_bound(size.0 as nat, 31);
            lemma_halvings_bound(size.1 as nat, 31);
        }
    }
}

} // verus!
