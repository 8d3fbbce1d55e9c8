use vstd::prelude::*;
use vstd::string::StrSliceExecFns;

use crate::text::{decimal, decimal_string};

verus! {

/// Whether `bytes` are the characters of `text`, one byte per character
/// (Latin-1, as PNG text chunks are written).
pub open spec fn spells(bytes: Seq<u8>, text: Seq<char>) -> bool {
    bytes.len() == text.len() && forall|i: int| 0 <= i < bytes.len() ==> bytes[i] as int == #[trigger] text[i] as int
}

/// The eight bytes that begin every PNG file.
pub open spec fn png_signature() -> Seq<u8> {
    seq![137u8, 80u8, 78u8, 71u8, 13u8, 10u8, 26u8, 10u8]
}

/// Whether `b` begins with the PNG signature.
pub open spec fn is_png(b: Seq<u8>) -> bool {
    b.len() >= 8 && b.subrange(0, 8) == png_signature()
}

/// The big-endian 32-bit number at `p`.
pub open spec fn be32(b: Seq<u8>, p: int) -> int {
    b[p] as int * 16777216 + b[p + 1] as int * 65536 + b[p + 2] as int * 256 + b[p + 3] as int
}

/// The text of a `tEXt` chunk's data whose keyword is `key`: what follows
/// the keyword and its zero byte.
pub open spec fn text_value(data: Seq<u8>, key: Seq<char>) -> Option<Seq<u8>> {
    if data.len() > key.len() && spells(data.subrange(0, key.len() as int), key) && data[key.len()
        as int] == 0 {
        Some(data.subrange(key.len() as int + 1, data.len() as int))
    } else {
        None
    }
}

/// The text stored under `key` in the first `tEXt` chunk that has it, among
/// the chunks from offset `pos` on; the search stops at `IEND` or at a chunk
/// that runs past the end of `b`.
pub open spec fn text_from(b: Seq<u8>, pos: int, key: Seq<char>) -> Option<Seq<u8>>
    decreases b.len() - pos,
{
    if pos < 0 || pos + 12 > b.len() {
        None
    } else {
        let len = be32(b, pos);
        let end = pos + 12 + len;
        if end > b.len() {
            None
        } else {
            let data = b.subrange(pos + 8, pos + 8 + len);
            let kind = b.subrange(pos + 4, pos + 8);
            if spells(kind, "tEXt"@) && text_value(data, key) is Some {
                text_value(data, key)
            } else if spells(kind, "IEND"@) {
                None
            } else {
                text_from(b, end, key)
            }
        }
    }
}

/// The text stored under `key` in a PNG file's `tEXt` chunks, `None` where
/// the bytes are not a PNG file or hold no such text.
pub open spec fn png_text(b: Seq<u8>, key: Seq<char>) -> Option<Seq<u8>> {
    if is_png(b) {
        text_from(b, 8, key)
    } else {
        None
    }
}

/// Whether a cached Freedesktop thumbnail belongs to the current file: its
/// `Thumb::URI` is the file's URL and its `Thumb::MTime` the file's
/// modification time, in seconds, in decimal.
pub open spec fn thumbnail_is_current(png: Seq<u8>, uri: Seq<char>, mtime: u64) -> bool {
    &&& png_text(png, "Thumb::URI"@) matches Some(u) && spells(u, uri)
    &&& png_text(png, "Thumb::MTime"@) matches Some(m) && spells(m, decimal(mtime as nat))
}

/// Whether `b[start..end]` spells `text`.
fn spells_range(b: &[u8], start: usize, end: usize, text: &str) -> (r: bool)
    requires
        start <= end <= b@.len(),
    ensures
        r == spells(b@.subrange(start as int, end as int), text@),
{
    let n = text.unicode_len();
    if end - start != n {
        return false;
    }
    let mut i: usize = 0;
    while i < n
        invariant
            n == text@.len(),
            end - start == n,
            start <= end <= b@.len(),
            i <= n,
            forall|j: int| 0 <= j < i ==> b@[start + j] as int == #[trigger] text@[j] as int,
        decreases n - i,
    {
        let c = text.get_char(i);
        if (b[start + i] as u32) != (c as u32) {
            assert(b@.subrange(start as int, end as int)[i as int] == b@[start + i]);
            return false;
        }
        i = i + 1;
    }
    assert forall|j: int| 0 <= j < n implies b@.subrange(start as int, end as int)[j] as int
        == #[trigger] text@[j] as int by {
        assert(b@.subrange(start as int, end as int)[j] == b@[start + j]);
    }
    true
}

/// Where the text of a `tEXt` chunk's data `b[start..end]` begins, where its
/// keyword is `key`.
fn text_value_start(b: &[u8], start: usize, end: usize, key: &str) -> (r: Option<usize>)
    requires
        start <= end <= b@.len(),
    ensures
        match r {
            Some(v) => start <= v <= end && text_value(b@.subrange(start as int, end as int), key@)
                == Some(b@.subrange(v as int, end as int)),
            None => text_value(b@.subrange(start as int, end as int), key@) is None,
        },
{
    let k = key.unicode_len();
    let ghost data = b@.subrange(start as int, end as int);
    if end - start <= k {
        return None;
    }
    let named = spells_range(b, start, start + k, key);
    assert(data.subrange(0, k as int) =~= b@.subrange(start as int, start + k));
    if named && b[start + k] == 0 {
        assert(data[k as int] == b@[start + k]);
        assert(data.subrange(k + 1, data.len() as int) =~= b@.subrange(start + k + 1, end as int));
        Some(start + k + 1)
    } else {
        assert(data[k as int] == b@[start + k]);
        None
    }
}

/// Whether `b` begins with the PNG signature.
pub fn is_png_file(b: &[u8]) -> (r: bool)
    ensures
        r == is_png(b@),
{
    if b.len() < 8 || !spells_range(b, 0, 8, "\u{89}PNG\r\n\u{1a}\n") {
        proof {
            reveal_strlit("\u{89}PNG\r\n\u{1a}\n");
            if b@.len() >= 8 && b@.subrange(0, 8) == png_signature() {
                assert(spells(b@.subrange(0, 8), "\u{89}PNG\r\n\u{1a}\n"@));
            }
        }
        return false;
    }
    proof {
        reveal_strlit("\u{89}PNG\r\n\u{1a}\n");
        let sig = b@.subrange(0, 8);
        assert forall|i: int| 0 <= i < 8 implies sig[i] == #[trigger] png_signature()[i] by {
            assert(sig[i] as int == "\u{89}PNG\r\n\u{1a}\n"@[i] as int);
        }
        assert(sig =~= png_signature());
    }
    true
}

fn read_be32(b: &[u8], p: usize) -> (r: u64)
    requires
        p + 4 <= b@.len(),
    ensures
        r == be32(b@, p as int),
{
    (b[p] as u64) * 16777216 + (b[p + 1] as u64) * 65536 + (b[p + 2] as u64) * 256 + (b[p + 3] as u64)
}

/// Where the text stored under `key` in the PNG file `b` lies, `None` where
/// there is none (see [`png_text`]).
pub fn png_text_range(b: &[u8], key: &str) -> (r: Option<(usize, usize)>)
    ensures
        match r {
            Some((s, e)) => s <= e <= b@.len() && png_text(b@, key@) == Some(b@.subrange(s as int, e as int)),
            None => png_text(b@, key@) is None,
        },
{
    if !is_png_file(b) {
        return None;
    }
    let mut pos: usize = 8;
    while pos <= b.len() && b.len() - pos >= 12
        invariant
            8 <= pos,
            png_text(b@, key@) == text_from(b@, pos as int, key@),
        decreases b@.len() - pos,
    {
        let len = read_be32(b, pos);
        let room: usize = b.len() - pos - 12;
        if len > room as u64 {
            return None;
        }
        let n: usize = len as usize;
        let data_end: usize = pos + 8 + n;
        let ghost kind = b@.subrange(pos + 4, pos + 8);
        let is_text = spells_range(b, pos + 4, pos + 8, "tEXt");
        if is_text {
            match text_value_start(b, pos + 8, data_end, key) {
                Some(v) => {
                    return Some((v, data_end));
                },
                None => {},
            }
        }
        if spells_range(b, pos + 4, pos + 8, "IEND") {
            return None;
        }
        pos = data_end + 4;
    }
    None
}

/// Whether the cached thumbnail `png` belongs to the file whose URL is `uri`
/// and whose modification time is `mtime` seconds.
pub fn is_current_thumbnail(png: &[u8], uri: &str, mtime: u64) -> (r: bool)
    ensures
        r == thumbnail_is_current(png@, uri@, mtime),
{
    let uri_ok = match png_text_range(png, "Thumb::URI") {
        Some((s, e)) => spells_range(png, s, e, uri),
        None => false,
    };
    let stamp = decimal_string(mtime);
    let mtime_ok = match png_text_range(png, "Thumb::MTime") {
        Some((s, e)) => spells_range(png, s, e, stamp.as_str()),
        None => false,
    };
    uri_ok && mtime_ok
}

} // verus!
