use vstd::prelude::*;
use vstd::string::StrSliceExecFns;
use vstd::string::StringExecFns;
use vstd::utf8::encode_utf8;

use crate::text::{hex_lower, is_hex_lower_char, join_path, law_hex_lower_digits, lower_hex, path_join};

verus! {

/// The MD5 digest of `data`, as the `md5` crate computes it.
pub uninterp spec fn md5_digest(data: Seq<u8>) -> Seq<u8>;

/// The `file://` URL of a path, as `url::Url::from_file_path` serializes it
/// on Unix, where this lookup is made; `None` where that function refuses
/// the path (on Unix: where it is not absolute).
pub uninterp spec fn file_url(path: Seq<char>) -> Option<Seq<char>>;

/// `md5::compute`: the sixteen bytes of the MD5 digest of `data`, named by
/// [`md5_digest`].
#[verifier::external_body]
fn md5_bytes(data: &[u8]) -> (d: [u8; 16])
    ensures
        d@ == md5_digest(data@),
{
    md5::compute(data).0
}

/// `url::Url::from_file_path`, serialized: the URL named by [`file_url`], or
/// `None` where the crate returns its error.
#[verifier::external_body]
fn file_url_string(path: &str) -> (r: Option<String>)
    ensures
        match r {
            Some(u) => file_url(path@) == Some(u@),
            None => file_url(path@) is None,
        },
{
    match url::Url::from_file_path(path) {
        Ok(u) => Some(String::from(u)),
        Err(()) => None,
    }
}

/// The `file://` URL of the absolute `path`, `None` where it has none.
pub fn file_uri(path: &str) -> (u: Option<String>)
    ensures
        opt_view(u) == file_url(path@),
{
    file_url_string(path)
}

/// Lower-case hexadecimal MD5 digest of the UTF-8 bytes of `text`.
pub open spec fn md5_hex(text: Seq<char>) -> Seq<char> {
    hex_lower(md5_digest(encode_utf8(text)))
}

/// The name under which a file's thumbnail is cached: the lower-case
/// hexadecimal MD5 digest of its path.
pub fn hash_path(path: &str) -> (h: String)
    ensures
        h@ == md5_hex(path@),
        h@.len() == 32,
        forall|i: int| 0 <= i < 32 ==> is_hex_lower_char(#[trigger] h@[i]),
{
    let digest = md5_bytes(path.as_bytes());
    proof {
        law_hex_lower_digits(digest@);
    }
    lower_hex(&digest)
}

/// The name of a file's thumbnail in the Freedesktop thumbnail cache: the
/// MD5 hash of its `file://` URL, `None` where the path has no such URL.
pub open spec fn freedesktop_hash(path: Seq<char>) -> Option<Seq<char>> {
    match file_url(path) {
        Some(u) => Some(md5_hex(u)),
        None => None,
    }
}

/// The Freedesktop name of the thumbnail of the file at the absolute `path`.
pub fn freedesktop_thumbnail_hash(path: &str) -> (h: Option<String>)
    ensures
        match h {
            Some(h) => freedesktop_hash(path@) == Some(h@),
            None => freedesktop_hash(path@) is None,
        },
{
    match file_url_string(path) {
        Some(uri) => {
            let digest = md5_bytes(uri.as_str().as_bytes());
            Some(lower_hex(&digest))
        },
        None => None,
    }
}

/// The view of an optional string.
pub open spec fn opt_view(s: Option<String>) -> Option<Seq<char>> {
    match s {
        Some(s) => Some(s@),
        None => None,
    }
}

/// Whether a value of `$XDG_CACHE_HOME` is used: the base-directory rules
/// ignore an empty or relative one.
pub open spec fn usable_cache_home(x: Seq<char>) -> bool {
    x.len() > 0 && x[0] == '/'
}

/// The user's cache directory: `$XDG_CACHE_HOME` where it is set to an
/// absolute path, else `.cache` in the home directory, else the empty path.
pub open spec fn cache_dir_of(xdg_cache_home: Option<Seq<char>>, home: Option<Seq<char>>) -> Seq<
    char,
> {
    match xdg_cache_home {
        Some(x) if usable_cache_home(x) => x,
        _ => match home {
            Some(h) => path_join(h, ".cache"@),
            None => seq![],
        },
    }
}

/// The cache directory chosen from the environment variable and the home
/// directory.
pub fn cache_dir(xdg_cache_home: Option<String>, home: Option<String>) -> (d: String)
    ensures
        d@ == cache_dir_of(opt_view(xdg_cache_home), opt_view(home)),
{
    let usable = match &xdg_cache_home {
        Some(x) => x.as_str().unicode_len() > 0 && x.as_str().get_char(0) == '/',
        None => false,
    };
    match xdg_cache_home {
        Some(x) if usable => x,
        _ => match home {
            Some(h) => join_path(h.as_str(), ".cache"),
            None => String::new(),
        },
    }
}

/// The size directories of the Freedesktop cache, in the order they are
/// searched.
pub open spec fn thumbnail_size_dir(i: int) -> Seq<char> {
    if i == 0 {
        "thumbnails/large"@
    } else if i == 1 {
        "thumbnails/normal"@
    } else if i == 2 {
        "thumbnails/x-large"@
    } else {
        "thumbnails/xx-large"@
    }
}

/// Where the `i`th size directory of `cache` keeps the thumbnail named `hash`.
pub open spec fn freedesktop_candidate(cache: Seq<char>, hash: Seq<char>, i: int) -> Seq<char> {
    path_join(path_join(cache, thumbnail_size_dir(i)), hash + ".png"@)
}

/// The paths where a Freedesktop thumbnail of the file at the absolute
/// `path` may be cached, in the order to try them; `None` where the path has
/// no `file://` URL or no cache directory is known.
pub fn freedesktop_candidates(path: &str, xdg_cache_home: Option<String>, home: Option<String>) -> (r:
    Option<Vec<String>>)
    ensures
        match r {
            Some(paths) => {
                &&& freedesktop_hash(path@) is Some
                &&& cache_dir_of(opt_view(xdg_cache_home), opt_view(home)).len() > 0
                &&& paths@.len() == 4
                &&& forall|i: int|
                    0 <= i < 4 ==> #[trigger] paths@[i]@ == freedesktop_candidate(
                        cache_dir_of(opt_view(xdg_cache_home), opt_view(home)),
                        freedesktop_hash(path@)->0,
                        i,
                    )
            },
            None => freedesktop_hash(path@) is None || cache_dir_of(
                opt_view(xdg_cache_home),
                opt_view(home),
            ).len() == 0,
        },
{
    let hash = match freedesktop_thumbnail_hash(path) {
        Some(h) => h,
        None => return None,
    };
    let dir = cache_dir(xdg_cache_home, home);
    if dir.as_str().is_empty() {
        return None;
    }
    let file = hash.concat(".png");
    let large = join_path(dir.as_str(), "thumbnails/large");
    let normal = join_path(dir.as_str(), "thumbnails/normal");
    let x_large = join_path(dir.as_str(), "thumbnails/x-large");
    let xx_large = join_path(dir.as_str(), "thumbnails/xx-large");
    let mut paths: Vec<String> = Vec::new();
    paths.push(join_path(large.as_str(), file.as_str()));
    paths.push(join_path(normal.as_str(), file.as_str()));
    paths.push(join_path(x_large.as_str(), file.as_str()));
    paths.push(join_path(xx_large.as_str(), file.as_str()));
    Some(paths)
}

} // verus!
