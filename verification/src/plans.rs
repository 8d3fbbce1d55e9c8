use vstd::prelude::*;
use vstd::string::StringExecFns;

use crate::hashing::{
    cache_dir_of, file_uri, file_url, freedesktop_candidate, freedesktop_candidates, freedesktop_hash,
    hash_path, md5_hex, opt_view,
};
use crate::text::{decimal, decimal_string, file_name, file_name_of, join_path, path_join, push_char};

verus! {

/// The views of a sequence of strings.
pub open spec fn views(v: Seq<String>) -> Seq<Seq<char>> {
    v.map_values(|s: String| s@)
}

/// A program to run, with its arguments.
#[derive(Debug)]
pub struct CommandPlan {
    pub program: String,
    pub args: Vec<String>,
}

/// What a cached thumbnail must record to be taken: the URL and the
/// modification time (seconds) of the file it was made from.
#[derive(Debug)]
pub struct CacheKey {
    pub uri: String,
    pub mtime: u64,
}

/// One way to obtain a thumbnail file: optionally run a command, then take
/// the file at `output` if it exists (and, where `require` is set, records
/// that key), moving it to `keep_as` or removing it once read. `output` is
/// `None` where no file name could be formed.
#[derive(Debug)]
pub struct Attempt {
    pub run: Option<CommandPlan>,
    pub output: Option<String>,
    pub keep_as: Option<String>,
    pub remove_after: bool,
    pub require: Option<CacheKey>,
}

/// Ways to obtain a thumbnail, tried in order, after creating `make_dir`.
#[derive(Debug)]
pub struct Plan {
    pub make_dir: Option<String>,
    pub attempts: Vec<Attempt>,
}

fn push_arg(args: &mut Vec<String>, a: String)
    ensures
        views(final(args)@) == views(old(args)@).push(a@),
{
    args.push(a);
    assert(views(args@) =~= views(old(args)@).push(a@));
}

fn command(program: &str, args: Vec<String>) -> (c: CommandPlan)
    ensures
        c.program@ == program@,
        c.args@ == args@,
{
    CommandPlan { program: program.to_owned(), args }
}

/// `{w}x{h}` in decimal.
pub open spec fn size_text(width: u32, height: u32) -> Seq<char> {
    decimal(width as nat) + seq!['x'] + decimal(height as nat)
}

/// The larger of two edges.
pub open spec fn larger(a: u32, b: u32) -> u32 {
    if a >= b {
        a
    } else {
        b
    }
}

/// Where `ffmpeg` writes the thumbnail of the video at `path`.
pub open spec fn video_output(temp_dir: Seq<char>, path: Seq<char>) -> Seq<char> {
    path_join(temp_dir, "v_thumb_"@ + md5_hex(path) + ".png"@)
}

/// The `ffmpeg` arguments that grab one frame at one second into the video at
/// `path`, scaled to `width` by `height`, into `output`.
pub open spec fn video_args(path: Seq<char>, width: u32, height: u32, output: Seq<char>) -> Seq<
    Seq<char>,
> {
    seq![
        "-i"@,
        path,
        "-ss"@,
        "00:00:01"@,
        "-vframes"@,
        "1"@,
        "-s"@,
        size_text(width, height),
        "-f"@,
        "image2"@,
        "-y"@,
        output,
    ]
}

/// The prefix that `pdftoppm` is given for the thumbnail of the PDF at `path`.
pub open spec fn pdf_prefix(temp_dir: Seq<char>, path: Seq<char>) -> Seq<char> {
    path_join(temp_dir, "p_thumb_"@ + md5_hex(path))
}

/// Where `pdftoppm` writes the thumbnail of the PDF at `path`.
pub open spec fn pdf_output(temp_dir: Seq<char>, path: Seq<char>) -> Seq<char> {
    path_join(temp_dir, "p_thumb_"@ + md5_hex(path) + ".png"@)
}

/// The `pdftoppm` arguments that render the first page of the PDF at `path`
/// as a single PNG scaled to `width`, named after `prefix`.
pub open spec fn pdf_args(path: Seq<char>, width: u32, prefix: Seq<char>) -> Seq<Seq<char>> {
    seq![
        "-png"@,
        "-f"@,
        "1"@,
        "-l"@,
        "1"@,
        "-scale-to"@,
        decimal(width as nat),
        "-singlefile"@,
        path,
        prefix,
    ]
}

/// A plan made of one attempt that runs `program` and removes its output once
/// read.
pub open spec fn is_command_plan(
    p: Plan,
    program: Seq<char>,
    args: Seq<Seq<char>>,
    output: Seq<char>,
) -> bool {
    &&& p.make_dir is None
    &&& p.attempts@.len() == 1
    &&& p.attempts@[0].run matches Some(c) && c.program@ == program && views(c.args@) == args
    &&& p.attempts@[0].output matches Some(o) && o@ == output
    &&& p.attempts@[0].keep_as is None
    &&& p.attempts@[0].remove_after
    &&& p.attempts@[0].require is None
}

fn single_command(program: &str, args: Vec<String>, output: String) -> (p: Plan)
    ensures
        is_command_plan(p, program@, views(args@), output@),
{
    let mut attempts: Vec<Attempt> = Vec::new();
    attempts.push(
        Attempt {
            run: Some(command(program, args)),
            output: Some(output),
            keep_as: None,
            remove_after: true,
            require: None,
        },
    );
    Plan { make_dir: None, attempts }
}

/// The `ffmpeg` run that makes the thumbnail of the video at `path`, with its
/// output in `temp_dir`.
pub fn video_plan(path: &str, width: u32, height: u32, temp_dir: &str) -> (p: Plan)
    ensures
        is_command_plan(
            p,
            "ffmpeg"@,
            video_args(path@, width, height, video_output(temp_dir@, path@)),
            video_output(temp_dir@, path@),
        ),
{
    let name = "v_thumb_".to_owned().concat(hash_path(path).as_str()).concat(".png");
    let output = join_path(temp_dir, name.as_str());
    let mut size = decimal_string(width as u64);
    push_char(&mut size, 'x');
    let size = size.concat(decimal_string(height as u64).as_str());
    assert(size@ =~= size_text(width, height));
    let mut args: Vec<String> = Vec::new();
    push_arg(&mut args, "-i".to_owned());
    push_arg(&mut args, path.to_owned());
    push_arg(&mut args, "-ss".to_owned());
    push_arg(&mut args, "00:00:01".to_owned());
    push_arg(&mut args, "-vframes".to_owned());
    push_arg(&mut args, "1".to_owned());
    push_arg(&mut args, "-s".to_owned());
    push_arg(&mut args, size);
    push_arg(&mut args, "-f".to_owned());
    push_arg(&mut args, "image2".to_owned());
    push_arg(&mut args, "-y".to_owned());
    push_arg(&mut args, output.clone());
    assert(views(args@) =~= video_args(path@, width, height, output@));
    single_command("ffmpeg", args, output)
}

/// The `pdftoppm` run that makes the thumbnail of the PDF at `path`, with its
/// output in `temp_dir`. The height is not used: `pdftoppm` keeps the page's
/// aspect ratio.
pub fn pdf_plan(path: &str, width: u32, height: u32, temp_dir: &str) -> (p: Plan)
    ensures
        is_command_plan(
            p,
            "pdftoppm"@,
            pdf_args(path@, width, pdf_prefix(temp_dir@, path@)),
            pdf_output(temp_dir@, path@),
        ),
{
    let stem = "p_thumb_".to_owned().concat(hash_path(path).as_str());
    let prefix = join_path(temp_dir, stem.as_str());
    let name = stem.concat(".png");
    let output = join_path(temp_dir, name.as_str());
    let mut args: Vec<String> = Vec::new();
    push_arg(&mut args, "-png".to_owned());
    push_arg(&mut args, "-f".to_owned());
    push_arg(&mut args, "1".to_owned());
    push_arg(&mut args, "-l".to_owned());
    push_arg(&mut args, "1".to_owned());
    push_arg(&mut args, "-scale-to".to_owned());
    push_arg(&mut args, decimal_string(width as u64));
    push_arg(&mut args, "-singlefile".to_owned());
    push_arg(&mut args, path.to_owned());
    push_arg(&mut args, prefix);
    assert(views(args@) =~= pdf_args(path@, width, pdf_prefix(temp_dir@, path@)));
    single_command("pdftoppm", args, output)
}

/// An attempt that only takes the file at `path` where it exists.
pub open spec fn is_lookup(a: Attempt, path: Seq<char>) -> bool {
    &&& a.run is None
    &&& a.output matches Some(o) && o@ == path
    &&& a.keep_as is None
    &&& !a.remove_after
}

/// An attempt that takes the cached thumbnail at `path` where it exists and
/// records the file URL `uri` and modification time `mtime`.
pub open spec fn is_checked_lookup(a: Attempt, path: Seq<char>, uri: Seq<char>, mtime: u64) -> bool {
    &&& is_lookup(a, path)
    &&& a.require matches Some(k) && k.uri@ == uri && k.mtime == mtime
}

/// The Freedesktop thumbnail lookup for the file at the absolute `path`,
/// last modified at `mtime` seconds: the cached thumbnail in each size
/// directory in turn, taken only where it records the file's URL and
/// modification time; `None` where the path has no `file://` URL or no
/// cache directory is known.
pub fn freedesktop_plan(
    path: &str,
    xdg_cache_home: Option<String>,
    home: Option<String>,
    mtime: u64,
) -> (r: Option<Plan>)
    ensures
        match r {
            Some(p) => {
                &&& freedesktop_hash(path@) is Some
                &&& cache_dir_of(opt_view(xdg_cache_home), opt_view(home)).len() > 0
                &&& p.make_dir is None
                &&& p.attempts@.len() == 4
                &&& forall|i: int|
                    0 <= i < 4 ==> is_checked_lookup(
                        #[trigger] p.attempts@[i],
                        freedesktop_candidate(
                            cache_dir_of(opt_view(xdg_cache_home), opt_view(home)),
                            freedesktop_hash(path@)->0,
                            i,
                        ),
                        file_url(path@)->0,
                        mtime,
                    )
            },
            None => freedesktop_hash(path@) is None || cache_dir_of(
                opt_view(xdg_cache_home),
                opt_view(home),
            ).len() == 0,
        },
{
    let ghost cache = cache_dir_of(opt_view(xdg_cache_home), opt_view(home));
    let ghost hash = freedesktop_hash(path@);
    let mut candidates = match freedesktop_candidates(path, xdg_cache_home, home) {
        Some(c) => c,
        None => return None,
    };
    let uri = match file_uri(path) {
        Some(u) => u,
        None => return None,
    };
    let mut attempts: Vec<Attempt> = Vec::new();
    let ghost all = candidates@;
    while candidates.len() > 0
        invariant
            hash is Some,
            file_url(path@) == Some(uri@),
            all.len() == 4,
            forall|i: int| 0 <= i < 4 ==> #[trigger] all[i]@ == freedesktop_candidate(cache, hash->0, i),
            attempts@.len() + candidates@.len() == 4,
            candidates@ == all.subrange(attempts@.len() as int, 4),
            forall|i: int|
                0 <= i < attempts@.len() ==> is_checked_lookup(
                    #[trigger] attempts@[i],
                    freedesktop_candidate(cache, hash->0, i),
                    uri@,
                    mtime,
                ),
        decreases candidates@.len(),
    {
        let c = candidates.remove(0);
        let ghost k = attempts@.len() as int;
        assert(c == all[k]);
        let key = CacheKey { uri: uri.clone(), mtime };
        attempts.push(
            Attempt { run: None, output: Some(c), keep_as: None, remove_after: false, require: Some(key) },
        );
        assert(candidates@ =~= all.subrange(attempts@.len() as int, 4));
    }
    Some(Plan { make_dir: None, attempts })
}

/// The directory where Quick Look and `sips` thumbnails are kept.
pub open spec fn mac_cache_dir(app_cache: Seq<char>) -> Seq<char> {
    path_join(app_cache, "tauri-plugin-thumbnail"@)
}

/// Where the kept thumbnail of the file at `path` lives.
pub open spec fn mac_cache_file(app_cache: Seq<char>, path: Seq<char>) -> Seq<char> {
    path_join(mac_cache_dir(app_cache), md5_hex(path) + ".png"@)
}

/// Where Quick Look writes the thumbnail of the file at `path`: its file name
/// followed by `.png`.
pub open spec fn quicklook_output(app_cache: Seq<char>, path: Seq<char>) -> Option<Seq<char>> {
    match file_name_of(path) {
        Some(name) => Some(path_join(mac_cache_dir(app_cache), name + ".png"@)),
        None => None,
    }
}

/// Where `sips` writes the thumbnail of the file at `path`.
pub open spec fn sips_output(app_cache: Seq<char>, path: Seq<char>) -> Seq<char> {
    path_join(mac_cache_dir(app_cache), "tmp_"@ + md5_hex(path) + ".png"@)
}

/// The `qlmanage` arguments for a thumbnail of `path` of size `width`.
pub open spec fn quicklook_args(app_cache: Seq<char>, path: Seq<char>, width: u32) -> Seq<
    Seq<char>,
> {
    seq!["-t"@, "-s"@, decimal(width as nat), "-o"@, mac_cache_dir(app_cache), path]
}

/// The `sips` arguments that convert `path` to a PNG whose larger edge is at
/// most the larger of `width` and `height`.
pub open spec fn sips_args(app_cache: Seq<char>, path: Seq<char>, width: u32, height: u32) -> Seq<
    Seq<char>,
> {
    seq![
        "-s"@,
        "format"@,
        "png"@,
        "-Z"@,
        decimal(larger(width, height) as nat),
        "-o"@,
        sips_output(app_cache, path),
        path,
    ]
}

/// The macOS plan for the file at `path` (see [`macos_plan`]).
pub open spec fn is_macos_plan(p: Plan, app_cache: Seq<char>, path: Seq<char>, width: u32, height: u32) -> bool {
    &&& p.make_dir matches Some(d) && d@ == mac_cache_dir(app_cache)
    &&& p.attempts@.len() == 3
    &&& forall|i: int| 0 <= i < 3 ==> (#[trigger] p.attempts@[i]).require is None
    &&& is_lookup(p.attempts@[0], mac_cache_file(app_cache, path))
    &&& p.attempts@[1].run matches Some(c) && c.program@ == "qlmanage"@ && views(c.args@)
        == quicklook_args(app_cache, path, width)
    &&& opt_view(p.attempts@[1].output) == quicklook_output(app_cache, path)
    &&& p.attempts@[1].keep_as matches Some(k) && k@ == mac_cache_file(app_cache, path)
    &&& !p.attempts@[1].remove_after
    &&& p.attempts@[2].run matches Some(c) && c.program@ == "sips"@ && views(c.args@) == sips_args(
        app_cache,
        path,
        width,
        height,
    )
    &&& p.attempts@[2].output matches Some(o) && o@ == sips_output(app_cache, path)
    &&& p.attempts@[2].keep_as matches Some(k) && k@ == mac_cache_file(app_cache, path)
    &&& !p.attempts@[2].remove_after
}

/// The `sips` fallback of a macOS plan bounds the thumbnail's larger edge
/// by the larger of the requested width and height: the value after `-Z` is
/// written in decimal, is at least both, and is one of them.
pub proof fn law_sips_edge_is_larger(
    p: Plan,
    app_cache: Seq<char>,
    path: Seq<char>,
    width: u32,
    height: u32,
)
    requires
        is_macos_plan(p, app_cache, path, width, height),
    ensures
        p.attempts@[2].run matches Some(c) && c.args@.len() == 8 && c.args@[3]@ == "-Z"@ && exists|
            e: u32,
        |
            #![trigger decimal(e as nat)]
            c.args@[4]@ == decimal(e as nat) && e >= width && e >= height && (e == width || e
                == height),
{
    let c = p.attempts@[2].run->0;
    let e = larger(width, height);
    assert(views(c.args@) == sips_args(app_cache, path, width, height));
    assert(sips_args(app_cache, path, width, height).len() == 8);
    assert(c.args@.len() == views(c.args@).len());
    assert(views(c.args@)[4] == c.args@[4]@);
    assert(views(c.args@)[3] == c.args@[3]@);
    assert(c.args@[4]@ == decimal(e as nat));
}

/// A thumbnail that a macOS plan makes is kept where the plan for the same
/// file looks first, whatever size either asks for: the next request for
/// the file is served from the kept file.
pub proof fn law_macos_keeps_for_next_request(
    first: Plan,
    next: Plan,
    app_cache: Seq<char>,
    path: Seq<char>,
    width: u32,
    height: u32,
    next_width: u32,
    next_height: u32,
)
    requires
        is_macos_plan(first, app_cache, path, width, height),
        is_macos_plan(next, app_cache, path, next_width, next_height),
    ensures
        forall|i: int|
            1 <= i < 3 ==> ((#[trigger] first.attempts@[i]).keep_as matches Some(k) && (
                next.attempts@[0].output matches Some(o) && k@ == o@)),
        next.attempts@[0].run is None,
{
}

/// The macOS thumbnail plan for the file at `path`, with `app_cache` the
/// application's cache directory: the kept thumbnail where there is one,
/// else a Quick Look thumbnail, else a `sips` conversion, each new one kept
/// for next time.
pub fn macos_plan(app_cache: &str, path: &str, width: u32, height: u32) -> (p: Plan)
    ensures
        is_macos_plan(p, app_cache@, path@, width, height),
{
    let dir = join_path(app_cache, "tauri-plugin-thumbnail");
    let hash = hash_path(path);
    let cache_file = join_path(dir.as_str(), hash.clone().concat(".png").as_str());
    let generated = match file_name(path) {
        Some(name) => Some(join_path(dir.as_str(), name.concat(".png").as_str())),
        None => None,
    };
    let tmp_file = join_path(dir.as_str(), "tmp_".to_owned().concat(hash.as_str()).concat(".png").as_str());

    let mut ql: Vec<String> = Vec::new();
    push_arg(&mut ql, "-t".to_owned());
    push_arg(&mut ql, "-s".to_owned());
    push_arg(&mut ql, decimal_string(width as u64));
    push_arg(&mut ql, "-o".to_owned());
    push_arg(&mut ql, dir.clone());
    push_arg(&mut ql, path.to_owned());
    assert(views(ql@) =~= quicklook_args(app_cache@, path@, width));

    let edge = if width >= height { width } else { height };
    let mut sips: Vec<String> = Vec::new();
    push_arg(&mut sips, "-s".to_owned());
    push_arg(&mut sips, "format".to_owned());
    push_arg(&mut sips, "png".to_owned());
    push_arg(&mut sips, "-Z".to_owned());
    push_arg(&mut sips, decimal_string(edge as u64));
    push_arg(&mut sips, "-o".to_owned());
    push_arg(&mut sips, tmp_file.clone());
    push_arg(&mut sips, path.to_owned());
    assert(views(sips@) =~= sips_args(app_cache@, path@, width, height));

    let mut attempts: Vec<Attempt> = Vec::new();
    attempts.push(
        Attempt {
            run: None,
            output: Some(cache_file.clone()),
            keep_as: None,
            remove_after: false,
            require: None,
        },
    );
    attempts.push(
        Attempt {
            run: Some(command("qlmanage", ql)),
            output: generated,
            keep_as: Some(cache_file.clone()),
            remove_after: false,
            require: None,
        },
    );
    attempts.push(
        Attempt {
            run: Some(command("sips", sips)),
            output: Some(tmp_file),
            keep_as: Some(cache_file),
            remove_after: false,
            require: None,
        },
    );
    Plan { make_dir: Some(dir), attempts }
}

} // verus!
