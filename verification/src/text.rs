use vstd::prelude::*;
use vstd::string::StrSliceExecFns;
use vstd::string::StringExecFns;

verus! {

/// Appends `c` to `s`: `String::push`.
#[verifier::external_body]
pub(crate) fn push_char(s: &mut String, c: char)
    ensures
        final(s)@ == old(s)@.push(c),
{
    s.push(c);
}

/// The character of a digit below sixteen, in lower case.
pub open spec fn hex_digit(d: int) -> char {
    if d < 10 {
        (48 + d) as char
    } else {
        (87 + d) as char
    }
}

/// Each byte as two lower-case hexadecimal digits, high nibble first.
pub open spec fn hex_lower(bytes: Seq<u8>) -> Seq<char>
    decreases bytes.len(),
{
    if bytes.len() == 0 {
        seq![]
    } else {
        hex_lower(bytes.drop_last()) + seq![
            hex_digit(bytes.last() as int / 16),
            hex_digit(bytes.last() as int % 16),
        ]
    }
}

/// The character of a decimal digit.
pub open spec fn decimal_digit(d: int) -> char {
    (48 + d) as char
}

/// The decimal notation of `n`, without leading zeros.
pub open spec fn decimal(n: nat) -> Seq<char>
    decreases n,
{
    if n < 10 {
        seq![decimal_digit(n as int)]
    } else {
        decimal(n / 10) + seq![decimal_digit((n % 10) as int)]
    }
}

/// `rel` appended to the path `base` as `PathBuf::join` does on Unix: an
/// absolute `rel` replaces `base`, and a separator is put between them unless
/// `base` is empty or already ends with one.
pub open spec fn path_join(base: Seq<char>, rel: Seq<char>) -> Seq<char> {
    if rel.len() > 0 && rel[0] == '/' {
        rel
    } else if base.len() == 0 || base.last() == '/' {
        base + rel
    } else {
        base + seq!['/'] + rel
    }
}

/// Whether `s` begins with `prefix`.
pub open spec fn has_prefix(s: Seq<char>, prefix: Seq<char>) -> bool {
    prefix.len() <= s.len() && s.subrange(0, prefix.len() as int) == prefix
}

fn hex_char(d: u8) -> (c: char)
    requires
        d < 16,
    ensures
        c == hex_digit(d as int),
{
    if d < 10 {
        (d + 48) as char
    } else {
        (d + 87) as char
    }
}

/// Lower-case hexadecimal notation of `bytes`.
pub fn lower_hex(bytes: &[u8]) -> (s: String)
    ensures
        s@ == hex_lower(bytes@),
        s@.len() == 2 * bytes@.len(),
{
    let mut s = String::new();
    let mut i: usize = 0;
    while i < bytes.len()
        invariant
            i <= bytes@.len(),
            s@ == hex_lower(bytes@.subrange(0, i as int)),
            s@.len() == 2 * i,
        decreases bytes@.len() - i,
    {
        let b = bytes[i];
        proof {
            let next = bytes@.subrange(0, i + 1);
            assert(next.drop_last() =~= bytes@.subrange(0, i as int));
            assert(next.last() == b);
        }
        push_char(&mut s, hex_char(b / 16));
        push_char(&mut s, hex_char(b % 16));
        i = i + 1;
    }
    proof {
        assert(bytes@.subrange(0, bytes@.len() as int) =~= bytes@);
    }
    s
}

fn push_decimal(s: &mut String, n: u64)
    ensures
        final(s)@ == old(s)@ + decimal(n as nat),
    decreases n,
{
    if n >= 10 {
        push_decimal(s, n / 10);
    }
    let d: u64 = n % 10;
    let c: char = ((d as u8) + 48) as char;
    push_char(s, c);
    proof {
        if n >= 10 {
            assert(decimal(n as nat) == decimal((n / 10) as nat) + seq![decimal_digit((n % 10) as int)]);
        }
    }
    assert(final(s)@ =~= old(s)@ + decimal(n as nat));
}

/// The decimal notation of `n`, as `n.to_string()` writes it.
pub fn decimal_string(n: u64) -> (s: String)
    ensures
        s@ == decimal(n as nat),
{
    let mut s = String::new();
    push_decimal(&mut s, n);
    assert(s@ =~= decimal(n as nat));
    s
}

/// `base` joined with the relative or absolute path `rel`.
pub fn join_path(base: &str, rel: &str) -> (r: String)
    ensures
        r@ == path_join(base@, rel@),
{
    let rel_len = rel.unicode_len();
    let base_len = base.unicode_len();
    if rel_len > 0 && rel.get_char(0) == '/' {
        rel.to_owned()
    } else if base_len == 0 || base.get_char(base_len - 1) == '/' {
        let r = base.to_owned().concat(rel);
        r
    } else {
        let mut r = base.to_owned();
        push_char(&mut r, '/');
        let r = r.concat(rel);
        assert(r@ =~= base@ + seq!['/'] + rel@);
        r
    }
}

/// Whether `s` begins with `prefix`.
pub fn starts_with(s: &str, prefix: &str) -> (b: bool)
    ensures
        b == has_prefix(s@, prefix@),
{
    let n = prefix.unicode_len();
    let m = s.unicode_len();
    if n > m {
        return false;
    }
    let mut i: usize = 0;
    while i < n
        invariant
            n == prefix@.len(),
            m == s@.len(),
            n <= m,
            i <= n,
            forall|j: int| 0 <= j < i ==> s@[j] == prefix@[j],
        decreases n - i,
    {
        if s.get_char(i) != prefix.get_char(i) {
            assert(s@.subrange(0, n as int)[i as int] != prefix@[i as int]);
            return false;
        }
        i = i + 1;
    }
    assert(s@.subrange(0, n as int) =~= prefix@);
    true
}


/// Index of the last '/' among the first `end` characters of `p`, or -1.
pub open spec fn last_slash_before(p: Seq<char>, end: int) -> int
    decreases end,
{
    if end <= 0 {
        -1
    } else if p[end - 1] == '/' {
        end - 1
    } else {
        last_slash_before(p, end - 1)
    }
}

pub proof fn lemma_last_slash_before(p: Seq<char>, end: int)
    requires
        0 <= end <= p.len(),
    ensures
        -1 <= last_slash_before(p, end) < end,
        last_slash_before(p, end) >= 0 ==> p[last_slash_before(p, end)] == '/',
        forall|j: int| last_slash_before(p, end) < j < end ==> p[j] != '/',
    decreases end,
{
    if end > 0 && p[end - 1] != '/' {
        lemma_last_slash_before(p, end - 1);
    }
}

/// The final component of the first `end` characters of the path `p`, as
/// `Path::file_name` finds it on Unix: empty and `.` components are passed
/// over, and there is none when the last remaining component is `..` or
/// no component remains.
pub open spec fn file_name_upto(p: Seq<char>, end: int) -> Option<Seq<char>>
    decreases end,
{
    if end <= 0 || end > p.len() {
        None
    } else {
        let k = last_slash_before(p, end);
        let seg = p.subrange(k + 1, end);
        if seg.len() == 0 || seg == seq!['.'] {
            if k < 0 {
                None
            } else {
                proof {
                    lemma_last_slash_before(p, end);
                }
                file_name_upto(p, k)
            }
        } else if seg == seq!['.', '.'] {
            None
        } else {
            Some(seg)
        }
    }
}

/// The final component of the path `p` (see [`file_name_upto`]).
pub open spec fn file_name_of(p: Seq<char>) -> Option<Seq<char>> {
    file_name_upto(p, p.len() as int)
}

/// The final component of `path`, as `Path::file_name` gives it.
pub fn file_name(path: &str) -> (r: Option<String>)
    ensures
        match r {
            Some(n) => file_name_of(path@) == Some(n@),
            None => file_name_of(path@) is None,
        },
{
    let len = path.unicode_len();
    let mut end: usize = len;
    while end > 0
        invariant
            len == path@.len(),
            end <= len,
            file_name_of(path@) == file_name_upto(path@, end as int),
        decreases end,
    {
        let mut k: usize = end;
        while k > 0 && path.get_char(k - 1) != '/'
            invariant
                len == path@.len(),
                k <= end <= len,
                last_slash_before(path@, end as int) == last_slash_before(path@, k as int),
            decreases k,
        {
            k = k - 1;
        }
        proof {
            lemma_last_slash_before(path@, end as int);
        }
        // The component runs from just past the slash (or the start) to `end`.
        let start: usize = if k > 0 { k } else { 0 };
        let seg_len: usize = end - start;
        let ghost slash: int = if k > 0 { k - 1 } else { -1 };
        assert(last_slash_before(path@, end as int) == slash);
        let ghost seg = path@.subrange(slash + 1, end as int);
        assert(seg.len() == seg_len);
        assert(seg_len >= 1 ==> seg[0] == path@[start as int]);
        assert(seg_len >= 2 ==> seg[1] == path@[start + 1]);
        if seg_len == 0 || (seg_len == 1 && path.get_char(start) == '.') {
            if k == 0 {
                assert(seg.len() == 0 || seg =~= seq!['.']);
                return None;
            }
            assert(seg.len() == 0 || seg =~= seq!['.']);
            end = k - 1;
        } else if seg_len == 2 && path.get_char(start) == '.' && path.get_char(start + 1) == '.' {
            assert(seg =~= seq!['.', '.']);
            return None;
        } else {
            assert(seg != seq!['.']) by {
                if seg == seq!['.'] {
                    assert(seq!['.'][0] == '.');
                }
            }
            assert(seg != seq!['.', '.']) by {
                if seg == seq!['.', '.'] {
                    assert(seq!['.', '.'][0] == '.');
                    assert(seq!['.', '.'][1] == '.');
                }
            }
            let name = path.substring_char(start, end);
            return Some(name.to_owned());
        }
    }
    None
}


/// Whether `c` is a lower-case hexadecimal digit.
pub open spec fn is_hex_lower_char(c: char) -> bool {
    ('0' <= c && c <= '9') || ('a' <= c && c <= 'f')
}

/// Lower-case hexadecimal notation has two digits per byte, each in
/// `0-9a-f`.
pub proof fn law_hex_lower_digits(bytes: Seq<u8>)
    ensures
        hex_lower(bytes).len() == 2 * bytes.len(),
        forall|i: int| 0 <= i < hex_lower(bytes).len() ==> is_hex_lower_char(#[trigger] hex_lower(bytes)[i]),
    decreases bytes.len(),
{
    if bytes.len() > 0 {
        law_hex_lower_digits(bytes.drop_last());
        let hi = bytes.last() as int / 16;
        let lo = bytes.last() as int % 16;
        assert(is_hex_lower_char(hex_digit(hi)));
        assert(is_hex_lower_char(hex_digit(lo)));
        let prev = hex_lower(bytes.drop_last());
        assert forall|i: int| 0 <= i < hex_lower(bytes).len() implies is_hex_lower_char(
            #[trigger] hex_lower(bytes)[i],
        ) by {
            if i < prev.len() {
                assert(hex_lower(bytes)[i] == prev[i]);
            }
        }
    }
}

/// The number that a string of decimal digits denotes.
pub open spec fn digits_value(s: Seq<char>) -> int
    decreases s.len(),
{
    if s.len() == 0 {
        0
    } else {
        digits_value(s.drop_last()) * 10 + (s.last() as int - 48)
    }
}

/// Decimal notation is faithful: it is made of digits, has no leading zero,
/// and reads back as the number it was written from.
pub proof fn law_decimal_reads_back(n: nat)
    ensures
        decimal(n).len() > 0,
        forall|i: int| 0 <= i < decimal(n).len() ==> '0' <= #[trigger] decimal(n)[i] <= '9',
        decimal(n).len() > 1 ==> decimal(n)[0] != '0',
        digits_value(decimal(n)) == n,
    decreases n,
{
    lemma_decimal(n);
}

proof fn lemma_decimal(n: nat)
    ensures
        decimal(n).len() > 0,
        forall|i: int| 0 <= i < decimal(n).len() ==> '0' <= #[trigger] decimal(n)[i] <= '9',
        decimal(n).len() > 1 ==> n >= 10,
        n > 0 ==> decimal(n)[0] != '0',
        digits_value(decimal(n)) == n,
    decreases n,
{
    if n >= 10 {
        lemma_decimal(n / 10);
        let prev = decimal(n / 10);
        let d = (n % 10) as int;
        let s = decimal(n);
        assert(s == prev + seq![decimal_digit(d)]);
        assert(s.drop_last() =~= prev);
        assert(s.last() == decimal_digit(d));
        assert(decimal_digit(d) as int == 48 + d);
        assert(digits_value(s) == digits_value(prev) * 10 + d);
        assert forall|i: int| 0 <= i < s.len() implies '0' <= #[trigger] s[i] <= '9' by {
            if i < prev.len() {
                assert(s[i] == prev[i]);
            }
        }
        assert(s[0] == prev[0]);
    } else {
        let s = decimal(n);
        assert(s == seq![decimal_digit(n as int)]);
        assert(decimal_digit(n as int) as int == 48 + n);
        assert(s.drop_last() =~= Seq::<char>::empty());
        assert(digits_value(Seq::<char>::empty()) == 0);
        assert(digits_value(s) == digits_value(s.drop_last()) * 10 + (s.last() as int - 48));
    }
}

/// A file name is a single path component: not empty, without a `/`, and
/// neither `.` nor `..`.
pub proof fn law_file_name_is_component(p: Seq<char>, end: int)
    requires
        file_name_upto(p, end) is Some,
    ensures
        ({
            let n = file_name_upto(p, end)->0;
            &&& n.len() > 0
            &&& forall|i: int| 0 <= i < n.len() ==> #[trigger] n[i] != '/'
            &&& n != seq!['.']
            &&& n != seq!['.', '.']
        }),
    decreases end,
{
    let k = last_slash_before(p, end);
    lemma_last_slash_before(p, end);
    let seg = p.subrange(k + 1, end);
    if seg.len() == 0 || seg == seq!['.'] {
        law_file_name_is_component(p, k);
    } else {
        assert forall|i: int| 0 <= i < seg.len() implies #[trigger] seg[i] != '/' by {
            assert(seg[i] == p[k + 1 + i]);
        }
    }
}

} // verus!
