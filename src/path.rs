use vstd::prelude::*;

verus! {

/// How a host writes paths: which characters separate components and which one
/// is inserted when a component is appended.
#[derive(Clone, Copy, Debug, PartialEq, Eq, Structural)]
pub enum PathStyle {
    /// `/` separates components.
    Unix,
    /// `\` is inserted between components; `/` is accepted as a separator too.
    Windows,
}

pub open spec fn is_separator(style: PathStyle, c: char) -> bool {
    c == '/' || (style == PathStyle::Windows && c == '\\')
}

pub open spec fn separator_of(style: PathStyle) -> char {
    match style {
        PathStyle::Unix => '/',
        PathStyle::Windows => '\\',
    }
}

/// Appends one component to a path. A component that starts with a separator
/// replaces the base; otherwise a separator is inserted unless the base is empty
/// or already ends with one.
pub open spec fn join(style: PathStyle, base: Seq<char>, seg: Seq<char>) -> Seq<char> {
    if seg.len() > 0 && is_separator(style, seg[0]) {
        seg
    } else if base.len() == 0 || is_separator(style, base.last()) {
        base + seg
    } else {
        base + seq![separator_of(style)] + seg
    }
}

pub open spec fn is_drive_letter(c: char) -> bool {
    ('a' <= c && c <= 'z') || ('A' <= c && c <= 'Z')
}

/// Index of the first separator of `p` at or after `from`, or the length of `p`.
pub open spec fn next_separator(style: PathStyle, p: Seq<char>, from: int) -> int
    decreases p.len() - from,
{
    if from < 0 || from >= p.len() {
        p.len() as int
    } else if is_separator(style, p[from]) {
        from
    } else {
        next_separator(style, p, from + 1)
    }
}

/// Length of the prefix that starts a Windows path: a drive (`C:`) or a share
/// (`\\server\share`). Unix paths have none.
pub open spec fn prefix_len(style: PathStyle, p: Seq<char>) -> int {
    if style == PathStyle::Unix {
        0
    } else if p.len() >= 2 && is_separator(style, p[0]) && is_separator(style, p[1]) {
        let j = next_separator(style, p, 2);
        if j >= p.len() {
            p.len() as int
        } else {
            next_separator(style, p, j + 1)
        }
    } else if p.len() >= 2 && p[1] == ':' && is_drive_letter(p[0]) {
        2
    } else {
        0
    }
}

/// Where the first `n` characters of `p` end once trailing separators and
/// trailing `.` components are dropped, going no lower than `lo`.
pub open spec fn strip_end(style: PathStyle, p: Seq<char>, lo: int, n: int) -> int
    decreases n - lo,
{
    if n <= lo {
        n
    } else if is_separator(style, p[n - 1]) {
        strip_end(style, p, lo, n - 1)
    } else if p[n - 1] == '.' && n - 2 >= lo && is_separator(style, p[n - 2]) {
        strip_end(style, p, lo, n - 1)
    } else {
        n
    }
}

/// Index of the last separator of `p` in `lo..n`, if any.
pub open spec fn last_separator_in(style: PathStyle, p: Seq<char>, lo: int, n: int) -> Option<int>
    decreases n - lo,
{
    if n <= lo {
        None
    } else if is_separator(style, p[n - 1]) {
        Some(n - 1)
    } else {
        last_separator_in(style, p, lo, n - 1)
    }
}

/// The directory that holds the last component of `p`. A path is a prefix, an
/// optional root separator and components; separators repeat freely, and a `.`
/// component that is not the first is no component. There is no parent when no
/// component follows the prefix and root. Otherwise the parent is the path
/// without its last component: the prefix and root alone where nothing else is left.
pub open spec fn parent(style: PathStyle, p: Seq<char>) -> Option<Seq<char>> {
    let k = prefix_len(style, p);
    let base = if k < p.len() && is_separator(style, p[k]) {
        k + 1
    } else {
        k
    };
    let e = strip_end(style, p, k, p.len() as int);
    if e <= base {
        None
    } else {
        match last_separator_in(style, p, k, e) {
            None => Some(p.take(k)),
            Some(i) => {
                let h = strip_end(style, p, k, i);
                if h <= base {
                    Some(p.take(base))
                } else {
                    Some(p.take(h))
                }
            },
        }
    }
}

fn char_is_separator(style: PathStyle, c: char) -> (r: bool)
    ensures
        r == is_separator(style, c),
{
    c == '/' || (matches!(style, PathStyle::Windows) && c == '\\')
}

fn next_separator_exec(style: PathStyle, p: &str, len: usize, from: usize) -> (r: usize)
    requires
        len == p@.len(),
        from <= len,
    ensures
        r == next_separator(style, p@, from as int),
        from <= r <= len,
{
    let mut k: usize = from;
    while k < len && !char_is_separator(style, p.get_char(k))
        invariant
            from <= k <= len,
            len == p@.len(),
            next_separator(style, p@, from as int) == next_separator(style, p@, k as int),
        decreases len - k,
    {
        k = k + 1;
    }
    k
}

fn prefix_len_exec(style: PathStyle, p: &str, len: usize) -> (r: usize)
    requires
        len == p@.len(),
    ensures
        r == prefix_len(style, p@),
        r <= len,
{
    if matches!(style, PathStyle::Unix) || len < 2 {
        return 0;
    }
    let c0 = p.get_char(0);
    let c1 = p.get_char(1);
    if char_is_separator(style, c0) && char_is_separator(style, c1) {
        let j = next_separator_exec(style, p, len, 2);
        if j >= len {
            len
        } else {
            next_separator_exec(style, p, len, j + 1)
        }
    } else if c1 == ':' && (('a' <= c0 && c0 <= 'z') || ('A' <= c0 && c0 <= 'Z')) {
        2
    } else {
        0
    }
}

fn strip_end_exec(style: PathStyle, p: &str, lo: usize, n: usize) -> (r: usize)
    requires
        lo <= n <= p@.len(),
    ensures
        r == strip_end(style, p@, lo as int, n as int),
        lo <= r <= n,
{
    let mut k: usize = n;
    while k > lo
        invariant
            lo <= k <= n <= p@.len(),
            strip_end(style, p@, lo as int, n as int) == strip_end(style, p@, lo as int, k as int),
        decreases k,
    {
        let c = p.get_char(k - 1);
        if char_is_separator(style, c) {
            k = k - 1;
        } else if c == '.' && k - lo >= 2 && char_is_separator(style, p.get_char(k - 2)) {
            k = k - 1;
        } else {
            return k;
        }
    }
    k
}

fn last_separator_exec(style: PathStyle, p: &str, lo: usize, n: usize) -> (r: Option<usize>)
    requires
        lo <= n <= p@.len(),
    ensures
        r matches Some(i) ==> last_separator_in(style, p@, lo as int, n as int) == Some(i as int)
            && lo <= i < n,
        r is None ==> last_separator_in(style, p@, lo as int, n as int) is None,
{
    let mut k: usize = n;
    while k > lo
        invariant
            lo <= k <= n <= p@.len(),
            last_separator_in(style, p@, lo as int, n as int) == last_separator_in(
                style,
                p@,
                lo as int,
                k as int,
            ),
        decreases k,
    {
        if char_is_separator(style, p.get_char(k - 1)) {
            return Some(k - 1);
        }
        k = k - 1;
    }
    None
}

fn leading(p: &str, n: usize) -> (r: String)
    requires
        n <= p@.len(),
    ensures
        r@ == p@.take(n as int),
{
    let r = String::from_str(p.substring_char(0, n));
    assert(r@ =~= p@.take(n as int));
    r
}

/// `base` with `seg` appended as one more component.
pub fn join_path(style: PathStyle, base: &str, seg: &str) -> (r: String)
    ensures
        r@ == join(style, base@, seg@),
{
    let seg_len = seg.unicode_len();
    if seg_len > 0 && char_is_separator(style, seg.get_char(0)) {
        return String::from_str(seg);
    }
    let base_len = base.unicode_len();
    if base_len == 0 || char_is_separator(style, base.get_char(base_len - 1)) {
        String::from_str(base).concat(seg)
    } else {
        let sep = match style {
            PathStyle::Unix => "/",
            PathStyle::Windows => "\\",
        };
        proof {
            reveal_strlit("/");
            reveal_strlit("\\");
            assert(sep@ =~= seq![separator_of(style)]);
        }
        String::from_str(base).concat(sep).concat(seg)
    }
}

/// The directory that holds the last component of `p`, as `parent` describes it.
pub fn parent_path(style: PathStyle, p: &str) -> (r: Option<String>)
    ensures
        r matches Some(s) ==> parent(style, p@) == Some(s@),
        r is None ==> parent(style, p@) is None,
{
    let len = p.unicode_len();
    let k = prefix_len_exec(style, p, len);
    let base = if k < len && char_is_separator(style, p.get_char(k)) {
        k + 1
    } else {
        k
    };
    let e = strip_end_exec(style, p, k, len);
    if e <= base {
        return None;
    }
    match last_separator_exec(style, p, k, e) {
        None => Some(leading(p, k)),
        Some(i) => {
            let h = strip_end_exec(style, p, k, i);
            if h <= base {
                Some(leading(p, base))
            } else {
                Some(leading(p, h))
            }
        },
    }
}

} // verus!
