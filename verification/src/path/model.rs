//! The mathematical model of POSIX-style paths that the path functions are
//! specified against.
//!
//! A path is a sequence of characters. It starts with an optional root (`/`)
//! or an optional leading current-directory mark (`.`), followed by a body of
//! segments separated by `/`. Empty segments and `.` segments of the body carry
//! no meaning; the others are the path's components.

use vstd::prelude::*;

verus! {

/// The path starts at the root directory.
pub open spec fn has_root(p: Seq<char>) -> bool {
    p.len() > 0 && p[0] == '/'
}

/// The path starts with a `.` component of its own.
pub open spec fn has_cur_dir(p: Seq<char>) -> bool {
    p.len() > 0 && p[0] == '.' && (p.len() == 1 || p[1] == '/')
}

/// Where the body of the path begins: after the root or the leading `.`.
pub open spec fn body_start(p: Seq<char>) -> int {
    if has_root(p) || has_cur_dir(p) {
        1
    } else {
        0
    }
}

/// Where the segment that ends at `e` begins, looking no further back than
/// `lo`: the position after the last `/` of `p[lo..e]`, or `lo`.
pub open spec fn segment_start(p: Seq<char>, lo: int, e: int) -> int
    decreases e - lo,
{
    if e <= lo || e > p.len() || p[e - 1] == '/' {
        e
    } else {
        segment_start(p, lo, e - 1)
    }
}

/// The end of `p[lo..e]` once trailing separators and trailing `.` segments are
/// left out.
pub open spec fn trimmed_end(p: Seq<char>, lo: int, e: int) -> int
    decreases e - lo,
{
    if e <= lo || e > p.len() {
        lo
    } else if p[e - 1] == '/' {
        trimmed_end(p, lo, e - 1)
    } else if p[e - 1] == '.' && e - 1 == lo {
        lo
    } else if p[e - 1] == '.' && p[e - 2] == '/' {
        trimmed_end(p, lo, e - 2)
    } else {
        e
    }
}

/// Where the segment before the one that starts at `s` ends: the separator in
/// front of `s` is stepped over, unless `s` is where the body begins.
pub open spec fn before_segment(lo: int, s: int) -> int {
    if s > lo {
        s - 1
    } else {
        lo
    }
}

/// The components of `p[lo..e]`, first to last.
pub open spec fn components_upto(p: Seq<char>, lo: int, e: int) -> Seq<Seq<char>>
    decreases e - lo,
{
    let t = trimmed_end(p, lo, e);
    let s = segment_start(p, lo, t);
    if lo < t <= e && lo <= s < t {
        components_upto(p, lo, before_segment(lo, s)).push(p.subrange(s, t))
    } else {
        Seq::empty()
    }
}

/// What a path denotes: how it starts, and its components in order.
pub struct Components {
    pub root: bool,
    pub cur_dir: bool,
    pub names: Seq<Seq<char>>,
}

/// The components of a whole path.
pub open spec fn components(p: Seq<char>) -> Components {
    Components {
        root: has_root(p),
        cur_dir: has_cur_dir(p),
        names: components_upto(p, body_start(p), p.len() as int),
    }
}

/// Two paths are equivalent when they denote the same components.
pub open spec fn equivalent(a: Seq<char>, b: Seq<char>) -> bool {
    components(a) == components(b)
}

/// The end of the last component of `p`; equal to `body_start(p)` when the body
/// has no component.
pub open spec fn name_end(p: Seq<char>) -> int {
    trimmed_end(p, body_start(p), p.len() as int)
}

/// The start of the last component of `p`.
pub open spec fn name_start(p: Seq<char>) -> int {
    segment_start(p, body_start(p), name_end(p))
}

/// The last component of `p`, empty when the body has none.
pub open spec fn last_component(p: Seq<char>) -> Seq<char> {
    p.subrange(name_start(p), name_end(p))
}

/// The text `..`.
pub open spec fn dot_dot() -> Seq<char> {
    seq!['.', '.']
}

/// The path ends in `..`, or consists of a `.` component alone: it names a
/// directory by reference, not by a name of its own.
pub open spec fn ends_in_dots(p: Seq<char>) -> bool {
    if name_end(p) == body_start(p) {
        has_cur_dir(p)
    } else {
        last_component(p) == dot_dot()
    }
}

/// The final component of the path, unless there is none or it is `..`.
pub open spec fn file_name(p: Seq<char>) -> Option<Seq<char>> {
    if name_end(p) == body_start(p) || last_component(p) == dot_dot() {
        None
    } else {
        Some(last_component(p))
    }
}

/// The path without its final component. A path that consists of a root or of
/// nothing has no parent; a lone `.` has the empty parent.
pub open spec fn parent(p: Seq<char>) -> Option<Seq<char>> {
    let lo = body_start(p);
    if name_end(p) == lo {
        if has_cur_dir(p) {
            Some(Seq::empty())
        } else {
            None
        }
    } else {
        Some(p.take(trimmed_end(p, lo, before_segment(lo, name_start(p)))))
    }
}

/// The position of the last `.` among the first `e` characters of `f`, or -1.
pub open spec fn last_dot(f: Seq<char>, e: int) -> int
    decreases e,
{
    if e <= 0 || e > f.len() {
        -1
    } else if f[e - 1] == '.' {
        e - 1
    } else {
        last_dot(f, e - 1)
    }
}

/// The extension of a path: what follows the last `.` of its file name, when
/// that `.` is not the file name's first character.
pub open spec fn extension(p: Seq<char>) -> Option<Seq<char>> {
    match file_name(p) {
        Some(f) => {
            let d = last_dot(f, f.len() as int);
            if d <= 0 {
                None
            } else {
                Some(f.subrange(d + 1, f.len() as int))
            }
        },
        None => None,
    }
}

/// `dirname`: the parent, or `.` where there is no parent or an empty one.
pub open spec fn dirname_of(p: Seq<char>) -> Seq<char> {
    match parent(p) {
        Some(d) => if d.len() == 0 {
            seq!['.']
        } else {
            d
        },
        None => seq!['.'],
    }
}

/// `basename`: the file name, or nothing.
pub open spec fn basename_of(p: Seq<char>) -> Seq<char> {
    match file_name(p) {
        Some(f) => f,
        None => Seq::empty(),
    }
}

/// `extname`: the extension with its dot, or nothing.
pub open spec fn extname_of(p: Seq<char>) -> Seq<char> {
    match extension(p) {
        Some(x) => seq!['.'] + x,
        None => Seq::empty(),
    }
}

/// `base` extended by `path`: an absolute `path` replaces `base`; otherwise it
/// is appended, after a separator unless `base` is empty or ends in one.
pub open spec fn pushed(base: Seq<char>, path: Seq<char>) -> Seq<char> {
    if has_root(path) {
        path
    } else if base.len() > 0 && base.last() != '/' {
        base + seq!['/'] + path
    } else {
        base + path
    }
}

/// `base` extended by each of `paths` in turn.
pub open spec fn pushed_all(base: Seq<char>, paths: Seq<Seq<char>>) -> Seq<char>
    decreases paths.len(),
{
    if paths.len() == 0 {
        base
    } else {
        pushed(pushed_all(base, paths.drop_last()), paths.last())
    }
}

/// `s` without its leading separators.
pub open spec fn without_leading_separators(s: Seq<char>) -> Seq<char>
    decreases s.len(),
{
    if s.len() > 0 && s[0] == '/' {
        without_leading_separators(s.drop_first())
    } else {
        s
    }
}

/// Each of `paths` without its leading separators.
pub open spec fn all_without_leading_separators(paths: Seq<Seq<char>>) -> Seq<Seq<char>> {
    paths.map_values(|s: Seq<char>| without_leading_separators(s))
}

/// `join`: every segment loses its leading separators, then each is pushed
/// onto what came before, starting from the empty path.
pub open spec fn joined(paths: Seq<Seq<char>>) -> Seq<char> {
    pushed_all(Seq::empty(), all_without_leading_separators(paths))
}

/// `resolve`: each path is pushed onto the working directory in turn.
pub open spec fn resolved(cwd: Seq<char>, paths: Seq<Seq<char>>) -> Seq<char> {
    pushed_all(cwd, paths)
}

/// How a normalized path begins: with the root, with `.`, or with nothing.
pub open spec fn start_text(c: Components) -> Seq<char> {
    if c.root {
        seq!['/']
    } else if c.cur_dir {
        seq!['.']
    } else {
        Seq::empty()
    }
}

/// `normalize`: the path written with its components alone, one separator
/// between neighbours.
pub open spec fn normalized(p: Seq<char>) -> Seq<char> {
    pushed_all(start_text(components(p)), components(p).names)
}

/// How many bytes the UTF-8 encoding of `c` takes.
pub open spec fn utf8_len(c: char) -> int {
    if (c as int) < 0x80 {
        1
    } else if (c as int) < 0x800 {
        2
    } else if (c as int) < 0x10000 {
        3
    } else {
        4
    }
}

/// How many bytes the UTF-8 encoding of `s` takes.
pub open spec fn byte_len(s: Seq<char>) -> int
    decreases s.len(),
{
    if s.len() == 0 {
        0
    } else {
        byte_len(s.drop_last()) + utf8_len(s.last())
    }
}

/// `s` without its last `n` bytes; empty when that cut would fall inside a
/// character or before the start.
pub open spec fn without_last_bytes(s: Seq<char>, n: int) -> Seq<char>
    decreases s.len(),
{
    if n <= 0 {
        s
    } else if s.len() == 0 || utf8_len(s.last()) > n {
        Seq::empty()
    } else {
        without_last_bytes(s.drop_last(), n - utf8_len(s.last()))
    }
}

/// The extension of `f` with its dot in front, or nothing where `f` has no
/// extension or an empty one.
pub open spec fn split_extension(f: Seq<char>) -> Seq<char> {
    match extension(f) {
        Some(x) => if x.len() == 0 {
            Seq::empty()
        } else {
            seq!['.'] + x
        },
        None => Seq::empty(),
    }
}

/// A file name split into stem and extension. The extension is that of the
/// name's final component, with its dot; the stem is the name shortened by as
/// many bytes as the extension has.
pub open spec fn split_name(f: Seq<char>) -> (Seq<char>, Seq<char>) {
    let ext = split_extension(f);
    (without_last_bytes(f, byte_len(ext)), ext)
}

/// The parts of a path as `parse` reports them.
pub struct Parts {
    pub root: Seq<char>,
    pub dir: Seq<char>,
    pub base: Seq<char>,
    pub ext: Seq<char>,
    pub name: Seq<char>,
}

/// `parse`: root, parent directory, file name, and the file name's stem and
/// extension.
pub open spec fn parsed(p: Seq<char>) -> Parts {
    let split = split_name(basename_of(p));
    Parts {
        root: if has_root(p) {
            seq!['/']
        } else {
            Seq::empty()
        },
        dir: match parent(p) {
            Some(d) => d,
            None => Seq::empty(),
        },
        base: split.0 + split.1,
        ext: split.1,
        name: split.0,
    }
}

/// The separator between the components of a path on the platform.
pub open spec fn separator_of(windows: bool) -> Seq<char> {
    if windows {
        seq!['\\']
    } else {
        seq!['/']
    }
}

/// The delimiter between the paths of a search list on the platform.
pub open spec fn delimiter_of(windows: bool) -> Seq<char> {
    if windows {
        seq![';']
    } else {
        seq![':']
    }
}

/// An extension with a leading dot put in front unless it has one or is empty.
pub open spec fn dotted(ext: Seq<char>) -> Seq<char> {
    if ext.len() == 0 || ext[0] == '.' {
        ext
    } else {
        seq!['.'] + ext
    }
}

/// `format`: the directory (or, without one, the root), extended by the base
/// (or, without one, by stem and extension).
pub open spec fn formatted(parts: Parts) -> Seq<char> {
    let head = if parts.dir.len() > 0 {
        parts.dir
    } else {
        parts.root
    };
    let tail = if parts.base.len() > 0 {
        parts.base
    } else {
        parts.name + dotted(parts.ext)
    };
    pushed(head, tail)
}

} // verus!
