//! POSIX-style path utilities: taking a path apart, putting one together, and
//! the `path` builtin module's other functions.
//!
//! A path is handled as text; nothing here touches the file system. The
//! functions are specified against the model in [`model`].

use vstd::prelude::*;
use crate::exports::{
    bind, declared_names, default_name, entries, export_default, names_of, HostBinding,
    Namespace,
};
use crate::path::facts::{lemma_segment_start, lemma_trimmed_end};
use crate::path::model::{
    all_without_leading_separators, basename_of, body_start, byte_len,
    components, components_upto, delimiter_of, dirname_of, dot_dot, dotted, extension,
    extname_of, file_name, formatted, has_root, joined, last_dot, normalized, parent, parsed,
    pushed, pushed_all, resolved, segment_start, separator_of, split_extension, split_name,
    start_text, trimmed_end, utf8_len, without_last_bytes, without_leading_separators,
    Parts,
};
use crate::text::{chars_of, string_of, string_of_range, texts};

pub mod facts;
pub mod laws;
pub mod model;

verus! {

/// Where the body of `p` begins.
fn find_body_start(p: &Vec<char>) -> (lo: usize)
    ensures
        lo == body_start(p@),
        lo <= p.len(),
{
    if p.len() > 0 && (p[0] == '/' || (p[0] == '.' && (p.len() == 1 || p[1] == '/'))) {
        1
    } else {
        0
    }
}

/// Steps back from `e` over trailing separators and `.` segments.
fn find_trimmed_end(p: &Vec<char>, lo: usize, e: usize) -> (t: usize)
    requires
        lo <= e <= p.len(),
    ensures
        t == trimmed_end(p@, lo as int, e as int),
        lo <= t <= e,
{
    let mut t: usize = e;
    while t > lo
        invariant
            lo <= t <= e <= p.len(),
            trimmed_end(p@, lo as int, e as int) == trimmed_end(p@, lo as int, t as int),
        decreases t,
    {
        if p[t - 1] == '/' {
            t -= 1;
        } else if p[t - 1] == '.' && t - 1 == lo {
            t = lo;
        } else if p[t - 1] == '.' && p[t - 2] == '/' {
            t -= 2;
        } else {
            return t;
        }
    }
    t
}

/// Steps back from `e` to the start of the segment that ends there.
fn find_segment_start(p: &Vec<char>, lo: usize, e: usize) -> (s: usize)
    requires
        lo <= e <= p.len(),
    ensures
        s == segment_start(p@, lo as int, e as int),
        lo <= s <= e,
{
    let mut s: usize = e;
    while s > lo && p[s - 1] != '/'
        invariant
            lo <= s <= e <= p.len(),
            segment_start(p@, lo as int, e as int) == segment_start(p@, lo as int, s as int),
        decreases s,
    {
        s -= 1;
    }
    s
}

/// The position of the last `.` in `p[from..to]`, if there is one.
fn find_last_dot(p: &Vec<char>, from: usize, to: usize) -> (found: Option<usize>)
    requires
        from <= to <= p.len(),
    ensures
        match found {
            Some(d) => from <= d < to && p@[d as int] == '.' && d - from == last_dot(
                p@.subrange(from as int, to as int),
                to - from,
            ),
            None => last_dot(p@.subrange(from as int, to as int), to - from) == -1,
        },
{
    let ghost f = p@.subrange(from as int, to as int);
    let mut e: usize = to;
    while e > from
        invariant
            from <= e <= to <= p.len(),
            f == p@.subrange(from as int, to as int),
            last_dot(f, to - from) == last_dot(f, e - from),
        decreases e,
    {
        assert(f[e - from - 1] == p@[e - 1]);
        if p[e - 1] == '.' {
            return Some(e - 1);
        }
        e -= 1;
    }
    None
}

/// The span of the file name of `p`, if it has one.
fn file_name_span(p: &Vec<char>) -> (span: Option<(usize, usize)>)
    ensures
        match span {
            Some((s, e)) => s < e <= p.len() && file_name(p@) == Some(
                p@.subrange(s as int, e as int),
            ),
            None => file_name(p@) is None,
        },
{
    let lo = find_body_start(p);
    let e = find_trimmed_end(p, lo, p.len());
    if e == lo {
        return None;
    }
    let s = find_segment_start(p, lo, e);
    proof {
        lemma_trimmed_end(p@, lo as int, p.len() as int);
        let seg = p@.subrange(s as int, e as int);
        if e - s == 2 && p@[s as int] == '.' && p@[s + 1] == '.' {
            assert(seg =~= dot_dot());
        } else if seg == dot_dot() {
            assert(seg.len() == 2);
            assert(seg[0] == '.' && seg[1] == '.');
        }
    }
    if e - s == 2 && p[s] == '.' && p[s + 1] == '.' {
        None
    } else {
        Some((s, e))
    }
}

/// Where the parent of `p` ends, if it has one.
fn parent_end(p: &Vec<char>) -> (end: Option<usize>)
    ensures
        match end {
            Some(d) => d <= p.len() && parent(p@) == Some(p@.take(d as int)),
            None => parent(p@) is None,
        },
{
    let lo = find_body_start(p);
    let e = find_trimmed_end(p, lo, p.len());
    if e == lo {
        if lo == 1 && p[0] == '.' {
            assert(p@.take(0) =~= Seq::<char>::empty());
            return Some(0);
        }
        return None;
    }
    let s = find_segment_start(p, lo, e);
    let b = if s > lo {
        s - 1
    } else {
        lo
    };
    Some(find_trimmed_end(p, lo, b))
}

/// Where the extension of `p` begins (after its dot) and ends, if it has one.
fn extension_span(p: &Vec<char>) -> (span: Option<(usize, usize)>)
    ensures
        match span {
            Some((s, e)) => 0 < s <= e <= p.len() && p@[s - 1] == '.' && extension(p@) == Some(
                p@.subrange(s as int, e as int),
            ),
            None => extension(p@) is None,
        },
{
    match file_name_span(p) {
        Some((s, e)) => {
            let ghost f = p@.subrange(s as int, e as int);
            assert(f.len() == e - s);
            match find_last_dot(p, s, e) {
                Some(d) => {
                    if d == s {
                        None
                    } else {
                        assert(f.subrange(d - s + 1, f.len() as int) =~= p@.subrange(
                            d + 1,
                            e as int,
                        ));
                        Some((d + 1, e))
                    }
                },
                None => None,
            }
        },
        None => None,
    }
}

/// Whether the path is absolute: whether it starts at the root.
pub fn is_absolute(path: &str) -> (absolute: bool)
    ensures
        absolute == has_root(path@),
{
    let p = chars_of(path);
    p.len() > 0 && p[0] == '/'
}

/// The final component of the path; empty where it has none or ends in `..`.
pub fn basename(path: &str) -> (out: String)
    ensures
        out@ == basename_of(path@),
{
    let p = chars_of(path);
    match file_name_span(&p) {
        Some((s, e)) => string_of_range(&p, s, e),
        None => String::new(),
    }
}

/// The path without its final component; `.` where nothing is left or the
/// path has no parent.
pub fn dirname(path: &str) -> (out: String)
    ensures
        out@ == dirname_of(path@),
{
    let p = chars_of(path);
    match parent_end(&p) {
        Some(d) => {
            if d == 0 {
                let mut out = String::new();
                out.push('.');
                assert(out@ =~= seq!['.']);
                out
            } else {
                let out = string_of_range(&p, 0, d);
                assert(p@.subrange(0, d as int) =~= p@.take(d as int));
                out
            }
        },
        None => {
            let mut out = String::new();
            out.push('.');
            assert(out@ =~= seq!['.']);
            out
        },
    }
}

/// The extension of the path's file name with its dot; empty where the file
/// name has none.
pub fn extname(path: &str) -> (out: String)
    ensures
        out@ == extname_of(path@),
{
    let p = chars_of(path);
    match extension_span(&p) {
        Some((s, e)) => {
            let out = string_of_range(&p, s - 1, e);
            assert(p@.subrange(s - 1, e as int) =~= seq!['.'] + p@.subrange(s as int, e as int));
            out
        },
        None => String::new(),
    }
}

/// Extends `base` by `path[from..to]`, as pushing a path onto a path buffer
/// does.
fn push_onto(base: &mut Vec<char>, path: &Vec<char>, from: usize, to: usize)
    requires
        from <= to <= path.len(),
    ensures
        final(base)@ == pushed(old(base)@, path@.subrange(from as int, to as int)),
{
    let ghost piece = path@.subrange(from as int, to as int);
    if from < to && path[from] == '/' {
        assert(piece[0] == path@[from as int]);
        base.clear();
    } else if base.len() > 0 && base[base.len() - 1] != '/' {
        base.push('/');
    }
    let ghost start = base@;
    let mut i: usize = from;
    while i < to
        invariant
            from <= i <= to <= path.len(),
            base@ == start + path@.subrange(from as int, i as int),
        decreases to - i,
    {
        base.push(path[i]);
        i += 1;
    }
}

/// How many leading separators `p` has.
fn leading_separators(p: &Vec<char>) -> (k: usize)
    ensures
        k <= p.len(),
        without_leading_separators(p@) == p@.subrange(k as int, p.len() as int),
{
    let mut k: usize = 0;
    assert(p@.subrange(0, p.len() as int) == p@);
    while k < p.len() && p[k] == '/'
        invariant
            k <= p.len(),
            without_leading_separators(p@) == without_leading_separators(
                p@.subrange(k as int, p.len() as int),
            ),
        decreases p.len() - k,
    {
        assert(p@.subrange(k as int, p.len() as int).drop_first() == p@.subrange(
            k + 1,
            p.len() as int,
        ));
        k += 1;
    }
    k
}

/// Joins path segments: each loses its leading separators and is appended to
/// what came before, with one separator in between where none is there.
pub fn join(paths: &Vec<String>) -> (out: String)
    ensures
        out@ == joined(texts(paths@)),
{
    let ghost stripped = all_without_leading_separators(texts(paths@));
    let mut acc: Vec<char> = Vec::new();
    let mut i: usize = 0;
    while i < paths.len()
        invariant
            i <= paths.len(),
            stripped == all_without_leading_separators(texts(paths@)),
            acc@ == pushed_all(Seq::empty(), stripped.take(i as int)),
        decreases paths.len() - i,
    {
        let segment = chars_of(paths[i].as_str());
        let k = leading_separators(&segment);
        push_onto(&mut acc, &segment, k, segment.len());
        proof {
            assert(stripped.take(i + 1).drop_last() == stripped.take(i as int));
            assert(stripped.take(i + 1).last() == without_leading_separators(paths@[i as int]@));
        }
        i += 1;
    }
    assert(stripped.take(paths.len() as int) == stripped);
    string_of(&acc)
}

/// Resolves paths against a working directory: each path is pushed onto what
/// came before, an absolute one replacing it.
pub fn resolve(cwd: &str, paths: &Vec<String>) -> (out: String)
    ensures
        out@ == resolved(cwd@, texts(paths@)),
{
    let ghost all = texts(paths@);
    let mut acc: Vec<char> = chars_of(cwd);
    let mut i: usize = 0;
    while i < paths.len()
        invariant
            i <= paths.len(),
            all == texts(paths@),
            acc@ == pushed_all(cwd@, all.take(i as int)),
        decreases paths.len() - i,
    {
        let segment = chars_of(paths[i].as_str());
        push_onto(&mut acc, &segment, 0, segment.len());
        proof {
            assert(segment@.subrange(0, segment.len() as int) == segment@);
            assert(all.take(i + 1).drop_last() == all.take(i as int));
            assert(all.take(i + 1).last() == paths@[i as int]@);
        }
        i += 1;
    }
    assert(all.take(paths.len() as int) == all);
    string_of(&acc)
}

/// The texts that a list of spans cuts out of `p`.
spec fn span_texts(p: Seq<char>, spans: Seq<(usize, usize)>) -> Seq<Seq<char>> {
    spans.map_values(|span: (usize, usize)| p.subrange(span.0 as int, span.1 as int))
}

/// The spans of the components of `p`, last component first.
fn component_spans(p: &Vec<char>, lo: usize) -> (spans: Vec<(usize, usize)>)
    requires
        lo <= p.len(),
    ensures
        span_texts(p@, spans@).reverse() == components_upto(p@, lo as int, p.len() as int),
        forall|i: int|
            0 <= i < spans.len() ==> (#[trigger] spans[i]).0 < spans[i].1 <= p.len()
                && p@[spans[i].0 as int] != '/',
{
    let mut spans: Vec<(usize, usize)> = Vec::new();
    let mut e: usize = p.len();
    assert(span_texts(p@, spans@).reverse() =~= Seq::<Seq<char>>::empty());
    loop
        invariant
            lo <= e <= p.len(),
            components_upto(p@, lo as int, p.len() as int) == components_upto(
                p@,
                lo as int,
                e as int,
            ) + span_texts(p@, spans@).reverse(),
            forall|i: int|
                0 <= i < spans.len() ==> (#[trigger] spans[i]).0 < spans[i].1 <= p.len()
                    && p@[spans[i].0 as int] != '/',
        ensures
            span_texts(p@, spans@).reverse() == components_upto(p@, lo as int, p.len() as int),
        decreases e,
    {
        let t = find_trimmed_end(p, lo, e);
        if t == lo {
            assert(components_upto(p@, lo as int, e as int) =~= Seq::<Seq<char>>::empty());
            break;
        }
        let s = find_segment_start(p, lo, t);
        proof {
            lemma_trimmed_end(p@, lo as int, e as int);
            lemma_segment_start(p@, lo as int, t as int);
        }
        let ghost before = spans@;
        spans.push((s, t));
        let next: usize = if s > lo {
            s - 1
        } else {
            lo
        };
        proof {
            let name = p@.subrange(s as int, t as int);
            assert(components_upto(p@, lo as int, e as int) == components_upto(
                p@,
                lo as int,
                next as int,
            ).push(name));
            assert(span_texts(p@, spans@) =~= span_texts(p@, before).push(name));
            assert(span_texts(p@, spans@).reverse() =~= seq![name] + span_texts(
                p@,
                before,
            ).reverse());
            assert(components_upto(p@, lo as int, next as int).push(name) + span_texts(
                p@,
                before,
            ).reverse() =~= components_upto(p@, lo as int, next as int) + (seq![name]
                + span_texts(p@, before).reverse()));
        }
        e = next;
    }
    spans
}

/// The path written with its components alone: repeated separators, `.`
/// segments and trailing separators are dropped; `..` is kept.
pub fn normalize(path: &str) -> (out: String)
    ensures
        out@ == normalized(path@),
{
    let p = chars_of(path);
    let lo = find_body_start(&p);
    let spans = component_spans(&p, lo);
    let ghost names = components(p@).names;
    let mut acc: Vec<char> = Vec::new();
    if lo == 1 {
        acc.push(p[0]);
    }
    assert(acc@ =~= start_text(components(p@)));
    let n = spans.len();
    let mut i: usize = n;
    assert(names.take(0) =~= Seq::<Seq<char>>::empty());
    while i > 0
        invariant
            i <= n,
            n == spans.len(),
            names == span_texts(p@, spans@).reverse(),
            acc@ == pushed_all(start_text(components(p@)), names.take(n - i)),
            forall|k: int|
                0 <= k < spans.len() ==> (#[trigger] spans[k]).0 < spans[k].1 <= p.len()
                    && p@[spans[k].0 as int] != '/',
        decreases i,
    {
        i -= 1;
        let (s, t) = spans[i];
        push_onto(&mut acc, &p, s, t);
        proof {
            let k = n - i - 1;
            assert(names.take(k + 1).drop_last() == names.take(k));
            assert(names.take(k + 1).last() == p@.subrange(s as int, t as int));
        }
    }
    assert(names.take(n as int) == names);
    string_of(&acc)
}

/// How many bytes the UTF-8 encoding of `c` takes.
fn utf8_length(c: char) -> (n: u128)
    ensures
        n == utf8_len(c),
        1 <= n <= 4,
{
    let code: u32 = c as u32;
    if code < 0x80 {
        1
    } else if code < 0x800 {
        2
    } else if code < 0x10000 {
        3
    } else {
        4
    }
}

/// How many bytes the UTF-8 encoding of `p[from..to]` takes.
fn byte_length(p: &Vec<char>, from: usize, to: usize) -> (n: u128)
    requires
        from <= to <= p.len(),
    ensures
        n == byte_len(p@.subrange(from as int, to as int)),
{
    let mut n: u128 = 0;
    let mut i: usize = from;
    while i < to
        invariant
            from <= i <= to <= p.len(),
            n == byte_len(p@.subrange(from as int, i as int)),
            n <= 4 * (i - from),
        decreases to - i,
    {
        let width = utf8_length(p[i]);
        proof {
            let next = p@.subrange(from as int, i + 1);
            assert(next.drop_last() == p@.subrange(from as int, i as int));
            assert(next.last() == p@[i as int]);
        }
        n = n + width;
        i += 1;
    }
    n
}

/// Where `p` ends once its last `n` bytes are cut off; 0 when the cut would
/// fall inside a character or before the start.
fn cut_last_bytes(p: &Vec<char>, n: u128) -> (end: usize)
    ensures
        end <= p.len(),
        without_last_bytes(p@, n as int) == p@.take(end as int),
{
    let mut end: usize = p.len();
    let mut left: u128 = n;
    assert(p@.take(p.len() as int) == p@);
    while left > 0
        invariant
            end <= p.len(),
            without_last_bytes(p@, n as int) == without_last_bytes(
                p@.take(end as int),
                left as int,
            ),
        decreases end,
    {
        if end == 0 {
            assert(p@.take(0) =~= Seq::<char>::empty());
            return 0;
        }
        let width = utf8_length(p[end - 1]);
        assert(p@.take(end as int).last() == p@[end - 1]);
        if width > left {
            assert(p@.take(0) =~= Seq::<char>::empty());
            return 0;
        }
        assert(p@.take(end as int).drop_last() == p@.take(end - 1));
        left = left - width;
        end -= 1;
    }
    end
}

/// Splits a file name into stem and extension. The extension is that of the
/// name's final component, with its dot, or empty; the stem is the name
/// shortened by as many bytes as the extension has.
pub fn split_name_and_extension(file_name: String) -> (out: (String, String))
    ensures
        (out.0@, out.1@) == split_name(file_name@),
{
    let f = chars_of(file_name.as_str());
    let (from, to) = match extension_span(&f) {
        Some((s, e)) => if s < e {
            (s - 1, e)
        } else {
            (0, 0)
        },
        None => (0, 0),
    };
    let ext = string_of_range(&f, from, to);
    proof {
        match extension(f@) {
            Some(x) => {
                if x.len() > 0 {
                    assert(f@.subrange(from as int, to as int) =~= seq!['.'] + x);
                } else {
                    assert(f@.subrange(from as int, to as int) =~= Seq::<char>::empty());
                }
            },
            None => {
                assert(f@.subrange(from as int, to as int) =~= Seq::<char>::empty());
            },
        }
        assert(ext@ == split_extension(f@));
    }
    let n = byte_length(&f, from, to);
    let end = cut_last_bytes(&f, n);
    let name = string_of_range(&f, 0, end);
    assert(f@.subrange(0, end as int) =~= f@.take(end as int));
    (name, ext)
}

/// The parts of a path: root, directory, base name, extension and stem.
#[derive(Debug, Clone, PartialEq, Eq)]
pub struct ParsedPath {
    pub root: String,
    pub dir: String,
    pub base: String,
    pub ext: String,
    pub name: String,
}

impl View for ParsedPath {
    type V = Parts;

    open spec fn view(&self) -> Parts {
        Parts {
            root: self.root@,
            dir: self.dir@,
            base: self.base@,
            ext: self.ext@,
            name: self.name@,
        }
    }
}

/// Takes a path apart.
pub fn parse(path: &str) -> (out: ParsedPath)
    ensures
        out@ == parsed(path@),
{
    let p = chars_of(path);
    let mut root = String::new();
    if p.len() > 0 && p[0] == '/' {
        root.push('/');
    }
    assert(root@ =~= parsed(path@).root);
    let dir = match parent_end(&p) {
        Some(d) => {
            assert(p@.subrange(0, d as int) =~= p@.take(d as int));
            string_of_range(&p, 0, d)
        },
        None => String::new(),
    };
    let file = match file_name_span(&p) {
        Some((s, e)) => string_of_range(&p, s, e),
        None => String::new(),
    };
    let (name, ext) = split_name_and_extension(file);
    let mut base = name.clone();
    base.append(ext.as_str());
    ParsedPath { root, dir, base, ext, name }
}

/// Puts a path together from its parts: the directory, or without one the
/// root, extended by the base name, or without one by stem and extension.
pub fn format(parts: &ParsedPath) -> (out: String)
    ensures
        out@ == formatted(parts@),
{
    let dir = chars_of(parts.dir.as_str());
    let mut acc = if dir.len() > 0 {
        dir
    } else {
        chars_of(parts.root.as_str())
    };
    let base = chars_of(parts.base.as_str());
    let tail = if base.len() > 0 {
        base
    } else {
        let mut stem = chars_of(parts.name.as_str());
        let ext = chars_of(parts.ext.as_str());
        if ext.len() > 0 && ext[0] != '.' {
            stem.push('.');
        }
        let ghost before = stem@;
        let mut i: usize = 0;
        while i < ext.len()
            invariant
                i <= ext.len(),
                stem@ == before + ext@.take(i as int),
            decreases ext.len() - i,
        {
            stem.push(ext[i]);
            assert(ext@.take(i + 1) == ext@.take(i as int).push(ext@[i as int]));
            i += 1;
        }
        assert(ext@.take(ext.len() as int) == ext@);
        assert(stem@ =~= parts.name@ + dotted(parts.ext@));
        stem
    };
    push_onto(&mut acc, &tail, 0, tail.len());
    assert(tail@.subrange(0, tail.len() as int) == tail@);
    string_of(&acc)
}

/// The separator between the components of a path.
pub fn separator(windows: bool) -> (out: String)
    ensures
        out@ == separator_of(windows),
{
    let mut out = String::new();
    if windows {
        out.push('\\');
    } else {
        out.push('/');
    }
    assert(out@ =~= separator_of(windows));
    out
}

/// The delimiter between the paths of a search list.
pub fn delimiter(windows: bool) -> (out: String)
    ensures
        out@ == delimiter_of(windows),
{
    let mut out = String::new();
    if windows {
        out.push(';');
    } else {
        out.push(':');
    }
    assert(out@ =~= delimiter_of(windows));
    out
}

/// The `path` builtin module.
pub struct PathModule;

impl PathModule {
    /// What the module binds, in order.
    pub open spec fn bindings() -> Seq<(Seq<char>, HostBinding)> {
        seq![
            ("parse"@, HostBinding::PathParse),
            ("format"@, HostBinding::PathFormat),
            ("normalize"@, HostBinding::PathNormalize),
            ("resolve"@, HostBinding::PathResolve),
            ("join"@, HostBinding::PathJoin),
            ("dirname"@, HostBinding::PathDirname),
            ("basename"@, HostBinding::PathBasename),
            ("extname"@, HostBinding::PathExtname),
            ("isAbsolute"@, HostBinding::PathIsAbsolute),
            ("sep"@, HostBinding::PathSep),
            ("delimiter"@, HostBinding::PathDelimiter),
        ]
    }

    /// The table of the module's bindings.
    pub fn table() -> (table: Vec<(String, HostBinding)>)
        ensures
            entries(table@) == Self::bindings(),
    {
        let mut table: Vec<(String, HostBinding)> = Vec::new();
        assert(entries(table@) =~= Seq::empty());
        bind(&mut table, "parse", HostBinding::PathParse);
        bind(&mut table, "format", HostBinding::PathFormat);
        bind(&mut table, "normalize", HostBinding::PathNormalize);
        bind(&mut table, "resolve", HostBinding::PathResolve);
        bind(&mut table, "join", HostBinding::PathJoin);
        bind(&mut table, "dirname", HostBinding::PathDirname);
        bind(&mut table, "basename", HostBinding::PathBasename);
        bind(&mut table, "extname", HostBinding::PathExtname);
        bind(&mut table, "isAbsolute", HostBinding::PathIsAbsolute);
        bind(&mut table, "sep", HostBinding::PathSep);
        bind(&mut table, "delimiter", HostBinding::PathDelimiter);
        assert(entries(table@) =~= Self::bindings());
        table
    }

    /// The names the module exports: those of its bindings, then `default`.
    pub fn declare() -> (names: Vec<String>)
        ensures
            texts(names@) == names_of(Self::bindings()).push(default_name()),
    {
        declared_names(&Self::table())
    }

    /// The namespace of the module: every binding as a named export and as a
    /// property of `default`.
    pub fn evaluate() -> (ns: Namespace<HostBinding>)
        ensures
            ns.named_exports() == Self::bindings(),
            ns.default_export() == Self::bindings(),
    {
        export_default(&Self::table())
    }
}

} // verus!
