//! Laws that relate the path functions to each other.

use vstd::prelude::*;
use crate::path::facts::{
    lemma_components_local, lemma_components_trimmed, lemma_segment_start, lemma_trimmed_end,
};
use crate::path::model::{
    basename_of, before_segment, body_start, byte_len, components, components_upto, dot_dot,
    ends_in_dots, equivalent, extension, file_name, formatted, has_cur_dir, has_root, last_component,
    last_dot, name_end, name_start, normalized, parent, parsed, pushed, pushed_all,
    segment_start, split_extension, split_name, start_text, trimmed_end, without_last_bytes,
};

verus! {

/// A component: a segment that is neither empty nor `.`.
pub open spec fn is_component(f: Seq<char>) -> bool {
    &&& f.len() > 0
    &&& f != seq!['.']
    &&& forall|j: int| 0 <= j < f.len() ==> f[j] != '/'
}

/// A stretch without separators that begins where the range does, or after a
/// separator, is the segment that ends at its end.
proof fn lemma_segment_start_is(p: Seq<char>, lo: int, s: int, e: int)
    requires
        0 <= lo <= s <= e <= p.len(),
        forall|j: int| s <= j < e ==> p[j] != '/',
        s == lo || p[s - 1] == '/',
    ensures
        segment_start(p, lo, e) == s,
    decreases e - s,
{
    if e > s {
        lemma_segment_start_is(p, lo, s, e - 1);
    }
}

/// A path that ends in a component ends there: nothing is trimmed, and the
/// component is its last segment.
proof fn lemma_ends_in_component(r: Seq<char>, lo: int, h: int, f: Seq<char>)
    requires
        0 <= lo <= h,
        r.len() == h + f.len(),
        r.subrange(h, r.len() as int) == f,
        is_component(f),
        h == lo || r[h - 1] == '/',
    ensures
        trimmed_end(r, lo, r.len() as int) == r.len(),
        segment_start(r, lo, r.len() as int) == h,
{
    let e = r.len() as int;
    assert forall|j: int| h <= j < e implies r[j] != '/' by {
        assert(r[j] == f[j - h]);
    }
    lemma_segment_start_is(r, lo, h, e);
    if r[e - 1] == '.' {
        if f.len() == 1 {
            assert(f[0] == r[e - 1]);
            assert(f =~= seq!['.']);
        }
    }
}

/// The last component of a path that has one is a component.
proof fn lemma_last_component(p: Seq<char>)
    requires
        name_end(p) > body_start(p),
    ensures
        body_start(p) <= name_start(p) < name_end(p) <= p.len(),
        is_component(last_component(p)),
        name_start(p) > body_start(p) ==> p[name_start(p) - 1] == '/',
{
    let lo = body_start(p);
    lemma_trimmed_end(p, lo, p.len() as int);
    lemma_segment_start(p, lo, name_end(p));
}

/// The file name of a path is one of its segments: a stretch of the path
/// that holds no separator and is neither empty, nor `.`, nor `..`.
pub proof fn lemma_file_name(p: Seq<char>)
    requires
        file_name(p) is Some,
    ensures
        is_component(file_name(p)->Some_0),
        file_name(p)->Some_0 != dot_dot(),
        0 <= name_start(p) < name_end(p) <= p.len(),
        file_name(p)->Some_0 == p.subrange(name_start(p), name_end(p)),
{
    lemma_trimmed_end(p, body_start(p), p.len() as int);
    lemma_last_component(p);
}

/// The parent of a path is a prefix of the path that stops short of its
/// last component.
pub proof fn lemma_parent(p: Seq<char>)
    requires
        parent(p) is Some,
    ensures
        parent(p)->Some_0.len() <= p.len(),
        parent(p)->Some_0 == p.take(parent(p)->Some_0.len() as int),
        name_end(p) > body_start(p) ==> parent(p)->Some_0.len() <= name_start(p),
{
    let lo = body_start(p);
    lemma_trimmed_end(p, lo, p.len() as int);
    if name_end(p) > lo {
        lemma_last_component(p);
        lemma_trimmed_end(p, lo, before_segment(lo, name_start(p)));
    } else {
        assert(p.take(0) =~= Seq::<char>::empty());
    }
}

/// The extension of a path holds no dot, and the file name ends in a dot
/// and the extension.
pub proof fn lemma_extension(p: Seq<char>)
    requires
        extension(p) is Some,
    ensures
        file_name(p) is Some,
        forall|j: int| 0 <= j < extension(p)->Some_0.len() ==> extension(p)->Some_0[j] != '.',
        ({
            let f = file_name(p)->Some_0;
            let x = extension(p)->Some_0;
            &&& f.len() >= x.len() + 2
            &&& f.subrange(f.len() - x.len() - 1, f.len() as int) == seq!['.'] + x
        }),
{
    let f = file_name(p)->Some_0;
    let d = last_dot(f, f.len() as int);
    lemma_last_dot(f, f.len() as int);
    lemma_after_last_dot(f, f.len() as int);
    let x = f.subrange(d + 1, f.len() as int);
    assert(f.subrange(f.len() - x.len() - 1, f.len() as int) =~= seq!['.'] + x);
}

/// No dot follows the last dot.
proof fn lemma_after_last_dot(f: Seq<char>, e: int)
    requires
        0 <= e <= f.len(),
    ensures
        forall|j: int| last_dot(f, e) < j < e ==> f[j] != '.',
    decreases e,
{
    if e > 0 && f[e - 1] != '.' {
        lemma_after_last_dot(f, e - 1);
    }
}

/// Cutting the bytes of a suffix off the end leaves what stood before it.
proof fn lemma_without_suffix_bytes(a: Seq<char>, b: Seq<char>)
    ensures
        without_last_bytes(a + b, byte_len(b)) == a,
        byte_len(b) >= 0,
    decreases b.len(),
{
    if b.len() == 0 {
        assert(a + b =~= a);
    } else {
        lemma_without_suffix_bytes(a, b.drop_last());
        assert((a + b).last() == b.last());
        assert((a + b).drop_last() =~= a + b.drop_last());
    }
}

/// The last dot found is a dot, and lies within the text.
proof fn lemma_last_dot(f: Seq<char>, e: int)
    requires
        0 <= e <= f.len(),
    ensures
        -1 <= last_dot(f, e) < e,
        last_dot(f, e) >= 0 ==> f[last_dot(f, e)] == '.',
    decreases e,
{
    if e > 0 && f[e - 1] != '.' {
        lemma_last_dot(f, e - 1);
    }
}

/// A component that is not `..` is its own file name.
proof fn lemma_component_file_name(f: Seq<char>)
    requires
        is_component(f),
        f != dot_dot(),
    ensures
        file_name(f) == Some(f),
{
    assert(!has_root(f));
    if has_cur_dir(f) {
        if f.len() == 1 {
            assert(f =~= seq!['.']);
        }
    }
    assert(body_start(f) == 0);
    assert(f.subrange(0, f.len() as int) == f);
    lemma_ends_in_component(f, 0, 0, f);
}

/// The stem and the extension of a file name make up the file name again.
pub proof fn lemma_split_rejoins(f: Seq<char>)
    requires
        is_component(f),
        f != dot_dot(),
    ensures
        split_name(f).0 + split_name(f).1 == f,
{
    lemma_component_file_name(f);
    let d = last_dot(f, f.len() as int);
    lemma_last_dot(f, f.len() as int);
    let ext = split_extension(f);
    if d <= 0 || f.subrange(d + 1, f.len() as int).len() == 0 {
        assert(ext =~= Seq::<char>::empty());
        assert(byte_len(ext) == 0);
        assert(f + ext =~= f);
    } else {
        assert(ext =~= f.subrange(d, f.len() as int));
        assert(f =~= f.take(d) + ext);
        lemma_without_suffix_bytes(f.take(d), ext);
    }
}

/// Putting a parsed path together again gives an equivalent path: one with
/// the same root, the same leading `.`, and the same components. This holds
/// of every path that ends in a name of its own, and of those that consist of
/// a root or of nothing; it does not hold of a path that ends in `..` or
/// consists of `.` alone, since `parse` reports no base for those.
pub proof fn lemma_format_parse(p: Seq<char>)
    requires
        !ends_in_dots(p),
    ensures
        equivalent(formatted(parsed(p)), p),
{
    let lo = body_start(p);
    let e = name_end(p);
    let r = formatted(parsed(p));
    lemma_trimmed_end(p, lo, p.len() as int);
    if e == lo {
        assert(parent(p) is None);
        assert(file_name(p) is None);
        let nothing = Seq::<char>::empty();
        assert(basename_of(p) == nothing);
        assert(file_name(nothing) is None);
        assert(split_extension(nothing) == nothing);
        assert(byte_len(nothing) == 0);
        assert(split_name(nothing) == (nothing, nothing));
        assert(nothing + nothing =~= nothing);
        if has_root(p) {
            assert(r =~= seq!['/']);
        } else {
            assert(r =~= nothing);
        }
        assert(components_upto(r, body_start(r), r.len() as int) =~= Seq::<Seq<char>>::empty());
        assert(components_upto(p, lo, p.len() as int) =~= Seq::<Seq<char>>::empty());
    } else {
        lemma_last_component(p);
        let s = name_start(p);
        let f = last_component(p);
        let b = before_segment(lo, s);
        let d = trimmed_end(p, lo, b);
        lemma_trimmed_end(p, lo, b);
        lemma_split_rejoins(f);
        assert(file_name(p) == Some(f));
        assert(parsed(p).base == f);
        let dir = p.take(d);
        assert(parsed(p).dir == dir);
        let head = if dir.len() > 0 {
            dir
        } else {
            parsed(p).root
        };
        assert(head =~= dir);
        assert(!has_root(f)) by {
            assert(f[0] != '/');
        }
        assert(r == pushed(dir, f));
        assert(components_upto(p, lo, p.len() as int) == components_upto(p, lo, b).push(f));
        lemma_components_trimmed(p, lo, b);
        if d > 0 && p[d - 1] != '/' {
            assert(dir.last() == p[d - 1]);
            assert(r =~= dir + seq!['/'] + f);
            let h = d + 1;
            assert(r.subrange(h, r.len() as int) =~= f);
            assert(r[0] == p[0]);
            if d == 1 {
                if p[0] == '.' && !has_cur_dir(p) {
                    lemma_segment_start_is(p, 0, 0, 1);
                    assert(p.subrange(0, 1) =~= seq!['.']);
                    assert(false);
                }
                assert(r[1] == '/');
            } else {
                assert(r[1] == p[1]);
            }
            assert(has_root(r) == has_root(p));
            assert(has_cur_dir(r) == has_cur_dir(p));
            lemma_ends_in_component(r, lo, h, f);
            assert(r.take(d) =~= p.take(d));
            lemma_components_local(r, p, lo, d);
            assert(before_segment(lo, h) == d);
            assert(components_upto(r, lo, r.len() as int) == components_upto(r, lo, d).push(f));
        } else {
            assert(d == lo);
            assert(r =~= dir + f);
            assert(r.subrange(d, r.len() as int) =~= f);
            if d == 1 {
                assert(r[0] == p[0]);
                assert(has_root(p));
            } else {
                assert(r =~= f);
                if has_cur_dir(r) {
                    if r.len() == 1 {
                        assert(f =~= seq!['.']);
                    }
                }
            }
            assert(has_root(r) == has_root(p));
            assert(has_cur_dir(r) == has_cur_dir(p));
            lemma_ends_in_component(r, lo, d, f);
            assert(components_upto(r, lo, lo) =~= Seq::<Seq<char>>::empty());
            assert(components_upto(p, lo, lo) =~= Seq::<Seq<char>>::empty());
            assert(components_upto(r, lo, r.len() as int) == components_upto(r, lo, lo).push(f));
        }
    }
}

/// Every name in a list is a component.
pub open spec fn all_components(names: Seq<Seq<char>>) -> bool {
    forall|i: int| 0 <= i < names.len() ==> is_component(#[trigger] names[i])
}

/// The ways a path can begin: at the root, with `.`, or with nothing.
pub open spec fn is_start(start: Seq<char>) -> bool {
    start == seq!['/'] || start == seq!['.'] || start == Seq::<char>::empty()
}

/// The components of a path are components.
proof fn lemma_names_are_components(p: Seq<char>, lo: int, e: int)
    requires
        0 <= lo <= e <= p.len(),
    ensures
        all_components(components_upto(p, lo, e)),
    decreases e - lo,
{
    lemma_trimmed_end(p, lo, e);
    let t = trimmed_end(p, lo, e);
    lemma_segment_start(p, lo, t);
    let s = segment_start(p, lo, t);
    if lo < t && s < t {
        lemma_names_are_components(p, lo, before_segment(lo, s));
        let before = components_upto(p, lo, before_segment(lo, s));
        let f = p.subrange(s, t);
        assert(is_component(f));
        assert forall|i: int| 0 <= i < before.push(f).len() implies is_component(
            #[trigger] before.push(f)[i],
        ) by {
            if i < before.len() {
                assert(before.push(f)[i] == before[i]);
            }
        }
    }
}

/// A path built from a start and a list of components denotes just these:
/// it begins as the start says and its components are the ones it was built
/// from. Unless the list is empty it ends in its last component.
proof fn lemma_built_path(start: Seq<char>, names: Seq<Seq<char>>)
    requires
        is_start(start),
        all_components(names),
    ensures
        ({
            let q = pushed_all(start, names);
            let lo = start.len() as int;
            &&& q.len() >= lo
            &&& has_root(q) == (start == seq!['/'])
            &&& has_cur_dir(q) == (start == seq!['.'])
            &&& body_start(q) == lo
            &&& components_upto(q, lo, q.len() as int) == names
            &&& names.len() == 0 ==> q == start
            &&& names.len() > 0 ==> q.len() > lo && trimmed_end(q, lo, q.len() as int) == q.len()
                && q.last() != '/'
        }),
    decreases names.len(),
{
    let q = pushed_all(start, names);
    let lo = start.len() as int;
    if names.len() == 0 {
        assert(q == start);
        assert(components_upto(q, lo, q.len() as int) =~= names);
    } else {
        let rest = names.drop_last();
        let f = names.last();
        assert(is_component(f));
        assert(all_components(rest)) by {
            assert forall|i: int| 0 <= i < rest.len() implies is_component(#[trigger] rest[i]) by {
                assert(rest[i] == names[i]);
            }
        }
        lemma_built_path(start, rest);
        let head = pushed_all(start, rest);
        assert(q == pushed(head, f));
        assert(!has_root(f)) by {
            assert(f[0] != '/');
        }
        assert(f.last() != '/');
        if head.len() > 0 && head.last() != '/' {
            assert(q =~= head + seq!['/'] + f);
            let h: int = head.len() as int + 1;
            assert(q.subrange(h, q.len() as int) =~= f);
            assert(q[0] == head[0]);
            if head.len() == 1 {
                assert(q[1] == '/');
                if rest.len() > 0 {
                    assert(lo == 0);
                    lemma_trimmed_end(head, 0, 1);
                    lemma_segment_start_is(head, 0, 0, 1);
                    assert(head.subrange(0, 1) =~= head);
                    assert(head[0] != '.') by {
                        if head[0] == '.' {
                            assert(head =~= seq!['.']);
                        }
                    }
                } else {
                    assert(head == start);
                }
            } else {
                assert(q[1] == head[1]);
            }
            assert(has_root(q) == has_root(head));
            assert(has_cur_dir(q) == has_cur_dir(head));
            lemma_ends_in_component(q, lo, h, f);
            assert(q.take(head.len() as int) =~= head.take(head.len() as int));
            lemma_components_local(q, head, lo, head.len() as int);
            assert(before_segment(lo, h) == head.len());
            assert(components_upto(q, lo, q.len() as int) == components_upto(
                q,
                lo,
                head.len() as int,
            ).push(f));
            assert(rest.push(f) =~= names);
            assert(q.last() == f.last());
        } else {
            assert(q =~= head + f);
            assert(rest.len() == 0);
            assert(head == start);
            assert(head.len() == lo);
            assert(q.subrange(lo, q.len() as int) =~= f);
            if lo == 1 {
                assert(start == seq!['/']);
                assert(q[0] == '/');
            } else {
                assert(q =~= f);
                if has_cur_dir(q) {
                    if q.len() == 1 {
                        assert(f =~= seq!['.']);
                    }
                }
            }
            lemma_ends_in_component(q, lo, lo, f);
            assert(components_upto(q, lo, lo) =~= Seq::<Seq<char>>::empty());
            assert(components_upto(q, lo, q.len() as int) == components_upto(q, lo, lo).push(f));
            assert(Seq::<Seq<char>>::empty().push(f) =~= names);
            assert(q.last() == f.last());
        }
    }
}

/// How a path begins is one of the three ways, and as long as its start.
proof fn lemma_start_of(p: Seq<char>)
    ensures
        is_start(start_text(components(p))),
        start_text(components(p)).len() == body_start(p),
        start_text(components(p)) == seq!['/'] <==> has_root(p),
        start_text(components(p)) == seq!['.'] <==> has_cur_dir(p),
{
    let start = start_text(components(p));
    if has_root(p) {
        assert(start[0] == '/');
    } else if has_cur_dir(p) {
        assert(start[0] == '.');
    } else {
        assert(start.len() == 0);
    }
}

/// A normalized path is equivalent to the path it was made from.
pub proof fn lemma_normalized_equivalent(p: Seq<char>)
    ensures
        equivalent(normalized(p), p),
{
    lemma_start_of(p);
    lemma_names_are_components(p, body_start(p), p.len() as int);
    lemma_built_path(start_text(components(p)), components(p).names);
}

/// Normalizing a normalized path changes nothing.
pub proof fn lemma_normalized_idempotent(p: Seq<char>)
    ensures
        normalized(normalized(p)) == normalized(p),
{
    lemma_normalized_equivalent(p);
}

/// Equivalent paths have the same normal form.
pub proof fn lemma_equivalent_normalized(a: Seq<char>, b: Seq<char>)
    requires
        equivalent(a, b),
    ensures
        normalized(a) == normalized(b),
{
}

/// A path that is a trimmed head extended by a file name has that head as
/// its parent and that name as its file name.
proof fn lemma_parts_of_pushed(head: Seq<char>, f: Seq<char>, lo: int)
    requires
        is_component(f),
        f != dot_dot(),
        body_start(pushed(head, f)) == lo,
        0 <= lo <= head.len(),
        head.len() > lo ==> trimmed_end(head, lo, head.len() as int) == head.len() && head.last()
            != '/',
        head.len() == lo && lo == 1 ==> head == seq!['/'] || head == seq!['.'],
    ensures
        file_name(pushed(head, f)) == Some(f),
        parent(pushed(head, f)) == Some(head),
{
    let p = pushed(head, f);
    assert(!has_root(f)) by {
        assert(f[0] != '/');
    }
    if head.len() > 0 && head.last() != '/' {
        assert(p =~= head + seq!['/'] + f);
        let h: int = head.len() as int + 1;
        assert(p.subrange(h, p.len() as int) =~= f);
        lemma_ends_in_component(p, lo, h, f);
        assert(before_segment(lo, h) == head.len());
        assert(p.take(head.len() as int) =~= head);
        assert(head.take(head.len() as int) =~= head);
        crate::path::facts::lemma_trimmed_end_local(p, head, lo, head.len() as int);
        assert(trimmed_end(p, lo, head.len() as int) == head.len());
    } else {
        assert(p =~= head + f);
        assert(head.len() == lo);
        assert(p.subrange(lo, p.len() as int) =~= f);
        lemma_ends_in_component(p, lo, lo, f);
        assert(before_segment(lo, lo) == lo);
        assert(trimmed_end(p, lo, lo) == lo);
        assert(p.take(lo) =~= head);
    }
}

/// Putting a parsed path together again gives the very same path where the
/// path is in normal form: without repeated or trailing separators and
/// without `.` segments. As for equivalence, a path that ends in `..` or
/// consists of `.` alone is left out.
pub proof fn lemma_format_parse_normal(p: Seq<char>)
    requires
        normalized(p) == p,
        !ends_in_dots(p),
    ensures
        formatted(parsed(p)) == p,
{
    let lo = body_start(p);
    let names = components(p).names;
    let start = start_text(components(p));
    lemma_start_of(p);
    lemma_names_are_components(p, lo, p.len() as int);
    lemma_built_path(start, names);
    if names.len() == 0 {
        assert(p == start);
        lemma_trimmed_end(p, lo, p.len() as int);
        assert(name_end(p) == lo);
        let nothing = Seq::<char>::empty();
        assert(parent(p) is None);
        assert(basename_of(p) == nothing);
        assert(file_name(nothing) is None);
        assert(split_extension(nothing) == nothing);
        assert(byte_len(nothing) == 0);
        assert(split_name(nothing) == (nothing, nothing));
        assert(nothing + nothing =~= nothing);
        if has_root(p) {
            assert(formatted(parsed(p)) =~= seq!['/']);
        } else {
            assert(formatted(parsed(p)) =~= nothing);
        }
    } else {
        let rest = names.drop_last();
        let f = names.last();
        assert(all_components(rest)) by {
            assert forall|i: int| 0 <= i < rest.len() implies is_component(#[trigger] rest[i]) by {
                assert(rest[i] == names[i]);
            }
        }
        lemma_built_path(start, rest);
        let head = pushed_all(start, rest);
        assert(p == pushed(head, f));
        assert(is_component(f));
        assert(f != dot_dot()) by {
            assert(name_end(p) == p.len());
            lemma_last_component(p);
            let s = name_start(p);
            assert(names == components_upto(p, lo, before_segment(lo, s)).push(
                last_component(p),
            ));
            assert(components_upto(p, lo, before_segment(lo, s)).push(last_component(p)).last()
                == last_component(p));
        }
        lemma_parts_of_pushed(head, f, lo);
        lemma_split_rejoins(f);
        assert(parsed(p).base == f);
        assert(parsed(p).dir == head);
        if head.len() == 0 {
            assert(!has_root(p));
        }
        assert(formatted(parsed(p)) == pushed(head, f));
    }
}

} // verus!
