//! Facts about the path model that the path functions and the laws rest on.

use vstd::prelude::*;
use crate::path::model::{before_segment, components_upto, segment_start, trimmed_end};

verus! {

/// A segment lies inside its range, holds no separator, and is preceded by
/// one unless it starts where the range does.
pub proof fn lemma_segment_start(p: Seq<char>, lo: int, e: int)
    requires
        0 <= lo <= e <= p.len(),
    ensures
        lo <= segment_start(p, lo, e) <= e,
        forall|j: int| segment_start(p, lo, e) <= j < e ==> p[j] != '/',
        segment_start(p, lo, e) > lo ==> p[segment_start(p, lo, e) - 1] == '/',
    decreases e - lo,
{
    if e > lo && p[e - 1] != '/' {
        lemma_segment_start(p, lo, e - 1);
    }
}

/// Trimming stays inside its range, stops at a character that ends a
/// component, and trimming again changes nothing.
pub proof fn lemma_trimmed_end(p: Seq<char>, lo: int, e: int)
    requires
        0 <= lo <= e <= p.len(),
    ensures
        lo <= trimmed_end(p, lo, e) <= e,
        trimmed_end(p, lo, trimmed_end(p, lo, e)) == trimmed_end(p, lo, e),
        trimmed_end(p, lo, e) > lo ==> {
            let t = trimmed_end(p, lo, e);
            &&& p[t - 1] != '/'
            &&& segment_start(p, lo, t) < t
            &&& p.subrange(segment_start(p, lo, t), t) != seq!['.']
        },
    decreases e - lo,
{
    if e <= lo {
    } else if p[e - 1] == '/' {
        lemma_trimmed_end(p, lo, e - 1);
    } else if p[e - 1] == '.' && e - 1 == lo {
    } else if p[e - 1] == '.' && p[e - 2] == '/' {
        lemma_trimmed_end(p, lo, e - 2);
    } else {
        lemma_segment_start(p, lo, e);
        let s = segment_start(p, lo, e);
        assert(segment_start(p, lo, e) == segment_start(p, lo, e - 1));
        lemma_segment_start(p, lo, e - 1);
        if p.subrange(s, e) == seq!['.'] {
            assert(p.subrange(s, e).len() == 1);
            assert(p.subrange(s, e)[0] == '.');
            assert(s == e - 1);
            assert(p[e - 1] == '.');
            assert(s > lo);
            assert(false);
        }
    }
}

/// Where a segment starts depends only on the characters before its end.
pub proof fn lemma_segment_start_local(p: Seq<char>, q: Seq<char>, lo: int, e: int)
    requires
        0 <= lo <= e <= p.len(),
        e <= q.len(),
        p.take(e) == q.take(e),
    ensures
        segment_start(p, lo, e) == segment_start(q, lo, e),
    decreases e - lo,
{
    if e > lo {
        assert(p[e - 1] == p.take(e)[e - 1]);
        assert(q[e - 1] == q.take(e)[e - 1]);
        if p[e - 1] != '/' {
            assert(p.take(e - 1) == p.take(e).take(e - 1));
            assert(q.take(e - 1) == q.take(e).take(e - 1));
            lemma_segment_start_local(p, q, lo, e - 1);
        }
    }
}

/// Where trimming ends depends only on the characters before the range's end.
pub proof fn lemma_trimmed_end_local(p: Seq<char>, q: Seq<char>, lo: int, e: int)
    requires
        0 <= lo <= e <= p.len(),
        e <= q.len(),
        p.take(e) == q.take(e),
    ensures
        trimmed_end(p, lo, e) == trimmed_end(q, lo, e),
    decreases e - lo,
{
    if e > lo {
        assert(p[e - 1] == p.take(e)[e - 1]);
        assert(q[e - 1] == q.take(e)[e - 1]);
        if p[e - 1] == '/' {
            assert(p.take(e - 1) == p.take(e).take(e - 1));
            assert(q.take(e - 1) == q.take(e).take(e - 1));
            lemma_trimmed_end_local(p, q, lo, e - 1);
        } else if p[e - 1] == '.' && e - 1 > lo {
            assert(p[e - 2] == p.take(e)[e - 2]);
            assert(q[e - 2] == q.take(e)[e - 2]);
            if p[e - 2] == '/' {
                assert(p.take(e - 2) == p.take(e).take(e - 2));
                assert(q.take(e - 2) == q.take(e).take(e - 2));
                lemma_trimmed_end_local(p, q, lo, e - 2);
            }
        }
    }
}

/// The components of a range depend only on the characters before its end.
pub proof fn lemma_components_local(p: Seq<char>, q: Seq<char>, lo: int, e: int)
    requires
        0 <= lo <= e <= p.len(),
        e <= q.len(),
        p.take(e) == q.take(e),
    ensures
        components_upto(p, lo, e) == components_upto(q, lo, e),
    decreases e - lo,
{
    lemma_trimmed_end_local(p, q, lo, e);
    lemma_trimmed_end(p, lo, e);
    let t = trimmed_end(p, lo, e);
    assert(p.take(t) == p.take(e).take(t));
    assert(q.take(t) == q.take(e).take(t));
    lemma_segment_start_local(p, q, lo, t);
    lemma_segment_start(p, lo, t);
    let s = segment_start(p, lo, t);
    if lo < t && s < t {
        let b = before_segment(lo, s);
        assert(p.take(b) == p.take(e).take(b));
        assert(q.take(b) == q.take(e).take(b));
        lemma_components_local(p, q, lo, b);
        assert(p.subrange(s, t) == p.take(e).subrange(s, t));
        assert(q.subrange(s, t) == q.take(e).subrange(s, t));
    }
}

/// Trailing separators and `.` segments add no component.
pub proof fn lemma_components_trimmed(p: Seq<char>, lo: int, e: int)
    requires
        0 <= lo <= e <= p.len(),
    ensures
        components_upto(p, lo, e) == components_upto(p, lo, trimmed_end(p, lo, e)),
{
    lemma_trimmed_end(p, lo, e);
}

} // verus!
