//! Text helpers shared by the other modules: conversions between strings and
//! character vectors, comparison, and decimal rendering of integers.

use vstd::prelude::*;

verus! {

/// `String::push` of the standard library: appends one character to the end
/// of the string and leaves the rest as it was.
pub assume_specification[ std::string::String::push ](s: &mut std::string::String, c: char)
    ensures
        final(s)@ == old(s)@.push(c),
;

/// The texts of a sequence of strings.
pub open spec fn texts(strings: Seq<String>) -> Seq<Seq<char>> {
    strings.map_values(|s: String| s@)
}

/// The characters of `s`, in order.
pub fn chars_of(s: &str) -> (out: Vec<char>)
    ensures
        out@ == s@,
{
    let mut out: Vec<char> = Vec::new();
    for c in it: s.chars()
        invariant
            out@ == it.seq().take(it.index() as int),
            it.seq() == s@,
    {
        out.push(c);
    }
    out
}

/// Appends the characters `chars[from..to]` to `out`.
pub fn push_range(out: &mut String, chars: &Vec<char>, from: usize, to: usize)
    requires
        from <= to <= chars.len(),
    ensures
        final(out)@ == old(out)@ + chars@.subrange(from as int, to as int),
{
    let mut i: usize = from;
    while i < to
        invariant
            from <= i <= to <= chars.len(),
            out@ == old(out)@ + chars@.subrange(from as int, i as int),
        decreases to - i,
    {
        out.push(chars[i]);
        i += 1;
    }
}

/// The string made of the characters `chars[from..to]`.
pub fn string_of_range(chars: &Vec<char>, from: usize, to: usize) -> (out: String)
    requires
        from <= to <= chars.len(),
    ensures
        out@ == chars@.subrange(from as int, to as int),
{
    let mut out = String::new();
    push_range(&mut out, chars, from, to);
    out
}

/// The string made of all of `chars`.
pub fn string_of(chars: &Vec<char>) -> (out: String)
    ensures
        out@ == chars@,
{
    let out = string_of_range(chars, 0, chars.len());
    assert(chars@.subrange(0, chars.len() as int) == chars@);
    out
}

/// Whether two strings hold the same characters.
pub fn same_text(a: &str, b: &str) -> (same: bool)
    ensures
        same == (a@ == b@),
{
    let x = chars_of(a);
    let y = chars_of(b);
    if x.len() != y.len() {
        return false;
    }
    let mut i: usize = 0;
    while i < x.len()
        invariant
            i <= x.len(),
            x.len() == y.len(),
            x@ == a@,
            y@ == b@,
            x@.take(i as int) == y@.take(i as int),
        decreases x.len() - i,
    {
        if x[i] != y[i] {
            assert(a@[i as int] != b@[i as int]);
            return false;
        }
        assert(x@.take(i + 1) == x@.take(i as int).push(x@[i as int]));
        assert(y@.take(i + 1) == y@.take(i as int).push(y@[i as int]));
        i += 1;
    }
    assert(x@.take(x.len() as int) == x@);
    assert(y@.take(y.len() as int) == y@);
    true
}

/// The character that stands for the decimal digit `d`.
pub open spec fn digit_char(d: int) -> char {
    ('0' as int + d) as char
}

/// The decimal digits of a natural number, most significant first, without
/// leading zeros (`0` itself is one digit).
pub open spec fn natural_digits(n: nat) -> Seq<char>
    decreases n,
{
    if n < 10 {
        seq![digit_char(n as int)]
    } else {
        natural_digits(n / 10).push(digit_char((n % 10) as int))
    }
}

/// The decimal text of an integer: a minus sign for negative numbers, then
/// the digits of its magnitude.
pub open spec fn decimal_text(n: int) -> Seq<char> {
    if n < 0 {
        seq!['-'] + natural_digits((-n) as nat)
    } else {
        natural_digits(n as nat)
    }
}

fn digit_of(d: u64) -> (c: char)
    requires
        d < 10,
    ensures
        c == digit_char(d as int),
{
    (48u8 + d as u8) as char
}

fn digits_of(n: u64) -> (out: Vec<char>)
    ensures
        out@ == natural_digits(n as nat),
{
    let mut reversed: Vec<char> = Vec::new();
    let mut rest: u64 = n;
    reversed.push(digit_of(rest % 10));
    rest = rest / 10;
    while rest > 0
        invariant
            reversed.len() >= 1,
            natural_digits(n as nat) == if rest == 0 {
                reversed@.reverse()
            } else {
                natural_digits(rest as nat) + reversed@.reverse()
            },
        decreases rest,
    {
        let ghost before = reversed@;
        let ghost old_rest = rest;
        reversed.push(digit_of(rest % 10));
        rest = rest / 10;
        proof {
            let d = digit_char((old_rest % 10) as int);
            assert(reversed@.reverse() == seq![d] + before.reverse());
            if rest == 0 {
                assert(natural_digits(old_rest as nat) == seq![d]);
            } else {
                assert(natural_digits(old_rest as nat) == natural_digits(rest as nat).push(d));
                assert(natural_digits(rest as nat).push(d) + before.reverse()
                    == natural_digits(rest as nat) + (seq![d] + before.reverse()));
            }
        }
    }
    let mut out: Vec<char> = Vec::new();
    let mut i: usize = reversed.len();
    while i > 0
        invariant
            i <= reversed.len(),
            out@ == reversed@.reverse().take(reversed.len() - i),
        decreases i,
    {
        i -= 1;
        out.push(reversed[i]);
        assert(reversed@.reverse().take(reversed.len() - i) == reversed@.reverse().take(
            reversed.len() - i - 1,
        ).push(reversed@[i as int]));
    }
    assert(reversed@.reverse().take(reversed.len() as int) == reversed@.reverse());
    out
}

/// Renders a signed integer as decimal text.
pub fn decimal(n: i64) -> (out: String)
    ensures
        out@ == decimal_text(n as int),
{
    let mut out = String::new();
    let magnitude: u64 = if n < 0 {
        out.push('-');
        ((-(n + 1)) as u64) + 1
    } else {
        n as u64
    };
    let digits = digits_of(magnitude);
    push_range(&mut out, &digits, 0, digits.len());
    assert(digits@.subrange(0, digits.len() as int) == digits@);
    out
}

} // verus!
