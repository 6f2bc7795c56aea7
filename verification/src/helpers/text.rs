//! Text utilities with exact contracts over `Seq<char>`.

use vstd::prelude::*;
use vstd::string::StringExecFns;

verus! {

/// Appends one character to a `String`.
///
/// Trusted: states of `String::push` that the text afterwards is the text
/// before followed by `c`.
#[verifier::external_body]
pub(crate) fn push_char(s: &mut String, c: char)
    ensures
        final(s)@ == old(s)@.push(c),
{
    s.push(c)
}

/// Whether two string slices hold the same characters.
pub fn text_eq(a: &str, b: &str) -> (r: bool)
    ensures
        r == (a@ == b@),
{
    let x = String::from_str(a);
    let y = String::from_str(b);
    x == y
}

/// The view of an optional text.
pub open spec fn opt_text(o: Option<String>) -> Option<Seq<char>> {
    match o {
        Some(s) => Some(s@),
        None => None,
    }
}

/// A copy of an optional text.
pub fn copy_opt_text(o: &Option<String>) -> (r: Option<String>)
    ensures
        opt_text(r) == opt_text(*o),
{
    match o {
        Some(s) => Some(s.clone()),
        None => None,
    }
}

/// The decimal digit that stands for `d`, for `d` below ten.
pub open spec fn digit_char(d: nat) -> char {
    if d == 0 {
        '0'
    } else if d == 1 {
        '1'
    } else if d == 2 {
        '2'
    } else if d == 3 {
        '3'
    } else if d == 4 {
        '4'
    } else if d == 5 {
        '5'
    } else if d == 6 {
        '6'
    } else if d == 7 {
        '7'
    } else if d == 8 {
        '8'
    } else {
        '9'
    }
}

/// `n` written in base ten, without sign or leading zero.
pub open spec fn decimal(n: nat) -> Seq<char>
    decreases n,
{
    if n < 10 {
        seq![digit_char(n)]
    } else {
        decimal(n / 10).push(digit_char(n % 10))
    }
}

fn digit(d: usize) -> (c: char)
    requires
        d < 10,
    ensures
        c == digit_char(d as nat),
{
    if d == 0 {
        '0'
    } else if d == 1 {
        '1'
    } else if d == 2 {
        '2'
    } else if d == 3 {
        '3'
    } else if d == 4 {
        '4'
    } else if d == 5 {
        '5'
    } else if d == 6 {
        '6'
    } else if d == 7 {
        '7'
    } else if d == 8 {
        '8'
    } else {
        '9'
    }
}

/// Writes `n` in base ten.
pub fn decimal_text(n: usize) -> (r: String)
    ensures
        r@ == decimal(n as nat),
    decreases n,
{
    if n < 10 {
        let mut out = String::new();
        push_char(&mut out, digit(n));
        assert(out@ == seq![digit_char(n as nat)]);
        out
    } else {
        let mut out = decimal_text(n / 10);
        push_char(&mut out, digit(n % 10));
        out
    }
}

/// The characters of a string slice, in order.
pub fn chars_of(s: &str) -> (r: Vec<char>)
    ensures
        r@ == s@,
{
    let mut out: Vec<char> = Vec::new();
    for c in it: s.chars()
        invariant
            it.seq() == s@,
            out@ == s@.take(it.index() as int),
    {
        out.push(c);
        proof {
            assert(s@.take(it.index() + 1) =~= s@.take(it.index() as int).push(c));
        }
    }
    proof {
        assert(s@.take(s@.len() as int) =~= s@);
    }
    out
}

/// Whether `pattern` stands in `s` at place `i`.
pub open spec fn matches_at(s: Seq<char>, i: int, pattern: Seq<char>) -> bool {
    0 <= i && i + pattern.len() <= s.len() && s.subrange(i, i + pattern.len()) == pattern
}

/// Whether `pattern` stands somewhere in `s`.
pub open spec fn contains_text(s: Seq<char>, pattern: Seq<char>) -> bool {
    exists|i: int| matches_at(s, i, pattern)
}

/// `s` with every occurrence of `from` replaced by `to`: the occurrences
/// are taken from the left, and none overlaps one before it. An empty
/// `from` replaces nothing.
pub open spec fn replaced(s: Seq<char>, from: Seq<char>, to: Seq<char>) -> Seq<char>
    decreases s.len(),
{
    if from.len() == 0 || s.len() < from.len() {
        s
    } else if s.subrange(0, from.len() as int) == from {
        to + replaced(s.subrange(from.len() as int, s.len() as int), from, to)
    } else {
        seq![s[0]] + replaced(s.subrange(1, s.len() as int), from, to)
    }
}

/// Whether `pattern` stands in `s` at place `i`.
fn is_match_at(s: &Vec<char>, i: usize, pattern: &Vec<char>) -> (r: bool)
    ensures
        r == matches_at(s@, i as int, pattern@),
{
    if pattern.len() > s.len() || i > s.len() - pattern.len() {
        return false;
    }
    let mut k: usize = 0;
    while k < pattern.len()
        invariant
            k <= pattern.len(),
            i + pattern.len() <= s.len(),
            forall|j: int| 0 <= j < k ==> s@[i + j] == pattern@[j],
        decreases pattern.len() - k,
    {
        if s[i + k] != pattern[k] {
            proof {
                assert(s@.subrange(i as int, i + pattern@.len())[k as int] == s@[i + k]);
            }
            return false;
        }
        k = k + 1;
    }
    proof {
        assert(s@.subrange(i as int, i + pattern@.len()) =~= pattern@);
    }
    true
}

/// Whether `pattern` stands somewhere in `s`.
pub fn has_text(s: &str, pattern: &str) -> (r: bool)
    ensures
        r == contains_text(s@, pattern@),
{
    let text = chars_of(s);
    let wanted = chars_of(pattern);
    if wanted.len() > text.len() {
        return false;
    }
    let last = text.len() - wanted.len();
    let mut i: usize = 0;
    loop
        invariant
            i <= last,
            last == text.len() - wanted.len(),
            wanted.len() <= text.len(),
            text@ == s@,
            wanted@ == pattern@,
            forall|j: int| 0 <= j < i ==> !matches_at(text@, j, wanted@),
        decreases last - i,
    {
        if is_match_at(&text, i, &wanted) {
            return true;
        }
        if i == last {
            return false;
        }
        i = i + 1;
    }
}

/// Copies `s` with every occurrence of `from` replaced by `to`.
pub fn replace_text(s: &str, from: &str, to: &str) -> (r: String)
    ensures
        r@ == replaced(s@, from@, to@),
{
    let text = chars_of(s);
    let wanted = chars_of(from);
    let mut out = String::new();
    if wanted.len() == 0 {
        out.append(s);
        return out;
    }
    let mut i: usize = 0;
    proof {
        assert(text@.subrange(0, text@.len() as int) =~= text@);
    }
    while i < text.len()
        invariant
            i <= text.len(),
            text@ == s@,
            wanted@ == from@,
            wanted@.len() > 0,
            out@ + replaced(text@.subrange(i as int, text@.len() as int), from@, to@) == replaced(
                s@,
                from@,
                to@,
            ),
        decreases text.len() - i,
    {
        let ghost rest = text@.subrange(i as int, text@.len() as int);
        let ghost before = out@;
        if is_match_at(&text, i, &wanted) {
            proof {
                let n = wanted@.len() as int;
                assert(rest.subrange(0, n) =~= text@.subrange(i as int, i + n));
                assert(rest.subrange(n, rest.len() as int) =~= text@.subrange(
                    i + n,
                    text@.len() as int,
                ));
            }
            out.append(to);
            i = i + wanted.len();
            proof {
                let next = text@.subrange(i as int, text@.len() as int);
                assert(out@ + replaced(next, from@, to@) =~= before + (to@ + replaced(
                    next,
                    from@,
                    to@,
                )));
            }
        } else {
            proof {
                let n = wanted@.len() as int;
                if rest.len() >= n {
                    assert(rest.subrange(0, n) =~= text@.subrange(i as int, i + n));
                }
                assert(rest.subrange(1, rest.len() as int) =~= text@.subrange(
                    i + 1,
                    text@.len() as int,
                ));
                assert(rest[0] == text@[i as int]);
            }
            push_char(&mut out, text[i]);
            i = i + 1;
            proof {
                let next = text@.subrange(i as int, text@.len() as int);
                if rest.len() < wanted@.len() {
                    assert(replaced(rest, from@, to@) == rest);
                    assert(replaced(next, from@, to@) == next);
                    assert(before + rest =~= out@ + next);
                } else {
                    assert(out@ + replaced(next, from@, to@) =~= before + (seq![rest[0]]
                        + replaced(next, from@, to@)));
                }
            }
        }
    }
    proof {
        assert(text@.subrange(text@.len() as int, text@.len() as int) =~= Seq::<char>::empty());
        assert(out@ + Seq::<char>::empty() =~= out@);
    }
    out
}

} // verus!
