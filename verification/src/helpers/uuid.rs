//! Random identifiers in the textual form of a UUID.

use vstd::prelude::*;
use vstd::string::StrSliceExecFns;
use crate::helpers::text::push_char;

verus! {

/// A decimal digit or a letter from `a` to `f`.
pub open spec fn is_lower_hex(c: char) -> bool {
    ('0' <= c && c <= '9') || ('a' <= c && c <= 'f')
}

/// Whether every character of `s` is a lower-case hexadecimal digit.
pub open spec fn all_lower_hex(s: Seq<char>) -> bool {
    forall|i: int| 0 <= i < s.len() ==> is_lower_hex(#[trigger] s[i])
}

/// The places of the four hyphens in the hyphenated form.
pub open spec fn is_hyphen_place(i: int) -> bool {
    i == 8 || i == 13 || i == 18 || i == 23
}

/// The hyphenated form: 36 characters, hyphens after the 8th, 12th, 16th and
/// 20th digit, lower-case hexadecimal digits elsewhere.
pub open spec fn is_hyphenated_uuid(s: Seq<char>) -> bool {
    &&& s.len() == 36
    &&& forall|i: int|
        0 <= i < 36 ==> if is_hyphen_place(i) {
            #[trigger] s[i] == '-'
        } else {
            is_lower_hex(s[i])
        }
}

/// The form without hyphens: 32 lower-case hexadecimal digits.
pub open spec fn is_simple_uuid(s: Seq<char>) -> bool {
    s.len() == 32 && all_lower_hex(s)
}

/// `s` with every hyphen taken out.
pub open spec fn without_hyphens(s: Seq<char>) -> Seq<char> {
    s.filter(|c: char| c != '-')
}

/// Draws a version 4 UUID with `uuid::Uuid::new_v4` and writes it with the
/// crate's `Display`.
///
/// Trusted: whatever was drawn, the text is in the hyphenated lower-case
/// form. The call panics where the system's random source fails; no
/// argument could keep it from that.
#[verifier::external_body]
fn random_uuid_text() -> (r: String)
    ensures
        is_hyphenated_uuid(r@),
{
    uuid::Uuid::new_v4().to_string()
}

proof fn lemma_filter_keeps_all(s: Seq<char>)
    requires
        forall|i: int| 0 <= i < s.len() ==> #[trigger] s[i] != '-',
    ensures
        without_hyphens(s) == s,
    decreases s.len(),
{
    reveal(Seq::filter);
    if s.len() > 0 {
        lemma_filter_keeps_all(s.drop_last());
        assert(s.drop_last().push(s.last()) =~= s);
    }
}

proof fn lemma_filter_hyphen()
    ensures
        without_hyphens(seq!['-']) == Seq::<char>::empty(),
{
    reveal_with_fuel(Seq::filter, 2);
    assert(seq!['-'].drop_last() =~= Seq::<char>::empty());
}

/// Taking the hyphens out of the hyphenated form leaves the form without
/// hyphens.
pub proof fn lemma_hyphenated_to_simple(s: Seq<char>)
    requires
        is_hyphenated_uuid(s),
    ensures
        is_simple_uuid(without_hyphens(s)),
        without_hyphens(s) == s.subrange(0, 8) + s.subrange(9, 13) + s.subrange(14, 18)
            + s.subrange(19, 23) + s.subrange(24, 36),
{
    let p = |c: char| c != '-';
    let h = seq!['-'];
    let a = s.subrange(0, 8);
    let b = s.subrange(9, 13);
    let c = s.subrange(14, 18);
    let d = s.subrange(19, 23);
    let e = s.subrange(24, 36);
    assert(s[8] == '-' && s[13] == '-' && s[18] == '-' && s[23] == '-');
    assert(s =~= a + h + b + h + c + h + d + h + e);
    assert forall|i: int| 0 <= i < a.len() implies #[trigger] a[i] != '-' by {
        assert(is_lower_hex(s[i]));
    }
    assert forall|i: int| 0 <= i < b.len() implies #[trigger] b[i] != '-' by {
        assert(is_lower_hex(s[i + 9]));
    }
    assert forall|i: int| 0 <= i < c.len() implies #[trigger] c[i] != '-' by {
        assert(is_lower_hex(s[i + 14]));
    }
    assert forall|i: int| 0 <= i < d.len() implies #[trigger] d[i] != '-' by {
        assert(is_lower_hex(s[i + 19]));
    }
    assert forall|i: int| 0 <= i < e.len() implies #[trigger] e[i] != '-' by {
        assert(is_lower_hex(s[i + 24]));
    }
    lemma_filter_keeps_all(a);
    lemma_filter_keeps_all(b);
    lemma_filter_keeps_all(c);
    lemma_filter_keeps_all(d);
    lemma_filter_keeps_all(e);
    lemma_filter_hyphen();
    Seq::filter_distributes_over_add(a + h + b + h + c + h + d + h, e, p);
    Seq::filter_distributes_over_add(a + h + b + h + c + h + d, h, p);
    Seq::filter_distributes_over_add(a + h + b + h + c + h, d, p);
    Seq::filter_distributes_over_add(a + h + b + h + c, h, p);
    Seq::filter_distributes_over_add(a + h + b + h, c, p);
    Seq::filter_distributes_over_add(a + h + b, h, p);
    Seq::filter_distributes_over_add(a + h, b, p);
    Seq::filter_distributes_over_add(a, h, p);
    let t = a + b + c + d + e;
    assert(without_hyphens(s) =~= t);
    assert forall|i: int| 0 <= i < t.len() implies is_lower_hex(#[trigger] t[i]) by {
        if i < 8 {
            assert(t[i] == s[i]);
        } else if i < 12 {
            assert(t[i] == s[i + 1]);
        } else if i < 16 {
            assert(t[i] == s[i + 2]);
        } else if i < 20 {
            assert(t[i] == s[i + 3]);
        } else {
            assert(t[i] == s[i + 4]);
        }
    }
}

/// Copies `s` without its hyphens.
pub fn remove_hyphens(s: &str) -> (r: String)
    ensures
        r@ == without_hyphens(s@),
{
    let len = s.unicode_len();
    let mut out = String::new();
    let mut i: usize = 0;
    proof {
        reveal(Seq::filter);
        assert(s@.take(0) =~= Seq::<char>::empty());
    }
    while i < len
        invariant
            i <= len,
            len == s@.len(),
            out@ == without_hyphens(s@.take(i as int)),
        decreases len - i,
    {
        let c = s.get_char(i);
        proof {
            reveal(Seq::filter);
            assert(s@.take(i + 1).drop_last() =~= s@.take(i as int));
            assert(s@.take(i + 1).last() == c);
        }
        if c != '-' {
            push_char(&mut out, c);
        }
        i = i + 1;
    }
    proof {
        assert(s@.take(len as int) =~= s@);
    }
    out
}

/// A fresh random identifier: the form without hyphens when `tokenless`
/// is set, the hyphenated form otherwise. Panics where the system's random
/// source fails.
pub fn generate_uuid(tokenless: bool) -> (r: String)
    ensures
        tokenless ==> is_simple_uuid(r@),
        !tokenless ==> is_hyphenated_uuid(r@),
{
    let uuid = random_uuid_text();
    if tokenless {
        proof {
            lemma_hyphenated_to_simple(uuid@);
        }
        remove_hyphens(uuid.as_str())
    } else {
        uuid
    }
}

} // verus!
