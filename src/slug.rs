use vstd::prelude::*;

use crate::text::{chars_of, lower_of, string_of, to_lower};

verus! {

/// Whether `c` is an ASCII letter.
pub open spec fn is_ascii_letter(c: char) -> bool {
    ('a' <= c && c <= 'z') || ('A' <= c && c <= 'Z')
}

/// Letters kept, every run of other characters folded into one dash.
pub open spec fn dash_fold(cs: Seq<char>) -> Seq<char>
    decreases cs.len(),
{
    if cs.len() == 0 {
        Seq::empty()
    } else {
        let acc = dash_fold(cs.drop_last());
        let c = cs.last();
        if is_ascii_letter(c) {
            acc.push(c)
        } else if acc.len() > 0 && acc.last() == '-' {
            acc
        } else {
            acc.push('-')
        }
    }
}

/// `s` without its leading dashes.
pub open spec fn strip_front(s: Seq<char>) -> Seq<char>
    decreases s.len(),
{
    if s.len() > 0 && s[0] == '-' {
        strip_front(s.drop_first())
    } else {
        s
    }
}

/// `s` without its trailing dashes.
pub open spec fn strip_back(s: Seq<char>) -> Seq<char>
    decreases s.len(),
{
    if s.len() > 0 && s.last() == '-' {
        strip_back(s.drop_last())
    } else {
        s
    }
}

/// The slug of an already lowercased text.
pub open spec fn slug_of(lowered: Seq<char>) -> Seq<char> {
    strip_back(strip_front(dash_fold(lowered)))
}

/// The slug of a text: lowercased, letters kept, other runs turned into
/// single dashes, with no dash at either end.
pub fn slugify(s: &str) -> (r: String)
    ensures
        r@ == slug_of(lower_of(s@)),
{
    let lowered = to_lower(s);
    slug_from_lowercase(lowered.as_str())
}

/// The slug of a text that is already lowercase.
pub fn slug_from_lowercase(lowered: &str) -> (r: String)
    ensures
        r@ == slug_of(lowered@),
{
    let cs = chars_of(lowered);
    let mut acc: Vec<char> = Vec::new();
    let mut i: usize = 0;
    while i < cs.len()
        invariant
            cs@ == lowered@,
            i <= cs@.len(),
            acc@ == dash_fold(cs@.subrange(0, i as int)),
        decreases cs@.len() - i,
    {
        let c = cs[i];
        proof {
            let next = cs@.subrange(0, i + 1);
            assert(next.drop_last() =~= cs@.subrange(0, i as int));
            assert(next.last() == c);
        }
        if ('a' <= c && c <= 'z') || ('A' <= c && c <= 'Z') {
            acc.push(c);
        } else if acc.len() > 0 && acc[acc.len() - 1] == '-' {
        } else {
            acc.push('-');
        }
        i = i + 1;
    }
    assert(cs@.subrange(0, cs@.len() as int) =~= cs@);
    let trimmed = trim_dashes(acc.as_slice());
    string_of(trimmed.as_slice())
}

/// Leading and trailing dashes removed.
fn trim_dashes(s: &[char]) -> (r: Vec<char>)
    ensures
        r@ == strip_back(strip_front(s@)),
{
    let mut a: usize = 0;
    assert(s@.subrange(0, s@.len() as int) =~= s@);
    while a < s.len() && s[a] == '-'
        invariant
            a <= s@.len(),
            strip_front(s@) == strip_front(s@.subrange(a as int, s@.len() as int)),
        decreases s@.len() - a,
    {
        let ghost rest = s@.subrange(a as int, s@.len() as int);
        assert(rest.drop_first() =~= s@.subrange(a + 1, s@.len() as int));
        a = a + 1;
    }
    let ghost front = s@.subrange(a as int, s@.len() as int);
    assert(strip_front(s@) == front);
    let mut b: usize = s.len();
    while b > a && s[b - 1] == '-'
        invariant
            a <= b <= s@.len(),
            front == s@.subrange(a as int, s@.len() as int),
            strip_back(front) == strip_back(s@.subrange(a as int, b as int)),
        decreases b,
    {
        let ghost part = s@.subrange(a as int, b as int);
        assert(part.drop_last() =~= s@.subrange(a as int, b - 1));
        b = b - 1;
    }
    let mut r: Vec<char> = Vec::new();
    let mut k: usize = a;
    while k < b
        invariant
            a <= k <= b <= s@.len(),
            r@ == s@.subrange(a as int, k as int),
        decreases b - k,
    {
        r.push(s[k]);
        k = k + 1;
    }
    r
}

} // verus!
