//! Verified text utilities: equality, prefix tests, and the shapes that
//! command arguments may take (decimal numerals and bare tokens).

use vstd::prelude::*;

verus! {

/// A decimal digit.
pub open spec fn spec_digit(c: char) -> bool {
    48 <= c as u32 && c as u32 <= 57
}

/// An unsigned decimal numeral: digits with at most one interior dot,
/// beginning and ending with a digit (`"7"`, `"19.5"`; not `".5"`, `"3."`).
pub open spec fn spec_unsigned_numeral(s: Seq<char>) -> bool {
    &&& s.len() > 0
    &&& spec_digit(s[0])
    &&& spec_digit(s[s.len() - 1])
    &&& forall|i: int| 0 <= i < s.len() ==> spec_digit(s[i]) || s[i] == '.'
    &&& forall|i: int, j: int| 0 <= i < j < s.len() ==> !(s[i] == '.' && s[j] == '.')
}

/// A decimal numeral, optionally preceded by a minus sign.
pub open spec fn spec_numeral(s: Seq<char>) -> bool {
    if s.len() > 0 && s[0] == '-' {
        spec_unsigned_numeral(s.skip(1))
    } else {
        spec_unsigned_numeral(s)
    }
}

/// A bare token: non-empty text without spaces.
pub open spec fn spec_token(s: Seq<char>) -> bool {
    s.len() > 0 && forall|i: int| 0 <= i < s.len() ==> s[i] != ' '
}

/// Character-wise string equality.
pub fn str_eq(a: &str, b: &str) -> (r: bool)
    ensures
        r == (a@ == b@),
{
    let n = a.unicode_len();
    let m = b.unicode_len();
    if n != m {
        return false;
    }
    let mut i: usize = 0;
    while i < n
        invariant
            n == a@.len(),
            n == b@.len(),
            i <= n,
            forall|k: int| 0 <= k < i ==> a@[k] == b@[k],
        decreases n - i,
    {
        if a.get_char(i) != b.get_char(i) {
            return false;
        }
        i += 1;
    }
    proof {
        assert(a@ =~= b@);
    }
    true
}

/// Whether `p` is a prefix of `s`.
pub fn str_is_prefix(p: &str, s: &str) -> (r: bool)
    ensures
        r == p@.is_prefix_of(s@),
{
    let n = p.unicode_len();
    let m = s.unicode_len();
    if n > m {
        return false;
    }
    let mut i: usize = 0;
    while i < n
        invariant
            n == p@.len(),
            m == s@.len(),
            n <= m,
            i <= n,
            forall|k: int| 0 <= k < i ==> p@[k] == s@[k],
        decreases n - i,
    {
        if p.get_char(i) != s.get_char(i) {
            return false;
        }
        i += 1;
    }
    proof {
        assert(p@ =~= s@.subrange(0, n as int));
    }
    true
}

/// Whether `c` is a decimal digit.
pub fn is_digit(c: char) -> (r: bool)
    ensures
        r == spec_digit(c),
{
    let u = c as u32;
    48 <= u && u <= 57
}

/// Whether `s` is an unsigned decimal numeral.
pub fn is_unsigned_numeral(s: &str) -> (r: bool)
    ensures
        r == spec_unsigned_numeral(s@),
{
    let n = s.unicode_len();
    if n == 0 {
        return false;
    }
    if !is_digit(s.get_char(0)) {
        return false;
    }
    if !is_digit(s.get_char(n - 1)) {
        return false;
    }
    let mut dot: Option<usize> = None;
    let mut i: usize = 0;
    while i < n
        invariant
            n == s@.len(),
            0 < n,
            i <= n,
            forall|k: int| 0 <= k < i ==> spec_digit(s@[k]) || s@[k] == '.',
            match dot {
                Some(d) => d < i && s@[d as int] == '.' && forall|k: int|
                    0 <= k < i && k != d ==> s@[k] != '.',
                None => forall|k: int| 0 <= k < i ==> s@[k] != '.',
            },
        decreases n - i,
    {
        let c = s.get_char(i);
        if c == '.' {
            match dot {
                Some(d) => {
                    proof {
                        assert(s@[d as int] == '.' && s@[i as int] == '.' && d < i);
                    }
                    return false;
                },
                None => {
                    dot = Some(i);
                },
            }
        } else {
            if !is_digit(c) {
                return false;
            }
        }
        i += 1;
    }
    true
}

/// Whether `s` is a decimal numeral with an optional leading minus sign.
pub fn is_numeral(s: &str) -> (r: bool)
    ensures
        r == spec_numeral(s@),
{
    let n = s.unicode_len();
    if n > 0 && s.get_char(0) == '-' {
        let rest = s.substring_char(1, n);
        proof {
            assert(rest@ =~= s@.skip(1));
        }
        is_unsigned_numeral(rest)
    } else {
        is_unsigned_numeral(s)
    }
}

/// Whether `s` is a bare token (non-empty, no spaces).
pub fn is_token(s: &str) -> (r: bool)
    ensures
        r == spec_token(s@),
{
    let n = s.unicode_len();
    if n == 0 {
        return false;
    }
    let mut i: usize = 0;
    while i < n
        invariant
            n == s@.len(),
            0 < n,
            i <= n,
            forall|k: int| 0 <= k < i ==> s@[k] != ' ',
        decreases n - i,
    {
        if s.get_char(i) == ' ' {
            return false;
        }
        i += 1;
    }
    true
}

} // verus!
