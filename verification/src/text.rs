//! Comparing strings, exactly and without regard to ASCII case.

use vstd::prelude::*;

verus! {

/// The code point of `c`, with the ASCII capitals moved onto their small
/// letters.  No other character changes.
pub open spec fn lower_code(c: char) -> int {
    let n = c as int;
    if 65 <= n <= 90 {
        n + 32
    } else {
        n
    }
}

/// Whether `a` and `b` are equal once ASCII case is set aside: they have the
/// same length, and at each place their characters differ in ASCII case at
/// most.
pub open spec fn eq_ignore_case(a: Seq<char>, b: Seq<char>) -> bool {
    &&& a.len() == b.len()
    &&& forall|i: int| 0 <= i < a.len() ==> lower_code(#[trigger] a[i]) == lower_code(b[i])
}

fn fold_case(c: char) -> (n: u32)
    ensures
        n == lower_code(c),
{
    let n: u32 = c as u32;
    if 65 <= n && n <= 90 {
        n + 32
    } else {
        n
    }
}

/// Whether `a` and `b` hold the same characters.
pub fn str_eq(a: &str, b: &str) -> (r: bool)
    ensures
        r == (a@ == b@),
{
    let len: usize = a.unicode_len();
    if b.unicode_len() != len {
        return false;
    }
    let mut i: usize = 0;
    while i < len
        invariant
            i <= len,
            len == a@.len(),
            len == b@.len(),
            forall|j: int| 0 <= j < i ==> a@[j] == b@[j],
        decreases len - i,
    {
        if a.get_char(i) != b.get_char(i) {
            return false;
        }
        i = i + 1;
    }
    assert(a@ =~= b@);
    true
}

/// Whether `a` and `b` are equal once ASCII case is set aside.
pub fn str_eq_ignore_case(a: &str, b: &str) -> (r: bool)
    ensures
        r == eq_ignore_case(a@, b@),
{
    let len: usize = a.unicode_len();
    if b.unicode_len() != len {
        return false;
    }
    let mut i: usize = 0;
    while i < len
        invariant
            i <= len,
            len == a@.len(),
            len == b@.len(),
            forall|j: int| 0 <= j < i ==> lower_code(#[trigger] a@[j]) == lower_code(b@[j]),
        decreases len - i,
    {
        if fold_case(a.get_char(i)) != fold_case(b.get_char(i)) {
            return false;
        }
        i = i + 1;
    }
    true
}

} // verus!
