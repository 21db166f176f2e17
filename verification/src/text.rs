//! Small operations on strings, stated over their sequences of characters.

use vstd::prelude::*;

verus! {

/// The characters of `s`, in order.
pub fn chars_of(s: &str) -> (chars: Vec<char>)
    ensures
        chars@ == s@,
{
    let mut chars: Vec<char> = Vec::new();
    for c in it: s.chars()
        invariant
            it.seq() == s@,
            chars@ == it.seq().take(it.index() as int),
    {
        chars.push(c);
        assert(chars@ =~= it.seq().take(it.index() + 1));
    }
    assert(s@.take(s@.len() as int) =~= s@);
    chars
}

/// Whether the part of `text` from `from` up to `to` begins with `prefix`.
pub fn starts_with_in(text: &Vec<char>, from: usize, to: usize, prefix: &Vec<char>) -> (found: bool)
    requires
        from <= to <= text@.len(),
    ensures
        found == prefix@.is_prefix_of(text@.subrange(from as int, to as int)),
{
    let n: usize = prefix.len();
    if to - from < n {
        return false;
    }
    let ghost part = text@.subrange(from as int, to as int);
    let mut i: usize = 0;
    while i < n
        invariant
            i <= n,
            n == prefix@.len(),
            from + n <= to <= text.len(),
            part == text@.subrange(from as int, to as int),
            forall|j: int| 0 <= j < i ==> prefix@[j] == text@[from + j],
        decreases n - i,
    {
        if prefix[i] != text[from + i] {
            assert(part.subrange(0, n as int)[i as int] == text@[from + i]);
            return false;
        }
        i += 1;
    }
    assert(prefix@ =~= part.subrange(0, n as int));
    true
}

/// Whether two strings hold the same characters.
pub fn same_text(a: &str, b: &str) -> (same: bool)
    ensures
        same == (a@ == b@),
{
    let left = chars_of(a);
    let right = chars_of(b);
    if left.len() != right.len() {
        return false;
    }
    let found = starts_with_in(&left, 0, left.len(), &right);
    proof {
        assert(left@.subrange(0, left@.len() as int) =~= left@);
        if found {
            assert(right@ =~= left@.subrange(0, right@.len() as int));
        }
    }
    found
}

} // verus!
