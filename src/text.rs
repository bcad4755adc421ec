//! Character-indexed substrings.

use vstd::prelude::*;
use vstd::string::*;

verus! {

/// The characters of `s` from index `begin` up to `end` (or to the end of
/// `s`); `None` where `begin` or `end` lies beyond the last character. An
/// `end` at or before `begin` gives the empty string.
pub open spec fn char_range(s: Seq<char>, begin: nat, end: Option<nat>) -> Option<Seq<char>> {
    if begin > s.len() {
        None
    } else {
        match end {
            Some(e) => if begin >= e {
                Some(Seq::<char>::empty())
            } else if e > s.len() {
                None
            } else {
                Some(s.subrange(begin as int, e as int))
            },
            None => Some(s.subrange(begin as int, s.len() as int)),
        }
    }
}

/// The substring of `s` between character indices `begin` and `end`; see
/// `char_range`.
pub fn substr(s: &str, begin: usize, end: Option<usize>) -> (r: Option<&str>)
    ensures
        match char_range(s@, begin as nat, match end { Some(e) => Some(e as nat), None => None }) {
            Some(t) => r is Some && r->Some_0@ == t,
            None => r is None,
        },
{
    let n: usize = s.unicode_len();
    if begin > n {
        return None;
    }
    match end {
        Some(e) => {
            if begin >= e {
                let t = s.substring_char(begin, begin);
                assert(t@ =~= Seq::<char>::empty());
                Some(t)
            } else if e > n {
                None
            } else {
                Some(s.substring_char(begin, e))
            }
        },
        None => Some(s.substring_char(begin, n)),
    }
}

} // verus!
