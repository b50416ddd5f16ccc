//! Finding the date key in the text of a path.

use crate::calendar::{is_date_key, is_digit};
use vstd::prelude::*;
use vstd::string::*;

verus! {

/// Eight digits in a row start at `i`.
pub open spec fn digits_at(s: Seq<char>, i: int) -> bool {
    &&& 0 <= i
    &&& i + 8 <= s.len()
    &&& forall|j: int| i <= j < i + 8 ==> is_digit(#[trigger] s[j])
}

/// Eight digits start at `i`, and a character that is no digit follows them.
pub open spec fn key_at(s: Seq<char>, i: int) -> bool {
    &&& digits_at(s, i)
    &&& i + 8 < s.len()
    &&& !is_digit(s[i + 8])
}

/// `i` is the leftmost place where a key stands.
pub open spec fn first_key_at(s: Seq<char>, i: int) -> bool {
    key_at(s, i) && forall|j: int| 0 <= j < i ==> !key_at(s, j)
}

/// The date key of a path's text: the eight digits at the leftmost place
/// where eight digits are followed by something that is no digit. In a
/// longer run of digits these are its last eight.
pub open spec fn date_key_of(s: Seq<char>) -> Option<Seq<char>> {
    if exists|i: int| first_key_at(s, i) {
        let i = choose|i: int| first_key_at(s, i);
        Some(s.subrange(i, i + 8))
    } else {
        None
    }
}

/// There is one leftmost place at most.
pub proof fn lemma_first_key_unique(s: Seq<char>, i: int, j: int)
    requires
        first_key_at(s, i),
        first_key_at(s, j),
    ensures
        i == j,
{
    if i < j {
        assert(!key_at(s, i));
    } else if j < i {
        assert(!key_at(s, j));
    }
}

/// Whether `c` is an ASCII decimal digit.
pub fn is_ascii_digit(c: char) -> (r: bool)
    ensures
        r == is_digit(c),
{
    '0' <= c && c <= '9'
}

/// The date key in `path`, if it holds one.
pub fn matches(path: &str) -> (r: Option<String>)
    ensures
        r is Some <==> date_key_of(path@) is Some,
        r is Some ==> r->Some_0@ == date_key_of(path@)->Some_0,
        r is Some ==> is_date_key(r->Some_0@),
        r is None <==> forall|i: int| !key_at(path@, i),
{
    let n: usize = path.unicode_len();
    let mut i: usize = 0;
    let mut run: usize = 0;
    while i < n
        invariant
            n == path@.len(),
            run <= i <= n,
            forall|j: int| i - run <= j < i ==> is_digit(#[trigger] path@[j]),
            run < i ==> !is_digit(path@[i - run - 1]),
            forall|p: int| p + 8 < i ==> !key_at(path@, p),
        decreases n - i,
    {
        let c: char = path.get_char(i);
        if is_ascii_digit(c) {
            assert(forall|p: int| p + 8 < i + 1 ==> !key_at(path@, p));
            run = run + 1;
        } else if run >= 8 {
            let key: &str = path.substring_char(i - 8, i);
            proof {
                let at: int = i - 8;
                assert(key_at(path@, at));
                assert(first_key_at(path@, at));
                let chosen: int = choose|k: int| first_key_at(path@, k);
                lemma_first_key_unique(path@, at, chosen);
                assert(is_date_key(key@));
            }
            return Some(String::from_str(key));
        } else {
            proof {
                let at: int = i - 8;
                if at >= 0 {
                    assert(is_digit(path@[i - run - 1]) || !key_at(path@, at));
                }
                assert(forall|p: int| p + 8 < i + 1 ==> !key_at(path@, p));
            }
            run = 0;
        }
        i = i + 1;
    }
    proof {
        assert(forall|p: int| !key_at(path@, p));
        assert(forall|p: int| !first_key_at(path@, p));
    }
    None
}

/// A text without eight digits in a row holds no date key.
pub proof fn lemma_no_run_no_key(s: Seq<char>)
    requires
        forall|i: int| !digits_at(s, i),
    ensures
        date_key_of(s) is None,
        forall|i: int| !key_at(s, i),
{
    assert(forall|i: int| !first_key_at(s, i));
}

/// Where a text holds a key at one place only, that key is its date key.
pub proof fn lemma_single_key_found(s: Seq<char>, i: int)
    requires
        key_at(s, i),
        forall|j: int| j != i ==> !key_at(s, j),
    ensures
        date_key_of(s) == Some(s.subrange(i, i + 8)),
{
    assert(first_key_at(s, i));
    let chosen = choose|k: int| first_key_at(s, k);
    lemma_first_key_unique(s, i, chosen);
}

} // verus!
