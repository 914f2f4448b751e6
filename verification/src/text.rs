//! Small operations on text, stated over sequences of characters.

use vstd::prelude::*;
use vstd::string::*;

verus! {

/// The view of an optional string.
pub open spec fn opt_text(o: Option<String>) -> Option<Seq<char>> {
    match o {
        Some(s) => Some(s@),
        None => None,
    }
}

/// The views of a sequence of strings, in order.
pub open spec fn texts(v: Seq<String>) -> Seq<Seq<char>> {
    v.map_values(|s: String| s@)
}

/// `s` without one leading `v`, if it has one.
pub open spec fn strip_v(s: Seq<char>) -> Seq<char> {
    if s.len() > 0 && s[0] == 'v' {
        s.subrange(1, s.len() as int)
    } else {
        s
    }
}

/// Whether `s` ends in the archive extension `.zip`.
pub open spec fn is_archive_name(s: Seq<char>) -> bool {
    let n = s.len() as int;
    n >= 4 && s[n - 4] == '.' && s[n - 3] == 'z' && s[n - 2] == 'i' && s[n - 1] == 'p'
}

/// The least index at or after `from` where `s` holds `/`, or the length of
/// `s` where there is none.
pub open spec fn slash_from(s: Seq<char>, from: int) -> int
    decreases s.len() - from,
{
    if from < 0 || from >= s.len() {
        s.len() as int
    } else if s[from] == '/' {
        from
    } else {
        slash_from(s, from + 1)
    }
}

/// The owner and the name in a reference of the form `owner/name`, parted at
/// the first `/`; `None` where the reference holds no `/`.
pub open spec fn split_reference(s: Seq<char>) -> Option<(Seq<char>, Seq<char>)> {
    let k = slash_from(s, 0);
    if k < s.len() {
        Some((s.subrange(0, k), s.subrange(k + 1, s.len() as int)))
    } else {
        None
    }
}

/// Removes one leading `v` from a version or a tag.
pub fn strip_leading_v(s: &str) -> (r: String)
    ensures
        r@ == strip_v(s@),
{
    let n: usize = s.unicode_len();
    if n > 0 && s.get_char(0) == 'v' {
        String::from_str(s.substring_char(1, n))
    } else {
        String::from_str(s)
    }
}

/// Tells whether a file name ends in `.zip`.
pub fn ends_with_zip(s: &str) -> (r: bool)
    ensures
        r == is_archive_name(s@),
{
    let n: usize = s.unicode_len();
    n >= 4 && s.get_char(n - 4) == '.' && s.get_char(n - 3) == 'z' && s.get_char(n - 2) == 'i'
        && s.get_char(n - 1) == 'p'
}

/// Parts a repository reference `owner/name` at its first `/`.
pub fn split_repo_reference(s: &str) -> (r: Option<(String, String)>)
    ensures
        match r {
            Some((owner, name)) => split_reference(s@) == Some((owner@, name@)),
            None => split_reference(s@) is None,
        },
{
    let n: usize = s.unicode_len();
    let mut i: usize = 0;
    while i < n && s.get_char(i) != '/'
        invariant
            n == s@.len(),
            i <= n,
            slash_from(s@, 0) == slash_from(s@, i as int),
        decreases n - i,
    {
        i += 1;
    }
    if i < n {
        let owner = String::from_str(s.substring_char(0, i));
        let name = String::from_str(s.substring_char(i + 1, n));
        Some((owner, name))
    } else {
        None
    }
}

} // verus!
