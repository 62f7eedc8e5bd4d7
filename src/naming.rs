use vstd::prelude::*;
use vstd::string::*;

verus! {

/// The name of the folder-metadata file that macOS leaves in every directory.
pub open spec fn ds_store() -> Seq<char> {
    ".DS_Store"@
}

/// `pat` occurs in `s` starting at position `i`.
pub open spec fn occurs_at(s: Seq<char>, pat: Seq<char>, i: int) -> bool {
    0 <= i && i + pat.len() <= s.len() && s.subrange(i, i + pat.len()) == pat
}

/// `pat` occurs somewhere in `s`.
pub open spec fn contains(s: Seq<char>, pat: Seq<char>) -> bool {
    exists|i: int| occurs_at(s, pat, i)
}

/// A field is ignored when its filename is, or contains, `.DS_Store`.
pub open spec fn is_ignored_name(name: Seq<char>) -> bool {
    contains(name, ds_store())
}

/// The filename that a field is stored under: the one its metadata gives, or
/// `unnamed` where it gives none.
pub open spec fn field_name_of(given: Option<Seq<char>>) -> Seq<char> {
    match given {
        Some(n) => n,
        None => "unnamed"@,
    }
}

fn occurs_at_exec(s: &str, s_len: usize, pat: &str, pat_len: usize, i: usize) -> (r: bool)
    requires
        s_len == s@.len(),
        pat_len == pat@.len(),
        i + pat_len <= s_len,
    ensures
        r == occurs_at(s@, pat@, i as int),
{
    let mut j: usize = 0;
    while j < pat_len
        invariant
            s_len == s@.len(),
            pat_len == pat@.len(),
            i + pat_len <= s_len,
            j <= pat_len,
            forall|k: int| 0 <= k < j ==> s@[i + k] == pat@[k],
        decreases pat_len - j,
    {
        if s.get_char(i + j) != pat.get_char(j) {
            assert(s@.subrange(i as int, i + pat_len)[j as int] != pat@[j as int]);
            return false;
        }
        j += 1;
    }
    assert(s@.subrange(i as int, i + pat_len) =~= pat@);
    true
}

/// Whether `pat` occurs anywhere in `s`.
pub fn contains_str(s: &str, pat: &str) -> (r: bool)
    ensures
        r == contains(s@, pat@),
{
    let s_len = s.unicode_len();
    let pat_len = pat.unicode_len();
    if pat_len > s_len {
        return false;
    }
    let last = s_len - pat_len;
    let mut i: usize = 0;
    loop
        invariant
            s_len == s@.len(),
            pat_len == pat@.len(),
            last == s_len - pat_len,
            i <= last,
            forall|k: int| 0 <= k < i ==> !occurs_at(s@, pat@, k),
        decreases last - i,
    {
        if occurs_at_exec(s, s_len, pat, pat_len, i) {
            return true;
        }
        if i == last {
            return false;
        }
        i += 1;
    }
}

/// Whether a field with this filename is skipped: it is `.DS_Store` or holds
/// `.DS_Store` anywhere in its path.
pub fn is_ignored(filename: &str) -> (r: bool)
    ensures
        r == is_ignored_name(filename@),
{
    contains_str(filename, ".DS_Store")
}

/// The filename that a field is stored under.
pub fn field_filename(given: Option<&str>) -> (r: String)
    ensures
        r@ == field_name_of(
            match given {
                Some(n) => Some(n@),
                None => None,
            },
        ),
{
    match given {
        Some(n) => String::from_str(n),
        None => String::from_str("unnamed"),
    }
}

} // verus!
