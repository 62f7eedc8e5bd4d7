use crate::naming::{contains, contains_str};
use vstd::prelude::*;
use vstd::string::*;

verus! {

/// `bucket.s3.region.amazonaws.com`.
pub open spec fn object_host_of(bucket: Seq<char>, region: Seq<char>) -> Seq<char> {
    bucket + ".s3."@ + region + ".amazonaws.com"@
}

/// `https://bucket.s3.region.amazonaws.com/key`, the key taken verbatim.
pub open spec fn object_url_of(bucket: Seq<char>, region: Seq<char>, key: Seq<char>) -> Seq<char> {
    "https://"@ + object_host_of(bucket, region) + "/"@ + key
}

/// The local path of a file: the base directory joined with the filename.
pub open spec fn local_path_of(base: Seq<char>, filename: Seq<char>) -> Seq<char> {
    base + "/"@ + filename
}

/// Position `i` holds the last `/` of `p`.
pub open spec fn is_last_slash(p: Seq<char>, i: int) -> bool {
    0 <= i < p.len() && p[i] == '/' && forall|k: int| i < k < p.len() ==> p[k] != '/'
}

/// The filename climbs out of the directory it is stored under, or is absolute:
/// it is empty, starts with `/`, or has a `..` segment.
pub open spec fn escapes_base(name: Seq<char>) -> bool {
    ||| name.len() == 0
    ||| name[0] == '/'
    ||| name == ".."@
    ||| (name.len() >= 3 && name.subrange(0, 3) == "../"@)
    ||| (name.len() >= 3 && name.subrange(name.len() - 3, name.len() as int) == "/.."@)
    ||| contains(name, "/../"@)
}

/// The host name of a bucket's endpoint.
pub fn object_host(bucket: &str, region: &str) -> (r: String)
    ensures
        r@ == object_host_of(bucket@, region@),
{
    let mut r = String::from_str(bucket);
    r.append(".s3.");
    r.append(region);
    r.append(".amazonaws.com");
    r
}

/// The URL of the object stored under `key`.
pub fn object_url(bucket: &str, region: &str, key: &str) -> (r: String)
    ensures
        r@ == object_url_of(bucket@, region@, key@),
{
    let host = object_host(bucket, region);
    let mut r = String::from_str("https://");
    r.append(host.as_str());
    r.append("/");
    r.append(key);
    r
}

/// The local path of a file under the base directory.
pub fn local_path(base: &str, filename: &str) -> (r: String)
    ensures
        r@ == local_path_of(base@, filename@),
{
    let mut r = String::from_str(base);
    r.append("/");
    r.append(filename);
    r
}

/// The directory part of a path: all before its last `/`, or `None` where it has
/// none.
pub fn parent_dir(path: &str) -> (r: Option<String>)
    ensures
        r is None <==> forall|k: int| 0 <= k < path@.len() ==> path@[k] != '/',
        r matches Some(q) ==> exists|i: int| is_last_slash(path@, i) && q@ == path@.subrange(0, i),
{
    let n = path.unicode_len();
    let mut i: usize = n;
    while i > 0
        invariant
            n == path@.len(),
            i <= n,
            forall|k: int| i <= k < n ==> path@[k] != '/',
        decreases i,
    {
        if path.get_char(i - 1) == '/' {
            let q = path.substring_char(0, i - 1);
            assert(is_last_slash(path@, i - 1));
            return Some(String::from_str(q));
        }
        i -= 1;
    }
    None
}

fn ends_with_parent_segment(name: &str, n: usize) -> (r: bool)
    requires
        n == name@.len(),
        n >= 3,
    ensures
        r == (name@.subrange(n - 3, n as int) == "/.."@),
{
    proof {
        reveal_strlit("/..");
    }
    let tail = name.substring_char(n - 3, n);
    let r = tail.get_char(0) == '/' && tail.get_char(1) == '.' && tail.get_char(2) == '.';
    assert(r ==> tail@ =~= "/.."@);
    r
}

fn starts_with_parent_segment(name: &str, n: usize) -> (r: bool)
    requires
        n == name@.len(),
        n >= 3,
    ensures
        r == (name@.subrange(0, 3) == "../"@),
{
    proof {
        reveal_strlit("../");
    }
    let head = name.substring_char(0, 3);
    let r = head.get_char(0) == '.' && head.get_char(1) == '.' && head.get_char(2) == '/';
    assert(r ==> head@ =~= "../"@);
    r
}

/// Whether a filename would be stored outside the base directory or bucket
/// prefix it is meant for.
pub fn escapes(name: &str) -> (r: bool)
    ensures
        r == escapes_base(name@),
{
    proof {
        reveal_strlit("..");
    }
    let n = name.unicode_len();
    if n == 0 {
        return true;
    }
    if name.get_char(0) == '/' {
        return true;
    }
    if n == 2 && name.get_char(0) == '.' && name.get_char(1) == '.' {
        assert(name@ =~= ".."@);
        return true;
    }
    if n >= 3 && (starts_with_parent_segment(name, n) || ends_with_parent_segment(name, n)) {
        return true;
    }
    contains_str(name, "/../")
}

} // verus!
