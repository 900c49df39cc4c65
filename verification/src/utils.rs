//! Small path and payload helpers used around session creation and writes.

use vstd::prelude::*;

verus! {

/// Writes to a session go to the writer handle in bounded chunks of at most
/// this many bytes, avoiding unbounded single syscalls.
pub const WRITE_CHUNK_SIZE: usize = 4096;

/// Relies on `str::chars`: the characters of the slice, in order — exactly
/// the slice's view.
#[verifier::external_body]
fn str_chars(s: &str) -> (r: Vec<char>)
    ensures
        r@ == s@,
{
    s.chars().collect()
}

/// Relies on `String`'s `FromIterator<char>`: collecting characters yields
/// the string with exactly those characters.
#[verifier::external_body]
fn string_from_chars(v: &Vec<char>) -> (r: String)
    ensures
        r@ == v@,
{
    v.iter().collect()
}

/// Normalize a path to the forward-slash separator (the non-Windows form):
/// every backslash becomes a forward slash, all other characters stay.
pub fn normalize_path(path: &str) -> (r: String)
    ensures
        r@ == path@.map_values(
            |c: char|
                if c == '\\' {
                    '/'
                } else {
                    c
                },
        ),
{
    let chars = str_chars(path);
    let mut mapped: Vec<char> = Vec::new();
    let mut i: usize = 0;
    while i < chars.len()
        invariant
            i <= chars@.len(),
            mapped@.len() == i,
            forall|j: int|
                0 <= j < i ==> mapped@[j] == (if chars@[j] == '\\' {
                    '/'
                } else {
                    chars@[j]
                }),
        decreases chars@.len() - i,
    {
        let c = chars[i];
        if c == '\\' {
            mapped.push('/');
        } else {
            mapped.push(c);
        }
        i = i + 1;
    }
    let r = string_from_chars(&mapped);
    proof {
        assert(r@ =~= path@.map_values(
            |c: char|
                if c == '\\' {
                    '/'
                } else {
                    c
                },
        ));
    }
    r
}

/// What `std::path::Path::parent` returns for a path given as text: the
/// parent directory, or nothing when the path is empty or ends in a root.
/// A function of the path's characters alone.
pub uninterp spec fn parent_of(path: Seq<char>) -> Option<Seq<char>>;

/// Relies on `std::path::Path::parent` (with lossless conversion of a path
/// that came from UTF-8): the path's parent directory, and `None` at least
/// for the empty path, as std documents.
#[verifier::external_body]
pub fn get_parent_dir(path: &str) -> (r: Option<String>)
    ensures
        match r {
            Some(p) => parent_of(path@) == Some(p@),
            None => parent_of(path@) is None,
        },
        path@.len() == 0 ==> r is None,
{
    std::path::PathBuf::from(path).parent().map(|p| p.to_string_lossy().to_string())
}

/// The current user's home directory, from the platform lookup the caller
/// performed; absence becomes the one error this query has.
pub fn get_home_dir(home: Option<String>) -> (r: Result<String, String>)
    ensures
        match home {
            Some(h) => r matches Ok(p) && p@ == h@,
            None => r matches Err(e) && e@ == "Could not determine home directory"@,
        },
{
    match home {
        Some(h) => Ok(h),
        None => Err("Could not determine home directory".to_owned()),
    }
}

/// The half-open ranges in which a payload of `len` bytes is written: they
/// tile `[0, len)` in order and each spans at most [`WRITE_CHUNK_SIZE`]
/// bytes; an empty payload needs no write at all.
pub fn chunk_ranges(len: usize) -> (r: Vec<(usize, usize)>)
    ensures
        len == 0 ==> r@.len() == 0,
        len > 0 ==> r@.len() > 0 && r@[0].0 == 0 && r@[r@.len() - 1].1 == len,
        forall|i: int|
            0 <= i < r@.len() ==> (#[trigger] r@[i]).0 < r@[i].1 && r@[i].1 <= len && r@[i].1
                - r@[i].0 <= WRITE_CHUNK_SIZE,
        forall|i: int| 0 <= i < r@.len() - 1 ==> (#[trigger] r@[i]).1 == r@[i + 1].0,
{
    let mut r: Vec<(usize, usize)> = Vec::new();
    let mut start: usize = 0;
    while start < len
        invariant
            start <= len,
            len > 0 && start > 0 ==> r@.len() > 0 && r@[0].0 == 0 && r@[r@.len() - 1].1 == start,
            start == 0 ==> r@.len() == 0,
            forall|i: int|
                0 <= i < r@.len() ==> (#[trigger] r@[i]).0 < r@[i].1 && r@[i].1 <= start && r@[i].1
                    - r@[i].0 <= WRITE_CHUNK_SIZE,
            forall|i: int| 0 <= i < r@.len() - 1 ==> (#[trigger] r@[i]).1 == r@[i + 1].0,
        decreases len - start,
    {
        let end = if len - start > WRITE_CHUNK_SIZE {
            start + WRITE_CHUNK_SIZE
        } else {
            len
        };
        r.push((start, end));
        start = end;
    }
    r
}

} // verus!
