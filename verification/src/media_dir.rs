use vstd::prelude::*;
use vstd::utf8::encode_utf8;

verus! {

/// Whether `s` begins with the bytes of `prefix`.
pub open spec fn is_prefix(prefix: Seq<u8>, s: Seq<u8>) -> bool {
    prefix.len() <= s.len() && s.subrange(0, prefix.len() as int) == prefix
}

/// Whether the UTF-8 bytes of `name` begin with those of `prefix`.
pub open spec fn name_matches(name: Seq<char>, prefix: Seq<char>) -> bool {
    is_prefix(encode_utf8(prefix), encode_utf8(name))
}

/// Whether entry `i` is the first of `names` that begins with `media_id`.
pub open spec fn is_first_named(names: Seq<String>, media_id: Seq<char>, i: int) -> bool {
    &&& 0 <= i < names.len()
    &&& name_matches(names[i]@, media_id)
    &&& forall|j: int| 0 <= j < i ==> !name_matches((#[trigger] names[j])@, media_id)
}

/// Tells whether a file name begins with a media id.
pub fn starts_with(name: &str, prefix: &str) -> (r: bool)
    ensures
        r == name_matches(name@, prefix@),
{
    let s = name.as_bytes();
    let p = prefix.as_bytes();
    let n: usize = p.len();
    if s.len() < n {
        return false;
    }
    let mut i: usize = 0;
    while i < n
        invariant
            n == p@.len(),
            n <= s@.len(),
            i <= n,
            s@ == encode_utf8(name@),
            p@ == encode_utf8(prefix@),
            forall|k: int| 0 <= k < i ==> s@[k] == p@[k],
        decreases n - i,
    {
        if s[i] != p[i] {
            assert(s@.subrange(0, n as int)[i as int] != p@[i as int]);
            return false;
        }
        i += 1;
    }
    assert(s@.subrange(0, n as int) =~= p@);
    true
}

/// Finds a loose media file by id among the names of a media directory, in
/// the order in which the directory listed them: the first whose name begins
/// with the id.
pub fn get_media_path(names: &Vec<String>, media_id: &str) -> (r: Option<usize>)
    ensures
        match r {
            Some(i) => is_first_named(names@, media_id@, i as int),
            None => forall|j: int|
                0 <= j < names@.len() ==> !name_matches((#[trigger] names@[j])@, media_id@),
        },
{
    let n: usize = names.len();
    let mut i: usize = 0;
    while i < n
        invariant
            n == names@.len(),
            i <= n,
            forall|j: int| 0 <= j < i ==> !name_matches((#[trigger] names@[j])@, media_id@),
        decreases n - i,
    {
        if starts_with(names[i].as_str(), media_id) {
            return Some(i);
        }
        i += 1;
    }
    None
}

} // verus!
