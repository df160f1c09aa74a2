use vstd::prelude::*;

verus! {

/// A template executable counts as usable only above this size in bytes.
pub const MIN_TEMPLATE_SIZE: u64 = 1_000_000;

/// Whether a candidate is a usable template: the file is there, as `Some` of
/// its size, and is larger than [`MIN_TEMPLATE_SIZE`].
pub open spec fn usable_template(size: Option<u64>) -> bool {
    match size {
        Some(n) => n > MIN_TEMPLATE_SIZE,
        None => false,
    }
}

/// Whether candidate `i` is the first usable one.
pub open spec fn is_first_usable(candidates: Seq<Option<u64>>, i: int) -> bool {
    &&& 0 <= i < candidates.len()
    &&& usable_template(candidates[i])
    &&& forall|j: int| 0 <= j < i ==> !usable_template(#[trigger] candidates[j])
}

/// Tells whether a file of the given size, `None` for a file that is not
/// there, can serve as the template executable.
pub fn is_valid_exe(size: Option<u64>) -> (r: bool)
    ensures
        r == usable_template(size),
{
    match size {
        Some(n) => n > MIN_TEMPLATE_SIZE,
        None => false,
    }
}

/// Picks the template among the candidate locations, given the size of the
/// file at each in search order: the first usable one.
pub fn find_bundled_template(candidates: &Vec<Option<u64>>) -> (r: Option<usize>)
    ensures
        match r {
            Some(i) => is_first_usable(candidates@, i as int),
            None => forall|j: int|
                0 <= j < candidates@.len() ==> !usable_template(#[trigger] candidates@[j]),
        },
{
    let n: usize = candidates.len();
    let mut i: usize = 0;
    while i < n
        invariant
            n == candidates@.len(),
            i <= n,
            forall|j: int| 0 <= j < i ==> !usable_template(#[trigger] candidates@[j]),
        decreases n - i,
    {
        if is_valid_exe(candidates[i]) {
            return Some(i);
        }
        i += 1;
    }
    None
}

} // verus!
