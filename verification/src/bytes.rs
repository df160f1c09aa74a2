use crate::error::ContainerError;
use vstd::prelude::*;
use vstd::slice::{slice_subrange, slice_to_vec};

verus! {

/// What reading `len` bytes from offset `start` of `file` yields: the bytes, or
/// `IoError` where the span does not lie within the file.
pub open spec fn range_of(file: Seq<u8>, start: u64, len: u64) -> Result<Seq<u8>, ContainerError> {
    if start + len <= file.len() {
        Ok(file.subrange(start as int, start + len))
    } else {
        Err(ContainerError::IoError)
    }
}

/// Whether `file` ends with the bytes of `marker`.
pub open spec fn ends_with(file: Seq<u8>, marker: Seq<u8>) -> bool {
    marker.len() <= file.len() && file.subrange(file.len() - marker.len(), file.len() as int)
        == marker
}

/// Whether an executable result holds the bytes, or the error, of `expected`.
pub open spec fn same_bytes(
    got: Result<Vec<u8>, ContainerError>,
    expected: Result<Seq<u8>, ContainerError>,
) -> bool {
    match got {
        Ok(v) => expected == Ok::<Seq<u8>, ContainerError>(v@),
        Err(e) => expected == Err::<Seq<u8>, ContainerError>(e),
    }
}

/// Tells whether the `len` bytes from offset `start` lie within a file of
/// `file_size` bytes.
pub fn span_fits(file_size: u64, start: u64, len: u64) -> (r: bool)
    ensures
        r == (start + len <= file_size),
{
    start <= file_size && len <= file_size - start
}

/// Reads exactly `len` bytes of `file` from offset `start`. Either the whole
/// span is returned or `IoError` is; the file is never changed.
pub fn read_range(file: &[u8], start: u64, len: u64) -> (r: Result<Vec<u8>, ContainerError>)
    ensures
        same_bytes(r, range_of(file@, start, len)),
{
    if !span_fits(file.len() as u64, start, len) {
        return Err(ContainerError::IoError);
    }
    let from: usize = start as usize;
    let to: usize = (start + len) as usize;
    Ok(slice_to_vec(slice_subrange(file, from, to)))
}

/// Appends `bytes` at the end of `file`. No byte that was there is touched.
pub fn append(file: &mut Vec<u8>, bytes: &[u8])
    ensures
        final(file)@ == old(file)@ + bytes@,
{
    file.extend_from_slice(bytes);
    assert(file@ =~= old(file)@ + bytes@);
}

/// Tells whether `file` ends with `marker`, by comparing the trailing bytes.
pub fn has_suffix(file: &[u8], marker: &[u8]) -> (r: bool)
    ensures
        r == ends_with(file@, marker@),
{
    let n: usize = marker.len();
    if file.len() < n {
        return false;
    }
    let base: usize = file.len() - n;
    let mut i: usize = 0;
    while i < n
        invariant
            n == marker@.len(),
            base + n == file@.len(),
            file@.len() <= usize::MAX,
            i <= n,
            forall|k: int| 0 <= k < i ==> file@[base + k] == marker@[k],
        decreases n - i,
    {
        if file[base + i] != marker[i] {
            assert(file@.subrange(base as int, file@.len() as int)[i as int] != marker@[i as int]);
            return false;
        }
        i += 1;
    }
    assert(file@.subrange(base as int, file@.len() as int) =~= marker@);
    true
}

} // verus!
