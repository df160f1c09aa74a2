use crate::bytes::{append, ends_with, has_suffix, same_bytes};
use crate::error::ContainerError;
use vstd::bytes::{
    lemma_auto_spec_u64_to_from_le_bytes, spec_u64_from_le_bytes, spec_u64_to_le_bytes,
    u64_from_le_bytes, u64_to_le_bytes,
};
use vstd::prelude::*;
use vstd::slice::{slice_subrange, slice_to_vec};

verus! {

/// Size in bytes of the little-endian length field that precedes the marker.
pub const LENGTH_FIELD_SIZE: usize = 8;

/// Number of bytes in either format's marker.
pub const MAGIC_LEN: usize = 21;

/// Marker of the first format generation: the ASCII text `TUTORIALMAKER_DATA_V1`.
pub const MAGIC_BYTES: [u8; 21] = [
    84, 85, 84, 79, 82, 73, 65, 76, 77, 65, 75, 69, 82, 95, 68, 65, 84, 65, 95, 86, 49,
];

/// Marker of the second format generation: the ASCII text `TUTORIALMAKER_DATA_V2`.
pub const MAGIC_BYTES_V2: [u8; 21] = [
    84, 85, 84, 79, 82, 73, 65, 76, 77, 65, 75, 69, 82, 95, 68, 65, 84, 65, 95, 86, 50,
];

/// The marker that ends a file of the first format generation.
pub open spec fn v1_magic() -> Seq<u8> {
    MAGIC_BYTES@
}

/// The marker that ends a file of the second format generation.
pub open spec fn v2_magic() -> Seq<u8> {
    MAGIC_BYTES_V2@
}

/// The two markers have the same length and differ in their last byte.
pub proof fn lemma_magics_differ()
    ensures
        v1_magic().len() == 21,
        v2_magic().len() == 21,
        v1_magic() != v2_magic(),
        v1_magic().last() == 49u8,
        v2_magic().last() == 50u8,
{
    assert(v1_magic()[20] == 49u8);
    assert(v2_magic()[20] == 50u8);
}

/// The bytes of a trailer: the payload, its length as eight little-endian
/// bytes, then the marker.
pub open spec fn framed(payload: Seq<u8>, magic: Seq<u8>) -> Seq<u8> {
    payload + spec_u64_to_le_bytes(payload.len() as u64) + magic
}

/// The value of the length field of a file that ends with a marker of
/// `magic_len` bytes.
pub open spec fn length_field(file: Seq<u8>, magic_len: nat) -> u64
    recommends
        file.len() >= magic_len + 8,
{
    spec_u64_from_le_bytes(file.subrange(file.len() - magic_len - 8, file.len() - magic_len))
}

/// What a reader finds walking back from the end of `file`: the payload that
/// the trailer with marker `magic` frames, `FormatNotFound` where the file does
/// not end with the marker, `CorruptFormat` where it does and the length field
/// is missing or claims more bytes than precede it.
pub open spec fn payload_of(file: Seq<u8>, magic: Seq<u8>) -> Result<Seq<u8>, ContainerError> {
    if !ends_with(file, magic) {
        Err(ContainerError::FormatNotFound)
    } else if file.len() < magic.len() + 8 {
        Err(ContainerError::CorruptFormat)
    } else if length_field(file, magic.len()) + 8 + magic.len() > file.len() {
        Err(ContainerError::CorruptFormat)
    } else {
        let end = file.len() - magic.len() - 8;
        Ok(file.subrange(end - length_field(file, magic.len()), end))
    }
}

/// Builds the bytes of the trailer that frames `payload` under `magic`.
pub fn frame(payload: &[u8], magic: &[u8]) -> (r: Vec<u8>)
    ensures
        r@ == framed(payload@, magic@),
{
    let payload_len: u64 = payload.len() as u64;
    let mut out: Vec<u8> = Vec::new();
    append(&mut out, payload);
    let field = u64_to_le_bytes(payload_len);
    append(&mut out, field.as_slice());
    append(&mut out, magic);
    assert(out@ =~= framed(payload@, magic@));
    out
}

/// Appends the trailer that frames `payload` under `magic`.
pub fn write_framed(file: &mut Vec<u8>, payload: &[u8], magic: &[u8])
    ensures
        final(file)@ == old(file)@ + framed(payload@, magic@),
{
    let trailer = frame(payload, magic);
    append(file, trailer.as_slice());
}

/// Where the payload lies in a file of `file_size` bytes whose last bytes are
/// `tail`, as offset and length: the reader's verdict on the footer alone.
pub open spec fn payload_span(file_size: nat, tail: Seq<u8>, magic: Seq<u8>) -> Result<
    (int, int),
    ContainerError,
> {
    if !ends_with(tail, magic) {
        Err(ContainerError::FormatNotFound)
    } else if tail.len() < magic.len() + 8 {
        Err(ContainerError::CorruptFormat)
    } else if length_field(tail, magic.len()) + 8 + magic.len() > file_size {
        Err(ContainerError::CorruptFormat)
    } else {
        Ok(
            (
                file_size - magic.len() - 8 - length_field(tail, magic.len()),
                length_field(tail, magic.len()) as int,
            ),
        )
    }
}

/// Whether `tail` holds the last bytes of `file`, and enough of them for a
/// reader to judge the footer: the whole footer, or else the whole file.
pub open spec fn is_tail_of(tail: Seq<u8>, file: Seq<u8>, magic: Seq<u8>) -> bool {
    &&& ends_with(file, tail)
    &&& tail.len() == file.len() || tail.len() >= magic.len() + 8
}

/// The verdict on the footer is the verdict on the file: the span that the
/// tail yields is where the payload of the whole file lies, and the tail's
/// error is the file's.
pub proof fn lemma_span_locates_payload(file: Seq<u8>, tail: Seq<u8>, magic: Seq<u8>)
    requires
        is_tail_of(tail, file, magic),
    ensures
        match payload_span(file.len(), tail, magic) {
            Ok((start, len)) => 0 <= start && 0 <= len && start + len + 8 + magic.len()
                == file.len() && payload_of(file, magic) == Ok::<Seq<u8>, ContainerError>(
                file.subrange(start, start + len),
            ),
            Err(e) => payload_of(file, magic) == Err::<Seq<u8>, ContainerError>(e),
        },
{
    let skip = file.len() - tail.len();
    assert(file.subrange(skip, file.len() as int) == tail);
    if magic.len() <= tail.len() {
        assert(tail.subrange(tail.len() - magic.len(), tail.len() as int) =~= file.subrange(
            file.len() - magic.len(),
            file.len() as int,
        ));
        if tail.len() >= magic.len() + 8 {
            assert(tail.subrange(tail.len() - magic.len() - 8, tail.len() - magic.len())
                =~= file.subrange(file.len() - magic.len() - 8, file.len() - magic.len()));
        }
    }
}

/// How many trailing bytes of a file of `file_size` bytes a reader has to
/// fetch to judge either format's footer: all 29 of it, or the whole file
/// where the file is shorter.
pub fn tail_size(file_size: u64) -> (n: u64)
    ensures
        n == if file_size < 29 {
            file_size
        } else {
            29
        },
{
    let footer: u64 = (LENGTH_FIELD_SIZE + MAGIC_LEN) as u64;
    if file_size < footer {
        file_size
    } else {
        footer
    }
}

/// Judges the footer of a file of `file_size` bytes from its last bytes,
/// walking back from the end: marker, then length field. Returns the offset
/// and the length of the payload.
pub fn locate_payload(file_size: u64, tail: &[u8], magic: &[u8]) -> (r: Result<
    (u64, u64),
    ContainerError,
>)
    ensures
        match r {
            Ok((start, len)) => payload_span(file_size as nat, tail@, magic@) == Ok::<
                (int, int),
                ContainerError,
            >((start as int, len as int)),
            Err(e) => payload_span(file_size as nat, tail@, magic@) == Err::<
                (int, int),
                ContainerError,
            >(e),
        },
{
    if !has_suffix(tail, magic) {
        return Err(ContainerError::FormatNotFound);
    }
    let field_end: usize = tail.len() - magic.len();
    if field_end < LENGTH_FIELD_SIZE {
        return Err(ContainerError::CorruptFormat);
    }
    let payload_len: u64 = u64_from_le_bytes(
        slice_subrange(tail, field_end - LENGTH_FIELD_SIZE, field_end),
    );
    let footer: u64 = (magic.len() + LENGTH_FIELD_SIZE) as u64;
    if file_size < footer || payload_len > file_size - footer {
        return Err(ContainerError::CorruptFormat);
    }
    Ok((file_size - footer - payload_len, payload_len))
}

/// Finds the payload that the trailer with marker `magic` frames in a file
/// held in memory. Returns the offsets at which the payload starts and ends.
pub fn locate_framed(file: &[u8], magic: &[u8]) -> (r: Result<(usize, usize), ContainerError>)
    ensures
        match r {
            Ok((start, end)) => start <= end <= file@.len() && payload_of(file@, magic@) == Ok::<
                Seq<u8>,
                ContainerError,
            >(file@.subrange(start as int, end as int)),
            Err(e) => payload_of(file@, magic@) == Err::<Seq<u8>, ContainerError>(e),
        },
{
    proof {
        assert(file@.subrange(0, file@.len() as int) =~= file@);
        lemma_span_locates_payload(file@, file@, magic@);
    }
    match locate_payload(file.len() as u64, file, magic) {
        Ok((start, len)) => Ok((start as usize, (start + len) as usize)),
        Err(e) => Err(e),
    }
}

/// Reads the payload that the trailer with marker `magic` frames.
pub fn read_framed(file: &[u8], magic: &[u8]) -> (r: Result<Vec<u8>, ContainerError>)
    ensures
        same_bytes(r, payload_of(file@, magic@)),
{
    match locate_framed(file, magic) {
        Ok((start, end)) => Ok(slice_to_vec(slice_subrange(file, start, end))),
        Err(e) => Err(e),
    }
}

/// Reading back what was written: whatever the host file, a trailer yields its
/// payload again under its own marker.
pub proof fn lemma_framed_round_trip(host: Seq<u8>, payload: Seq<u8>, magic: Seq<u8>)
    requires
        payload.len() <= u64::MAX,
    ensures
        payload_of(host + framed(payload, magic), magic) == Ok::<Seq<u8>, ContainerError>(payload),
{
    lemma_auto_spec_u64_to_from_le_bytes();
    let field = spec_u64_to_le_bytes(payload.len() as u64);
    let file = host + framed(payload, magic);
    assert(file.subrange(file.len() - magic.len(), file.len() as int) =~= magic);
    assert(file.subrange(file.len() - magic.len() - 8, file.len() - magic.len()) =~= field);
    let end = file.len() - magic.len() - 8;
    assert(file.subrange(end - payload.len(), end) =~= payload);
}

/// A file that ends with one marker does not end with a different marker of
/// the same length.
pub proof fn lemma_markers_exclude(file: Seq<u8>, magic: Seq<u8>, other: Seq<u8>)
    requires
        ends_with(file, magic),
        magic.len() == other.len(),
        magic != other,
    ensures
        !ends_with(file, other),
        payload_of(file, other) == Err::<Seq<u8>, ContainerError>(ContainerError::FormatNotFound),
{
}

} // verus!
