use crate::bytes::same_bytes;
use crate::error::ContainerError;
use crate::trailer::{
    frame, framed, payload_of, read_framed, v1_magic, write_framed, MAGIC_BYTES,
};
use vstd::prelude::*;

verus! {

/// The file that the writer of the first generation leaves.
pub open spec fn written_v1(host: Seq<u8>, payload: Seq<u8>) -> Seq<u8> {
    host + framed(payload, v1_magic())
}

/// The bytes that the writer of the first generation appends for `data`.
pub fn data_trailer(data: &[u8]) -> (r: Vec<u8>)
    ensures
        r@ == framed(data@, v1_magic()),
{
    frame(data, MAGIC_BYTES.as_slice())
}

/// Appends `data` as the single payload of a first-generation trailer: the
/// data, its length, the marker. The bytes already in `file` stay as they are.
pub fn append_data_to_exe(file: &mut Vec<u8>, data: &[u8])
    ensures
        final(file)@ == old(file)@ + framed(data@, v1_magic()),
{
    write_framed(file, data, MAGIC_BYTES.as_slice());
}

/// Reads the payload of a first-generation trailer from the end of `file`.
pub fn read_data_from_exe(file: &[u8]) -> (r: Result<Vec<u8>, ContainerError>)
    ensures
        same_bytes(r, payload_of(file@, v1_magic())),
{
    read_framed(file, MAGIC_BYTES.as_slice())
}

} // verus!
