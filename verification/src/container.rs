use crate::bytes::same_bytes;
use crate::dispatch::{
    decoded_view, list_assets_decoded, load_asset_decoded, load_project_decoded, loaded_asset,
    loose_view, opened_manifest, project_of,
};
use crate::error::ContainerError;
use crate::manifest::{entry_views, BuildManifest, ManifestView, MediaManifestEntry};
use crate::text::same_string;
use crate::trailer::{payload_of, v2_magic};
use crate::v2::{
    append_binary_data_v2, append_manifest, embedded_blobs, planned_manifest,
    read_manifest_from_exe, source_views, written_v2, MediaSource,
};
use vstd::prelude::*;
use vstd::utf8::encode_utf8;

verus! {

/// Whether `decoded` is what the decoder can have made of the serialized
/// manifest of `file`: one of its results on those bytes where the trailer is
/// sound, nothing where it is not, since the decoder is then never called.
pub open spec fn decoded_by<D: Fn(&[u8]) -> Option<BuildManifest>>(
    decode: D,
    file: Seq<u8>,
    decoded: Option<BuildManifest>,
) -> bool {
    match payload_of(file, v2_magic()) {
        Ok(json) => exists|bytes: &[u8]| bytes@ == json && #[trigger] call_ensures(
            decode,
            (bytes,),
            decoded,
        ),
        Err(_) => decoded.is_none(),
    }
}

/// Runs the decoder on the serialized manifest of `file`, if the trailer
/// yields one.
pub fn decode_manifest<D: Fn(&[u8]) -> Option<BuildManifest>>(file: &[u8], decode: D) -> (r:
    Option<BuildManifest>)
    requires
        forall|bytes: &[u8]| call_requires(decode, (bytes,)),
    ensures
        decoded_by(decode, file@, r),
{
    match read_manifest_from_exe(file) {
        Ok(json) => decode(json.as_slice()),
        Err(_) => None,
    }
}

/// Embeds a project and its media into `file` in one append-only pass: the
/// blobs of the sources that exist, the project JSON, the manifest as
/// `encode` serializes it, the manifest's length, the marker. On `IoError`
/// the container would not fit in 64-bit offsets, and the file is unchanged.
pub fn embed<E: Fn(&BuildManifest) -> Vec<u8>>(
    file: &mut Vec<u8>,
    project_json: &str,
    media: &Vec<MediaSource>,
    encode: E,
) -> (r: Result<(), ContainerError>)
    requires
        forall|m: &BuildManifest| call_requires(encode, (m,)),
    ensures
        match r {
            Ok(_) => exists|m: &BuildManifest, json: Vec<u8>|
                {
                    &&& m@ == planned_manifest(
                        old(file)@.len(),
                        encode_utf8(project_json@),
                        source_views(media@),
                    )
                    &&& #[trigger] call_ensures(encode, (m,), json)
                    &&& final(file)@ == written_v2(
                        old(file)@,
                        project_json@,
                        source_views(media@),
                        json@,
                    )
                },
            Err(e) => {
                &&& e == ContainerError::IoError
                &&& final(file)@ == old(file)@
                &&& old(file)@.len() + embedded_blobs(source_views(media@)).len() + encode_utf8(
                    project_json@,
                ).len() > u64::MAX
            },
        },
{
    match append_binary_data_v2(file, project_json, media) {
        Ok(manifest) => {
            let json = encode(&manifest);
            append_manifest(file, json.as_slice());
            Ok(())
        },
        Err(e) => Err(e),
    }
}

/// Loads the project text of `file`: from the newer container, whose
/// manifest `decode` deserializes, else from the older trailer, else from
/// the loose project file.
pub fn load_project<D: Fn(&[u8]) -> Option<BuildManifest>>(
    file: &[u8],
    decode: D,
    loose: Option<&[u8]>,
) -> (r: Result<String, ContainerError>)
    requires
        forall|bytes: &[u8]| call_requires(decode, (bytes,)),
    ensures
        exists|decoded: Option<BuildManifest>|
            #[trigger] decoded_by(decode, file@, decoded) && same_string(
                r,
                project_of(file@, decoded_view(decoded), loose_view(loose)),
            ),
{
    let decoded = decode_manifest(file, decode);
    load_project_decoded(file, &decoded, loose)
}

/// Loads one embedded asset of `file` by id.
pub fn load_asset<D: Fn(&[u8]) -> Option<BuildManifest>>(file: &[u8], decode: D, id: &str) -> (r:
    Result<Vec<u8>, ContainerError>)
    requires
        forall|bytes: &[u8]| call_requires(decode, (bytes,)),
    ensures
        exists|decoded: Option<BuildManifest>|
            #[trigger] decoded_by(decode, file@, decoded) && same_bytes(
                r,
                loaded_asset(file@, decoded_view(decoded), id@),
            ),
{
    let decoded = decode_manifest(file, decode);
    load_asset_decoded(file, &decoded, id)
}

/// Lists the media entries of `file`, in manifest order.
pub fn list_assets<D: Fn(&[u8]) -> Option<BuildManifest>>(file: &[u8], decode: D) -> (r: Result<
    Vec<MediaManifestEntry>,
    ContainerError,
>)
    requires
        forall|bytes: &[u8]| call_requires(decode, (bytes,)),
    ensures
        exists|decoded: Option<BuildManifest>|
            #[trigger] decoded_by(decode, file@, decoded) && match r {
                Ok(entries) => opened_manifest(file@, decoded_view(decoded)).is_ok()
                    && entry_views(entries@) == opened_manifest(
                    file@,
                    decoded_view(decoded),
                ).unwrap().media,
                Err(e) => opened_manifest(file@, decoded_view(decoded)) == Err::<
                    ManifestView,
                    ContainerError,
                >(e),
            },
{
    let decoded = decode_manifest(file, decode);
    list_assets_decoded(file, &decoded)
}

} // verus!
