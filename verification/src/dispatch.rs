use crate::bytes::{ends_with, has_suffix, same_bytes};
use crate::error::ContainerError;
use crate::manifest::{entry_views, BuildManifest, ManifestView, MediaManifestEntry};
use crate::text::{decode_text, same_string, text_of};
use crate::trailer::{
    locate_framed, payload_of, v1_magic, v2_magic, MAGIC_BYTES, MAGIC_BYTES_V2,
};
use crate::v1::read_data_from_exe;
use crate::v2::{asset_of, project_json_of, read_asset, read_project_json};
use vstd::prelude::*;
use vstd::slice::slice_to_vec;

verus! {

/// The generation of a container, told by its trailing marker alone.
#[derive(Debug, Clone, Copy, PartialEq, Eq, Structural)]
pub enum ContainerFormat {
    V1,
    V2,
}

/// Where the reader stands in its fixed order of candidates.
#[derive(Debug, Clone, Copy, PartialEq, Eq, Structural)]
pub enum DispatchState {
    /// Try the manifest-indexed container.
    TryV2,
    /// Try the single-payload trailer.
    TryV1,
    /// Try the loose project file beside the executable.
    TryLooseFile,
    /// Nothing is left to try.
    Fail,
}

/// What the reader does once a candidate has reported.
#[derive(Debug, PartialEq, Eq)]
pub enum DispatchStep {
    /// The reader is done: this is what it returns.
    Finished(Result<String, ContainerError>),
    /// The candidate's marker was not there: try this one next.
    Continue(DispatchState),
}

/// The generation whose marker ends `file`, the newer one first.
pub open spec fn format_of(file: Seq<u8>) -> Option<ContainerFormat> {
    if ends_with(file, v2_magic()) {
        Some(ContainerFormat::V2)
    } else if ends_with(file, v1_magic()) {
        Some(ContainerFormat::V1)
    } else {
        None
    }
}

/// The value of a decoded manifest, if the decoder produced one.
pub open spec fn decoded_view(decoded: Option<BuildManifest>) -> Option<ManifestView> {
    match decoded {
        Some(m) => Some(m@),
        None => None,
    }
}

/// The bytes of the loose project file, if there is one.
pub open spec fn loose_view(loose: Option<&[u8]>) -> Option<Seq<u8>> {
    match loose {
        Some(b) => Some(b@),
        None => None,
    }
}

/// The manifest of `file`, given what the decoder made of its serialized
/// form: the trailer's own error where the trailer is absent or damaged,
/// `CorruptFormat` where the trailer is sound and the decoder failed.
pub open spec fn opened_manifest(file: Seq<u8>, decoded: Option<ManifestView>) -> Result<
    ManifestView,
    ContainerError,
> {
    match payload_of(file, v2_magic()) {
        Ok(_) => match decoded {
            Some(m) => Ok(m),
            None => Err(ContainerError::CorruptFormat),
        },
        Err(e) => Err(e),
    }
}

/// What one candidate yields on its own.
pub open spec fn attempt_of(
    state: DispatchState,
    file: Seq<u8>,
    decoded: Option<ManifestView>,
    loose: Option<Seq<u8>>,
) -> Result<Seq<char>, ContainerError> {
    match state {
        DispatchState::TryV2 => match opened_manifest(file, decoded) {
            Ok(m) => project_json_of(file, m),
            Err(e) => Err(e),
        },
        DispatchState::TryV1 => match payload_of(file, v1_magic()) {
            Ok(bytes) => text_of(bytes),
            Err(e) => Err(e),
        },
        DispatchState::TryLooseFile => match loose {
            Some(bytes) => text_of(bytes),
            None => Err(ContainerError::FormatNotFound),
        },
        DispatchState::Fail => Err(ContainerError::NoProjectData),
    }
}

/// The candidate that follows `state`.
pub open spec fn successor(state: DispatchState) -> DispatchState {
    match state {
        DispatchState::TryV2 => DispatchState::TryV1,
        DispatchState::TryV1 => DispatchState::TryLooseFile,
        DispatchState::TryLooseFile => DispatchState::Fail,
        DispatchState::Fail => DispatchState::Fail,
    }
}

/// Number of candidates after `state`.
pub open spec fn steps_left(state: DispatchState) -> nat {
    match state {
        DispatchState::TryV2 => 3,
        DispatchState::TryV1 => 2,
        DispatchState::TryLooseFile => 1,
        DispatchState::Fail => 0,
    }
}

/// What the reader returns when it starts at `state`: the candidate's own
/// result, unless that is `FormatNotFound`, which alone sends the reader on to
/// the next candidate.
pub open spec fn outcome_from(
    state: DispatchState,
    file: Seq<u8>,
    decoded: Option<ManifestView>,
    loose: Option<Seq<u8>>,
) -> Result<Seq<char>, ContainerError>
    decreases steps_left(state),
{
    let result = attempt_of(state, file, decoded, loose);
    if state != DispatchState::Fail && result == Err::<Seq<char>, ContainerError>(
        ContainerError::FormatNotFound,
    ) {
        outcome_from(successor(state), file, decoded, loose)
    } else {
        result
    }
}

/// The project text of `file`: the reader's outcome from its first candidate.
pub open spec fn project_of(
    file: Seq<u8>,
    decoded: Option<ManifestView>,
    loose: Option<Seq<u8>>,
) -> Result<Seq<char>, ContainerError> {
    outcome_from(DispatchState::TryV2, file, decoded, loose)
}

/// The asset `id` of `file`: found through the manifest, or the error that
/// opening the manifest gave.
pub open spec fn loaded_asset(
    file: Seq<u8>,
    decoded: Option<ManifestView>,
    id: Seq<char>,
) -> Result<Seq<u8>, ContainerError> {
    match opened_manifest(file, decoded) {
        Ok(m) => asset_of(file, m, id),
        Err(e) => Err(e),
    }
}

impl DispatchState {
    /// The candidate to try after this one.
    pub fn next(self) -> (r: DispatchState)
        ensures
            r == successor(self),
    {
        match self {
            DispatchState::TryV2 => DispatchState::TryV1,
            DispatchState::TryV1 => DispatchState::TryLooseFile,
            DispatchState::TryLooseFile => DispatchState::Fail,
            DispatchState::Fail => DispatchState::Fail,
        }
    }
}

/// Decides what follows the report `outcome` of the candidate `state`: a
/// missing marker sends the reader to the next candidate; a success, or any
/// other error, ends the run and is handed on unchanged.
pub fn advance(state: DispatchState, outcome: Result<String, ContainerError>) -> (step:
    DispatchStep)
    ensures
        step == if state != DispatchState::Fail && outcome == Err::<String, ContainerError>(
            ContainerError::FormatNotFound,
        ) {
            DispatchStep::Continue(successor(state))
        } else {
            DispatchStep::Finished(outcome)
        },
{
    match state {
        DispatchState::Fail => DispatchStep::Finished(outcome),
        _ => match outcome {
            Err(ContainerError::FormatNotFound) => DispatchStep::Continue(state.next()),
            _ => DispatchStep::Finished(outcome),
        },
    }
}

/// Tells the generation of `file` by inspecting its trailing bytes.
pub fn detect_format(file: &[u8]) -> (r: Option<ContainerFormat>)
    ensures
        r == format_of(file@),
{
    if has_suffix(file, MAGIC_BYTES_V2.as_slice()) {
        Some(ContainerFormat::V2)
    } else if has_suffix(file, MAGIC_BYTES.as_slice()) {
        Some(ContainerFormat::V1)
    } else {
        None
    }
}

/// Accepts the decoded manifest of `file` once the trailer itself is checked.
/// `decoded` is what the JSON decoder made of the bytes that
/// `read_manifest_from_exe` returns, `None` where it failed.
pub fn open_manifest<'a>(file: &[u8], decoded: &'a Option<BuildManifest>) -> (r: Result<
    &'a BuildManifest,
    ContainerError,
>)
    ensures
        match r {
            Ok(m) => *decoded == Some(*m) && opened_manifest(file@, decoded_view(*decoded)) == Ok::<
                ManifestView,
                ContainerError,
            >(m@),
            Err(e) => opened_manifest(file@, decoded_view(*decoded)) == Err::<
                ManifestView,
                ContainerError,
            >(e),
        },
{
    match locate_framed(file, MAGIC_BYTES_V2.as_slice()) {
        Ok(_) => match decoded {
            Some(m) => Ok(m),
            None => Err(ContainerError::CorruptFormat),
        },
        Err(e) => Err(e),
    }
}

/// Runs one candidate of the reader.
pub fn attempt(
    state: DispatchState,
    file: &[u8],
    decoded: &Option<BuildManifest>,
    loose: Option<&[u8]>,
) -> (r: Result<String, ContainerError>)
    ensures
        same_string(r, attempt_of(state, file@, decoded_view(*decoded), loose_view(loose))),
{
    match state {
        DispatchState::TryV2 => match open_manifest(file, decoded) {
            Ok(m) => read_project_json(file, m),
            Err(e) => Err(e),
        },
        DispatchState::TryV1 => match read_data_from_exe(file) {
            Ok(bytes) => decode_text(bytes),
            Err(e) => Err(e),
        },
        DispatchState::TryLooseFile => match loose {
            Some(bytes) => decode_text(slice_to_vec(bytes)),
            None => Err(ContainerError::FormatNotFound),
        },
        DispatchState::Fail => Err(ContainerError::NoProjectData),
    }
}

/// Runs the reader from `state` on: each candidate in turn, until one
/// succeeds or fails with anything but a missing marker.
pub fn load_project_from(
    state: DispatchState,
    file: &[u8],
    decoded: &Option<BuildManifest>,
    loose: Option<&[u8]>,
) -> (r: Result<String, ContainerError>)
    ensures
        same_string(r, outcome_from(state, file@, decoded_view(*decoded), loose_view(loose))),
{
    let mut current = state;
    loop
        invariant
            outcome_from(state, file@, decoded_view(*decoded), loose_view(loose)) == outcome_from(
                current,
                file@,
                decoded_view(*decoded),
                loose_view(loose),
            ),
        decreases steps_left(current),
    {
        match advance(current, attempt(current, file, decoded, loose)) {
            DispatchStep::Continue(following) => {
                current = following;
            },
            DispatchStep::Finished(result) => {
                return result;
            },
        }
    }
}

/// Loads the project text of `file`, trying the newer container, then the
/// older trailer, then the loose project file, in that order. Only a missing
/// marker moves the reader on; every other error is returned as it came.
pub fn load_project_decoded(file: &[u8], decoded: &Option<BuildManifest>, loose: Option<&[u8]>) -> (r:
    Result<String, ContainerError>)
    ensures
        same_string(r, project_of(file@, decoded_view(*decoded), loose_view(loose))),
{
    load_project_from(DispatchState::TryV2, file, decoded, loose)
}

/// Loads the project text the way readers of the first generation do: from
/// the older trailer, then from the loose project file.
pub fn read_project_file(file: &[u8], loose: Option<&[u8]>) -> (r: Result<String, ContainerError>)
    ensures
        same_string(r, outcome_from(DispatchState::TryV1, file@, None, loose_view(loose))),
{
    load_project_from(DispatchState::TryV1, file, &None, loose)
}

/// Loads one embedded asset by id. Only the newer container holds assets.
pub fn load_asset_decoded(file: &[u8], decoded: &Option<BuildManifest>, id: &str) -> (r: Result<
    Vec<u8>,
    ContainerError,
>)
    ensures
        same_bytes(r, loaded_asset(file@, decoded_view(*decoded), id@)),
{
    match open_manifest(file, decoded) {
        Ok(m) => read_asset(file, m, id),
        Err(e) => Err(e),
    }
}

/// Lists the media entries of the container, in manifest order.
pub fn list_assets_decoded(file: &[u8], decoded: &Option<BuildManifest>) -> (r: Result<
    Vec<MediaManifestEntry>,
    ContainerError,
>)
    ensures
        match r {
            Ok(entries) => opened_manifest(file@, decoded_view(*decoded)).is_ok() && entry_views(
                entries@,
            ) == opened_manifest(file@, decoded_view(*decoded)).unwrap().media,
            Err(e) => opened_manifest(file@, decoded_view(*decoded)) == Err::<
                ManifestView,
                ContainerError,
            >(e),
        },
{
    match open_manifest(file, decoded) {
        Ok(m) => Ok(m.entries()),
        Err(e) => Err(e),
    }
}

} // verus!
