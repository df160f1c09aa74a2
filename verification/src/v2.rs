use crate::bytes::{append, range_of, read_range, same_bytes};
use crate::error::ContainerError;
use crate::laws::lemma_planned_layout;
use crate::manifest::{
    asset_span_of, entry_views, laid_out, BuildManifest, EntryView, ManifestView,
    MediaManifestEntry,
};
use crate::text::{decode_text, same_string, text_of};
use crate::trailer::{
    frame, framed, payload_of, read_framed, v2_magic, write_framed, MAGIC_BYTES_V2,
};
use vstd::prelude::*;
use vstd::utf8::encode_utf8;

verus! {

/// What the caller says of one media file: its id, its display name, its MIME
/// type and the path of its source.
#[derive(Debug, Clone, PartialEq, Eq)]
pub struct MediaBuildInfo {
    pub id: String,
    pub name: String,
    pub mime_type: String,
    pub file_path: String,
}

/// One media file as the writer takes it: the description, and the content of
/// the source, `None` where the source does not exist.
#[derive(Debug, Clone, PartialEq, Eq)]
pub struct MediaSource {
    pub info: MediaBuildInfo,
    pub content: Option<Vec<u8>>,
}

/// Mathematical value of a [`MediaSource`]; the source path plays no part in
/// the container.
pub struct SourceView {
    pub id: Seq<char>,
    pub name: Seq<char>,
    pub mime_type: Seq<char>,
    pub content: Option<Seq<u8>>,
}

impl View for MediaSource {
    type V = SourceView;

    open spec fn view(&self) -> SourceView {
        SourceView {
            id: self.info.id@,
            name: self.info.name@,
            mime_type: self.info.mime_type@,
            content: match self.content {
                Some(c) => Some(c@),
                None => None,
            },
        }
    }
}

/// The values of a sequence of sources, one for one.
pub open spec fn source_views(media: Seq<MediaSource>) -> Seq<SourceView> {
    Seq::new(media.len(), |i: int| media[i]@)
}

/// The bytes that a source contributes: its content, or nothing where the
/// source is missing.
pub open spec fn blob_of(source: SourceView) -> Seq<u8> {
    match source.content {
        Some(c) => c,
        None => Seq::empty(),
    }
}

/// The blobs of the sources that exist, one after the other in the caller's
/// order.
pub open spec fn embedded_blobs(media: Seq<SourceView>) -> Seq<u8>
    decreases media.len(),
{
    if media.len() == 0 {
        Seq::empty()
    } else {
        embedded_blobs(media.drop_last()) + blob_of(media.last())
    }
}

/// The entry recorded for a source with content `content` whose blob is
/// written at `offset`.
pub open spec fn entry_for(source: SourceView, content: Seq<u8>, offset: nat) -> EntryView {
    EntryView {
        id: source.id,
        name: source.name,
        mime_type: source.mime_type,
        offset: offset as u64,
        size: content.len() as u64,
    }
}

/// The entries of the manifest for `media` written from `data_start` on: one
/// for each source that exists, in order, each addressed where its blob
/// begins; a missing source leaves no entry.
pub open spec fn manifest_entries(media: Seq<SourceView>, data_start: nat) -> Seq<EntryView>
    decreases media.len(),
{
    if media.len() == 0 {
        Seq::empty()
    } else {
        let before = media.drop_last();
        let entries = manifest_entries(before, data_start);
        match media.last().content {
            Some(c) => entries.push(
                entry_for(media.last(), c, data_start + embedded_blobs(before).len()),
            ),
            None => entries,
        }
    }
}

/// The manifest of a container written behind `data_start` bytes of host file.
pub open spec fn planned_manifest(
    data_start: nat,
    project_json: Seq<u8>,
    media: Seq<SourceView>,
) -> ManifestView {
    ManifestView {
        project_json_offset: (data_start + embedded_blobs(media).len()) as u64,
        project_json_size: project_json.len() as u64,
        media: manifest_entries(media, data_start),
        app_icon_offset: None,
        app_icon_size: None,
    }
}

/// The file that a complete write pass of the second generation leaves: the
/// host, the blobs, the project JSON, then the framed manifest.
pub open spec fn written_v2(
    host: Seq<u8>,
    project_json: Seq<char>,
    media: Seq<SourceView>,
    manifest_json: Seq<u8>,
) -> Seq<u8> {
    host + embedded_blobs(media) + encode_utf8(project_json) + framed(manifest_json, v2_magic())
}

/// The blobs of the first `j` sources open the blobs of all of them.
pub proof fn lemma_blobs_prefix(media: Seq<SourceView>, j: int)
    requires
        0 <= j <= media.len(),
    ensures
        embedded_blobs(media.take(j)).len() <= embedded_blobs(media).len(),
        embedded_blobs(media).subrange(0, embedded_blobs(media.take(j)).len() as int)
            == embedded_blobs(media.take(j)),
    decreases media.len(),
{
    if j == media.len() {
        assert(media.take(j) =~= media);
        assert(embedded_blobs(media).subrange(0, embedded_blobs(media).len() as int)
            =~= embedded_blobs(media));
    } else {
        let before = media.drop_last();
        lemma_blobs_prefix(before, j);
        assert(before.take(j) =~= media.take(j));
        let n = embedded_blobs(media.take(j)).len() as int;
        assert(embedded_blobs(media).subrange(0, n) =~= embedded_blobs(before).subrange(0, n));
    }
}

/// Lays out the first half of the write pass behind `data_start` bytes of
/// host file: the blob of every source that exists, in the caller's order,
/// then the project JSON, together with the manifest that addresses them.
/// Sources without content are skipped. The result is `IoError` exactly where
/// the container would end beyond the largest offset that 64 bits can hold.
pub fn layout_media(data_start: u64, project_json: &str, media: &Vec<MediaSource>) -> (r: Result<
    (Vec<u8>, BuildManifest),
    ContainerError,
>)
    ensures
        match r {
            Ok((bytes, manifest)) => {
                &&& data_start + bytes@.len() <= u64::MAX
                &&& bytes@ == embedded_blobs(source_views(media@)) + encode_utf8(project_json@)
                &&& manifest@ == planned_manifest(
                    data_start as nat,
                    encode_utf8(project_json@),
                    source_views(media@),
                )
                &&& laid_out(manifest@, data_start as nat)
            },
            Err(e) => {
                &&& e == ContainerError::IoError
                &&& data_start + embedded_blobs(source_views(media@)).len() + encode_utf8(
                    project_json@,
                ).len() > u64::MAX
            },
        },
{
    let ghost sources = source_views(media@);
    let mut bytes: Vec<u8> = Vec::new();
    let mut entries: Vec<MediaManifestEntry> = Vec::new();
    let n: usize = media.len();
    let mut i: usize = 0;
    assert(sources.take(0) =~= Seq::<SourceView>::empty());
    assert(entry_views(entries@) =~= Seq::<EntryView>::empty());
    assert(bytes@ =~= embedded_blobs(sources.take(0)));
    while i < n
        invariant
            n == media@.len(),
            i <= n,
            sources == source_views(media@),
            bytes@ == embedded_blobs(sources.take(i as int)),
            data_start + bytes@.len() <= u64::MAX,
            entry_views(entries@) == manifest_entries(sources.take(i as int), data_start as nat),
        decreases n - i,
    {
        let source = &media[i];
        let ghost before = sources.take(i as int);
        let ghost until = sources.take(i + 1);
        assert(until.drop_last() =~= before);
        assert(until.last() == source@);
        match &source.content {
            Some(content) => {
                let offset: u64 = data_start + bytes.len() as u64;
                let size: u64 = content.len() as u64;
                if size > u64::MAX - offset {
                    proof {
                        lemma_blobs_prefix(sources, i + 1);
                    }
                    return Err(ContainerError::IoError);
                }
                let ghost old_entries = entry_views(entries@);
                append(&mut bytes, content.as_slice());
                entries.push(
                    MediaManifestEntry {
                        id: source.info.id.clone(),
                        name: source.info.name.clone(),
                        mime_type: source.info.mime_type.clone(),
                        offset,
                        size,
                    },
                );
                assert(entry_views(entries@) =~= old_entries.push(
                    entry_for(source@, content@, data_start as nat + embedded_blobs(before).len()),
                ));
                assert(bytes@ =~= embedded_blobs(until));
            },
            None => {
                assert(bytes@ =~= embedded_blobs(until));
            },
        }
        i += 1;
    }
    assert(sources.take(n as int) =~= sources);
    let project_bytes = project_json.as_bytes();
    let project_json_offset: u64 = data_start + bytes.len() as u64;
    let project_json_size: u64 = project_bytes.len() as u64;
    if project_json_size > u64::MAX - project_json_offset {
        return Err(ContainerError::IoError);
    }
    let manifest = BuildManifest {
        project_json_offset,
        project_json_size,
        media: entries,
        app_icon_offset: None,
        app_icon_size: None,
    };
    append(&mut bytes, project_bytes);
    proof {
        lemma_planned_layout(data_start as nat, encode_utf8(project_json@), sources);
    }
    Ok((bytes, manifest))
}

/// First half of the write pass on a file held in memory: appends the blobs
/// and the project JSON that [`layout_media`] lays out behind the bytes of
/// `file`, and returns the manifest. On `IoError` the file is left as it was.
pub fn append_binary_data_v2(
    file: &mut Vec<u8>,
    project_json: &str,
    media: &Vec<MediaSource>,
) -> (r: Result<BuildManifest, ContainerError>)
    ensures
        match r {
            Ok(manifest) => {
                &&& final(file)@ == old(file)@ + embedded_blobs(source_views(media@))
                    + encode_utf8(project_json@)
                &&& manifest@ == planned_manifest(
                    old(file)@.len(),
                    encode_utf8(project_json@),
                    source_views(media@),
                )
                &&& laid_out(manifest@, old(file)@.len())
            },
            Err(e) => {
                &&& e == ContainerError::IoError
                &&& final(file)@ == old(file)@
                &&& old(file)@.len() + embedded_blobs(source_views(media@)).len() + encode_utf8(
                    project_json@,
                ).len() > u64::MAX
            },
        },
{
    match layout_media(file.len() as u64, project_json, media) {
        Ok((bytes, manifest)) => {
            append(file, bytes.as_slice());
            assert(file@ =~= old(file)@ + embedded_blobs(source_views(media@)) + encode_utf8(
                project_json@,
            ));
            Ok(manifest)
        },
        Err(e) => Err(e),
    }
}

/// The bytes of the second half of the write pass: the serialized manifest,
/// its length and the marker of the second format generation.
pub fn manifest_trailer(manifest_json: &[u8]) -> (r: Vec<u8>)
    ensures
        r@ == framed(manifest_json@, v2_magic()),
{
    frame(manifest_json, MAGIC_BYTES_V2.as_slice())
}

/// Second half of the write pass on a file held in memory: appends the
/// serialized manifest, its length and the marker.
pub fn append_manifest(file: &mut Vec<u8>, manifest_json: &[u8])
    ensures
        final(file)@ == old(file)@ + framed(manifest_json@, v2_magic()),
{
    write_framed(file, manifest_json, MAGIC_BYTES_V2.as_slice());
}

/// Recovers the serialized manifest from the end of `file`: marker, length
/// field, then the manifest's bytes.
pub fn read_manifest_from_exe(file: &[u8]) -> (r: Result<Vec<u8>, ContainerError>)
    ensures
        same_bytes(r, payload_of(file@, v2_magic())),
{
    read_framed(file, MAGIC_BYTES_V2.as_slice())
}

/// The bytes of the asset `id` as `m` addresses them in `file`: those of the
/// first entry with that id; `AssetNotFound` where there is none; `IoError`
/// where the entry's range does not lie within the file.
pub open spec fn asset_of(file: Seq<u8>, m: ManifestView, id: Seq<char>) -> Result<
    Seq<u8>,
    ContainerError,
> {
    match asset_span_of(m, id) {
        Ok((offset, size)) => range_of(file, offset, size),
        Err(e) => Err(e),
    }
}

/// The project JSON as `m` addresses it in `file`: `IoError` where the range
/// does not lie within the file, `DecodeError` where its bytes are no text.
pub open spec fn project_json_of(file: Seq<u8>, m: ManifestView) -> Result<
    Seq<char>,
    ContainerError,
> {
    match range_of(file, m.project_json_offset, m.project_json_size) {
        Ok(bytes) => text_of(bytes),
        Err(e) => Err(e),
    }
}

/// Reads one embedded asset by id.
pub fn read_asset(file: &[u8], manifest: &BuildManifest, id: &str) -> (r: Result<
    Vec<u8>,
    ContainerError,
>)
    ensures
        same_bytes(r, asset_of(file@, manifest@, id@)),
{
    match manifest.asset_span(id) {
        Ok((offset, size)) => read_range(file, offset, size),
        Err(e) => Err(e),
    }
}

/// Reads the project JSON and decodes it as text.
pub fn read_project_json(file: &[u8], manifest: &BuildManifest) -> (r: Result<
    String,
    ContainerError,
>)
    ensures
        same_string(r, project_json_of(file@, manifest@)),
{
    match read_range(file, manifest.project_json_offset, manifest.project_json_size) {
        Ok(bytes) => decode_text(bytes),
        Err(e) => Err(e),
    }
}

} // verus!
