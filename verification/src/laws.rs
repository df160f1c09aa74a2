use crate::bytes::{ends_with, same_bytes};
use crate::dispatch::{
    attempt_of, format_of, loaded_asset, opened_manifest, outcome_from, project_of,
    ContainerFormat, DispatchState,
};
use crate::error::ContainerError;
use crate::manifest::{
    laid_out, lemma_first_match_is, total_size, ManifestView,
};
use crate::text::same_string;
use crate::trailer::{
    framed, lemma_framed_round_trip, lemma_magics_differ, lemma_markers_exclude, payload_of,
    v1_magic, v2_magic,
};
use crate::v1::written_v1;
use crate::v2::{
    blob_of, embedded_blobs, entry_for, lemma_blobs_prefix, manifest_entries, planned_manifest,
    project_json_of, written_v2, SourceView,
};
use vstd::prelude::*;
use vstd::utf8::{encode_utf8, encode_utf8_decode_utf8, encode_utf8_valid_utf8};

verus! {

/// Number of sources that exist.
pub open spec fn present_count(media: Seq<SourceView>) -> nat
    decreases media.len(),
{
    if media.len() == 0 {
        0
    } else {
        present_count(media.drop_last()) + if media.last().content.is_some() {
            1nat
        } else {
            0nat
        }
    }
}

/// The manifest holds one entry for each source that exists, and none for a
/// missing one.
pub proof fn lemma_entry_count(media: Seq<SourceView>, data_start: nat)
    ensures
        manifest_entries(media, data_start).len() == present_count(media),
    decreases media.len(),
{
    if media.len() > 0 {
        lemma_entry_count(media.drop_last(), data_start);
    }
}

/// The blob of source `i` lies in the blobs of all sources right behind the
/// blobs of the sources before it.
pub proof fn lemma_blob_position(media: Seq<SourceView>, i: int)
    requires
        0 <= i < media.len(),
    ensures
        embedded_blobs(media.take(i)).len() + blob_of(media[i]).len() <= embedded_blobs(
            media,
        ).len(),
        embedded_blobs(media).subrange(
            embedded_blobs(media.take(i)).len() as int,
            (embedded_blobs(media.take(i)).len() + blob_of(media[i]).len()) as int,
        ) == blob_of(media[i]),
{
    let until = media.take(i + 1);
    assert(until.drop_last() =~= media.take(i));
    assert(until.last() == media[i]);
    lemma_blobs_prefix(media, i + 1);
    let a = embedded_blobs(media.take(i)).len() as int;
    let b = a + blob_of(media[i]).len();
    assert(embedded_blobs(media).subrange(a, b) =~= embedded_blobs(media).subrange(0, b).subrange(
        a,
        b,
    ));
    assert(embedded_blobs(until).subrange(a, b) =~= blob_of(media[i]));
}

/// A source that exists is recorded at the position that counts the existing
/// sources before it, under its own id, name and type, with the offset at
/// which its blob begins and its content's length. Missing sources before or
/// after it change neither.
pub proof fn lemma_entry_of_source(media: Seq<SourceView>, data_start: nat, i: int)
    requires
        0 <= i < media.len(),
        media[i].content.is_some(),
    ensures
        present_count(media.take(i)) < manifest_entries(media, data_start).len(),
        manifest_entries(media, data_start)[present_count(media.take(i)) as int] == entry_for(
            media[i],
            media[i].content.unwrap(),
            data_start + embedded_blobs(media.take(i)).len(),
        ),
    decreases media.len(),
{
    let before = media.drop_last();
    lemma_entry_count(before, data_start);
    if i == media.len() - 1 {
        assert(media.take(i) =~= before);
    } else {
        lemma_entry_of_source(before, data_start, i);
        assert(before.take(i) =~= media.take(i));
    }
}

/// The entries of a planned manifest are laid out without gaps from
/// `data_start` on, and the project JSON follows the last blob, as long as
/// the offsets fit the manifest's 64-bit fields.
pub proof fn lemma_planned_layout(data_start: nat, project_json: Seq<u8>, media: Seq<SourceView>)
    requires
        data_start + embedded_blobs(media).len() <= u64::MAX,
    ensures
        laid_out(planned_manifest(data_start, project_json, media), data_start),
{
    lemma_entries_sizes(media, data_start);
    let entries = manifest_entries(media, data_start);
    assert forall|k: int| 0 <= k < entries.len() implies (#[trigger] entries[k]).offset
        == data_start + total_size(entries.take(k)) by {
        lemma_entry_offsets(media, data_start, k);
    }
}

/// The sizes of the entries add up to the length of the blobs.
pub proof fn lemma_entries_sizes(media: Seq<SourceView>, data_start: nat)
    requires
        data_start + embedded_blobs(media).len() <= u64::MAX,
    ensures
        total_size(manifest_entries(media, data_start)) == embedded_blobs(media).len(),
    decreases media.len(),
{
    if media.len() > 0 {
        let before = media.drop_last();
        lemma_entries_sizes(before, data_start);
        let entries = manifest_entries(before, data_start);
        if media.last().content.is_some() {
            let e = entry_for(
                media.last(),
                media.last().content.unwrap(),
                data_start + embedded_blobs(before).len(),
            );
            assert(entries.push(e).drop_last() =~= entries);
        }
    }
}

/// Entry `k` begins where the entries before it end.
pub proof fn lemma_entry_offsets(media: Seq<SourceView>, data_start: nat, k: int)
    requires
        data_start + embedded_blobs(media).len() <= u64::MAX,
        0 <= k < manifest_entries(media, data_start).len(),
    ensures
        manifest_entries(media, data_start)[k].offset == data_start + total_size(
            manifest_entries(media, data_start).take(k),
        ),
    decreases media.len(),
{
    let before = media.drop_last();
    let entries = manifest_entries(before, data_start);
    if media.last().content.is_some() && k == entries.len() {
        lemma_entries_sizes(before, data_start);
        assert(manifest_entries(media, data_start).take(k) =~= entries);
    } else {
        lemma_entry_offsets(before, data_start, k);
        assert(manifest_entries(media, data_start).take(k) =~= entries.take(k));
    }
}

/// Round trip of the manifest: the reader recovers from a written container
/// exactly the serialized manifest that the writer appended.
pub proof fn lemma_manifest_round_trip(
    host: Seq<u8>,
    project_json: Seq<char>,
    media: Seq<SourceView>,
    manifest_json: Seq<u8>,
)
    requires
        manifest_json.len() <= u64::MAX,
    ensures
        payload_of(written_v2(host, project_json, media, manifest_json), v2_magic()) == Ok::<
            Seq<u8>,
            ContainerError,
        >(manifest_json),
        format_of(written_v2(host, project_json, media, manifest_json)) == Some(
            ContainerFormat::V2,
        ),
{
    let front = host + embedded_blobs(media) + encode_utf8(project_json);
    lemma_framed_round_trip(front, manifest_json, v2_magic());
}

/// Round trip of the listing: with the manifest that the writer returned,
/// a written container opens to that manifest, so its entries are listed as
/// they were recorded.
pub proof fn lemma_listing_round_trip(
    host: Seq<u8>,
    project_json: Seq<char>,
    media: Seq<SourceView>,
    manifest_json: Seq<u8>,
)
    requires
        manifest_json.len() <= u64::MAX,
    ensures
        opened_manifest(
            written_v2(host, project_json, media, manifest_json),
            Some(planned_manifest(host.len(), encode_utf8(project_json), media)),
        ) == Ok::<ManifestView, ContainerError>(
            planned_manifest(host.len(), encode_utf8(project_json), media),
        ),
        planned_manifest(host.len(), encode_utf8(project_json), media).media.len()
            == present_count(media),
{
    lemma_manifest_round_trip(host, project_json, media, manifest_json);
    lemma_entry_count(media, host.len());
}

/// Round trip of the project: loading the project of a written container,
/// with the manifest that the writer returned, gives the project JSON that
/// went in, whatever lies beside the executable.
pub proof fn lemma_project_round_trip(
    host: Seq<u8>,
    project_json: Seq<char>,
    media: Seq<SourceView>,
    manifest_json: Seq<u8>,
    loose: Option<Seq<u8>>,
)
    requires
        written_v2(host, project_json, media, manifest_json).len() <= u64::MAX,
    ensures
        project_of(
            written_v2(host, project_json, media, manifest_json),
            Some(planned_manifest(host.len(), encode_utf8(project_json), media)),
            loose,
        ) == Ok::<Seq<char>, ContainerError>(project_json),
{
    let file = written_v2(host, project_json, media, manifest_json);
    let m = planned_manifest(host.len(), encode_utf8(project_json), media);
    lemma_manifest_round_trip(host, project_json, media, manifest_json);
    encode_utf8_valid_utf8(project_json);
    encode_utf8_decode_utf8(project_json);
    let start = host.len() + embedded_blobs(media).len();
    let end = start + encode_utf8(project_json).len();
    assert(file.subrange(start as int, end as int) =~= encode_utf8(project_json));
    assert(project_json_of(file, m) == Ok::<Seq<char>, ContainerError>(project_json));
}

/// The source that entry `k` of the manifest was recorded for.
pub open spec fn source_index(media: Seq<SourceView>, k: int) -> int
    decreases media.len(),
{
    if media.len() == 0 {
        -1
    } else if media.last().content.is_some() && present_count(media.drop_last()) == k {
        media.len() - 1
    } else {
        source_index(media.drop_last(), k)
    }
}

/// Every entry of the manifest was recorded for a source that exists, and
/// stands at the position that counts the existing sources before it.
pub proof fn lemma_source_of_entry(media: Seq<SourceView>, k: int)
    requires
        0 <= k < present_count(media),
    ensures
        0 <= source_index(media, k) < media.len(),
        media[source_index(media, k)].content.is_some(),
        present_count(media.take(source_index(media, k))) == k,
    decreases media.len(),
{
    let before = media.drop_last();
    if media.last().content.is_some() && present_count(before) == k {
        assert(media.take(media.len() - 1) =~= before);
    } else {
        lemma_source_of_entry(before, k);
        assert(before.take(source_index(before, k)) =~= media.take(source_index(before, k)));
    }
}

/// Counting the existing sources among the first `a` never gives more than
/// among the first `b`, and gives less where source `a` itself exists.
pub proof fn lemma_present_count_grows(media: Seq<SourceView>, a: int, b: int)
    requires
        0 <= a <= b <= media.len(),
    ensures
        present_count(media.take(a)) <= present_count(media.take(b)),
        a < b && media[a].content.is_some() ==> present_count(media.take(a)) < present_count(
            media.take(b),
        ),
    decreases b - a,
{
    if a < b {
        assert(media.take(b).drop_last() =~= media.take(b - 1));
        assert(media.take(b).last() == media[b - 1]);
        lemma_present_count_grows(media, a, b - 1);
    }
}

/// Round trip of an asset: loading the id of a source that existed gives
/// that source's content, byte for byte, provided that no existing source
/// before it carries the same id (the first match wins).
pub proof fn lemma_asset_round_trip(
    host: Seq<u8>,
    project_json: Seq<char>,
    media: Seq<SourceView>,
    manifest_json: Seq<u8>,
    i: int,
)
    requires
        written_v2(host, project_json, media, manifest_json).len() <= u64::MAX,
        0 <= i < media.len(),
        media[i].content.is_some(),
        forall|j: int|
            0 <= j < i && (#[trigger] media[j]).content.is_some() ==> media[j].id != media[i].id,
    ensures
        loaded_asset(
            written_v2(host, project_json, media, manifest_json),
            Some(planned_manifest(host.len(), encode_utf8(project_json), media)),
            media[i].id,
        ) == Ok::<Seq<u8>, ContainerError>(media[i].content.unwrap()),
{
    let file = written_v2(host, project_json, media, manifest_json);
    let m = planned_manifest(host.len(), encode_utf8(project_json), media);
    let content = media[i].content.unwrap();
    let k = present_count(media.take(i)) as int;
    lemma_manifest_round_trip(host, project_json, media, manifest_json);
    lemma_entry_of_source(media, host.len(), i);
    lemma_entry_count(media, host.len());
    lemma_blob_position(media, i);
    assert forall|e: int| 0 <= e < k implies (#[trigger] m.media[e]).id != media[i].id by {
        lemma_source_of_entry(media, e);
        let j = source_index(media, e);
        if i <= j {
            lemma_present_count_grows(media, i, j);
        }
        lemma_entry_of_source(media, host.len(), j);
        assert(media[j].id != media[i].id);
    }
    lemma_first_match_is(m.media, media[i].id, k);
    let a = embedded_blobs(media.take(i)).len() as int;
    assert(file.subrange(host.len() + a, host.len() + a + content.len()) =~= embedded_blobs(
        media,
    ).subrange(a, a + content.len()));
}

/// Repeatable reads of text: a read's contract names its result, so any two
/// results that meet it for the same file and arguments agree, in the text
/// or in the error.
pub proof fn lemma_text_reads_agree(
    first: Result<String, ContainerError>,
    second: Result<String, ContainerError>,
    expected: Result<Seq<char>, ContainerError>,
)
    requires
        same_string(first, expected),
        same_string(second, expected),
    ensures
        match (first, second) {
            (Ok(a), Ok(b)) => a@ == b@,
            (Err(a), Err(b)) => a == b,
            _ => false,
        },
{
}

/// Repeatable reads of bytes: any two results that meet a read's contract
/// for the same file and arguments agree, in the bytes or in the error.
pub proof fn lemma_byte_reads_agree(
    first: Result<Vec<u8>, ContainerError>,
    second: Result<Vec<u8>, ContainerError>,
    expected: Result<Seq<u8>, ContainerError>,
)
    requires
        same_bytes(first, expected),
        same_bytes(second, expected),
    ensures
        match (first, second) {
            (Ok(a), Ok(b)) => a@ == b@,
            (Err(a), Err(b)) => a == b,
            _ => false,
        },
{
}

/// An id that no entry of the manifest carries is reported as
/// `AssetNotFound`, whatever the file holds behind a sound trailer.
pub proof fn lemma_unknown_id(file: Seq<u8>, m: ManifestView, id: Seq<char>)
    requires
        payload_of(file, v2_magic()).is_ok(),
        forall|j: int| 0 <= j < m.media.len() ==> (#[trigger] m.media[j]).id != id,
    ensures
        loaded_asset(file, Some(m), id) == Err::<Seq<u8>, ContainerError>(
            ContainerError::AssetNotFound,
        ),
{
}

/// Round trip of the first generation: the project text that its writer
/// appended is what the reader loads, after the newer format reported that
/// its marker is not there.
pub proof fn lemma_v1_round_trip(
    host: Seq<u8>,
    text: Seq<char>,
    decoded: Option<ManifestView>,
    loose: Option<Seq<u8>>,
)
    requires
        encode_utf8(text).len() <= u64::MAX,
    ensures
        attempt_of(DispatchState::TryV2, written_v1(host, encode_utf8(text)), decoded, loose)
            == Err::<Seq<char>, ContainerError>(ContainerError::FormatNotFound),
        project_of(written_v1(host, encode_utf8(text)), decoded, loose) == Ok::<
            Seq<char>,
            ContainerError,
        >(text),
{
    let file = written_v1(host, encode_utf8(text));
    lemma_v1_is_not_v2(host, encode_utf8(text));
    encode_utf8_valid_utf8(text);
    encode_utf8_decode_utf8(text);
    assert(outcome_from(DispatchState::TryV1, file, decoded, loose) == Ok::<
        Seq<char>,
        ContainerError,
    >(text));
}

/// Version isolation, older to newer: a file that the first generation's
/// writer produced is told to be of that generation, and the newer reader
/// finds no marker of its own in it.
pub proof fn lemma_v1_is_not_v2(host: Seq<u8>, payload: Seq<u8>)
    requires
        payload.len() <= u64::MAX,
    ensures
        payload_of(written_v1(host, payload), v1_magic()) == Ok::<Seq<u8>, ContainerError>(
            payload,
        ),
        payload_of(written_v1(host, payload), v2_magic()) == Err::<Seq<u8>, ContainerError>(
            ContainerError::FormatNotFound,
        ),
        format_of(written_v1(host, payload)) == Some(ContainerFormat::V1),
{
    lemma_magics_differ();
    lemma_framed_round_trip(host, payload, v1_magic());
    lemma_markers_exclude(written_v1(host, payload), v1_magic(), v2_magic());
}

/// Version isolation, newer to older: in a container of the second
/// generation the older reader finds no marker of its own.
pub proof fn lemma_v2_is_not_v1(
    host: Seq<u8>,
    project_json: Seq<char>,
    media: Seq<SourceView>,
    manifest_json: Seq<u8>,
)
    requires
        manifest_json.len() <= u64::MAX,
    ensures
        payload_of(written_v2(host, project_json, media, manifest_json), v1_magic()) == Err::<
            Seq<u8>,
            ContainerError,
        >(ContainerError::FormatNotFound),
{
    lemma_magics_differ();
    lemma_manifest_round_trip(host, project_json, media, manifest_json);
    lemma_markers_exclude(
        written_v2(host, project_json, media, manifest_json),
        v2_magic(),
        v1_magic(),
    );
}

/// Truncation safety: a written container that lost its last byte ends with
/// neither marker. Both readers report `FormatNotFound`, no asset is
/// returned, and without a loose project file no project is.
pub proof fn lemma_truncated_container(
    host: Seq<u8>,
    project_json: Seq<char>,
    media: Seq<SourceView>,
    manifest_json: Seq<u8>,
    decoded: Option<ManifestView>,
    id: Seq<char>,
)
    ensures
        ({
            let cut = written_v2(host, project_json, media, manifest_json).drop_last();
            &&& payload_of(cut, v2_magic()) == Err::<Seq<u8>, ContainerError>(
                ContainerError::FormatNotFound,
            )
            &&& payload_of(cut, v1_magic()) == Err::<Seq<u8>, ContainerError>(
                ContainerError::FormatNotFound,
            )
            &&& format_of(cut).is_none()
            &&& loaded_asset(cut, decoded, id) == Err::<Seq<u8>, ContainerError>(
                ContainerError::FormatNotFound,
            )
            &&& project_of(cut, decoded, None) == Err::<Seq<char>, ContainerError>(
                ContainerError::NoProjectData,
            )
        }),
{
    lemma_magics_differ();
    let file = written_v2(host, project_json, media, manifest_json);
    let cut = file.drop_last();
    assert(file.len() >= 21);
    assert(cut.last() == v2_magic()[19]);
    assert(v2_magic()[19] == 86u8);
    if ends_with(cut, v2_magic()) {
        assert(cut.subrange(cut.len() - 21, cut.len() as int)[20] == cut.last());
    }
    if ends_with(cut, v1_magic()) {
        assert(cut.subrange(cut.len() - 21, cut.len() as int)[20] == cut.last());
    }
    assert(outcome_from(DispatchState::Fail, cut, decoded, None) == Err::<
        Seq<char>,
        ContainerError,
    >(ContainerError::NoProjectData));
    assert(outcome_from(DispatchState::TryLooseFile, cut, decoded, None) == Err::<
        Seq<char>,
        ContainerError,
    >(ContainerError::NoProjectData));
    assert(outcome_from(DispatchState::TryV1, cut, decoded, None) == Err::<
        Seq<char>,
        ContainerError,
    >(ContainerError::NoProjectData));
}

} // verus!
