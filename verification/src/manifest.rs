use crate::error::ContainerError;
use vstd::prelude::*;
use vstd::utf8::{encode_utf8, encode_utf8_decode_utf8};

verus! {

/// One embedded media blob: who it is and where its bytes lie in the host file.
#[derive(Debug, Clone, PartialEq, Eq)]
pub struct MediaManifestEntry {
    /// Stable identifier chosen by the caller, unique within one build.
    pub id: String,
    /// File name of the source, for display only.
    pub name: String,
    /// Advisory MIME type, as the caller supplied it.
    pub mime_type: String,
    /// Absolute offset of the blob's first byte from the start of the file.
    pub offset: u64,
    /// Number of bytes in the blob.
    pub size: u64,
}

/// Mathematical value of a [`MediaManifestEntry`].
pub struct EntryView {
    pub id: Seq<char>,
    pub name: Seq<char>,
    pub mime_type: Seq<char>,
    pub offset: u64,
    pub size: u64,
}

impl View for MediaManifestEntry {
    type V = EntryView;

    open spec fn view(&self) -> EntryView {
        EntryView {
            id: self.id@,
            name: self.name@,
            mime_type: self.mime_type@,
            offset: self.offset,
            size: self.size,
        }
    }
}

/// Index of a container: the byte range of the project JSON and of every media
/// blob. It owns no bytes; it only describes ranges of the host file.
#[derive(Debug, Clone, PartialEq, Eq)]
pub struct BuildManifest {
    pub project_json_offset: u64,
    pub project_json_size: u64,
    /// The media entries, in the order in which their blobs were written.
    pub media: Vec<MediaManifestEntry>,
    /// Reserved; the writer never fills it.
    pub app_icon_offset: Option<u64>,
    /// Reserved; the writer never fills it.
    pub app_icon_size: Option<u64>,
}

/// Mathematical value of a [`BuildManifest`].
pub struct ManifestView {
    pub project_json_offset: u64,
    pub project_json_size: u64,
    pub media: Seq<EntryView>,
    pub app_icon_offset: Option<u64>,
    pub app_icon_size: Option<u64>,
}

/// The values of a sequence of entries, one for one.
pub open spec fn entry_views(media: Seq<MediaManifestEntry>) -> Seq<EntryView> {
    Seq::new(media.len(), |i: int| media[i]@)
}

impl View for BuildManifest {
    type V = ManifestView;

    open spec fn view(&self) -> ManifestView {
        ManifestView {
            project_json_offset: self.project_json_offset,
            project_json_size: self.project_json_size,
            media: entry_views(self.media@),
            app_icon_offset: self.app_icon_offset,
            app_icon_size: self.app_icon_size,
        }
    }
}

/// Total number of bytes that the entries describe.
pub open spec fn total_size(media: Seq<EntryView>) -> nat
    decreases media.len(),
{
    if media.len() == 0 {
        0
    } else {
        total_size(media.drop_last()) + media.last().size as nat
    }
}

/// The layout that a single append-only pass leaves: the first blob starts at
/// `data_start`, every blob ends where the next begins, and the project JSON
/// begins where the last blob ends.
pub open spec fn laid_out(m: ManifestView, data_start: nat) -> bool {
    &&& forall|i: int|
        0 <= i < m.media.len() ==> (#[trigger] m.media[i]).offset == data_start + total_size(
            m.media.take(i),
        )
    &&& m.project_json_offset == data_start + total_size(m.media)
}

/// Whether entry `i` is the first of `media` whose id is `id`.
pub open spec fn is_first_match(media: Seq<EntryView>, id: Seq<char>, i: int) -> bool {
    &&& 0 <= i < media.len()
    &&& media[i].id == id
    &&& forall|j: int| 0 <= j < i ==> (#[trigger] media[j]).id != id
}

/// The index of the first entry whose id is `id`, if there is one.
pub open spec fn first_match(media: Seq<EntryView>, id: Seq<char>) -> Option<int> {
    if exists|i: int| is_first_match(media, id, i) {
        Some(choose|i: int| is_first_match(media, id, i))
    } else {
        None
    }
}

/// The byte range of the asset `id`, as offset and size: that of the first
/// entry with the id, or `AssetNotFound` where no entry has it.
pub open spec fn asset_span_of(m: ManifestView, id: Seq<char>) -> Result<
    (u64, u64),
    ContainerError,
> {
    match first_match(m.media, id) {
        Some(i) => Ok((m.media[i].offset, m.media[i].size)),
        None => Err(ContainerError::AssetNotFound),
    }
}

/// There is at most one first match, so `first_match` names it.
pub proof fn lemma_first_match_is(media: Seq<EntryView>, id: Seq<char>, i: int)
    requires
        is_first_match(media, id, i),
    ensures
        first_match(media, id) == Some(i),
{
    let k = choose|k: int| is_first_match(media, id, k);
    if k < i {
        assert(media[k].id != id);
    } else if i < k {
        assert(media[i].id != id);
    }
}

/// Where no entry has the id, there is no first match.
pub proof fn lemma_no_match(media: Seq<EntryView>, id: Seq<char>)
    requires
        forall|j: int| 0 <= j < media.len() ==> (#[trigger] media[j]).id != id,
    ensures
        first_match(media, id).is_none(),
{
}

/// Whether two strings hold the same text, decided on their UTF-8 bytes.
pub fn ids_equal(a: &str, b: &str) -> (r: bool)
    ensures
        r == (a@ == b@),
{
    let x = a.as_bytes();
    let y = b.as_bytes();
    proof {
        encode_utf8_decode_utf8(a@);
        encode_utf8_decode_utf8(b@);
    }
    if x.len() != y.len() {
        return false;
    }
    let n: usize = x.len();
    let mut i: usize = 0;
    while i < n
        invariant
            n == x@.len(),
            n == y@.len(),
            i <= n,
            x@ == encode_utf8(a@),
            y@ == encode_utf8(b@),
            forall|k: int| 0 <= k < i ==> x@[k] == y@[k],
        decreases n - i,
    {
        if x[i] != y[i] {
            return false;
        }
        i += 1;
    }
    assert(x@ =~= y@);
    true
}

impl MediaManifestEntry {
    /// A copy of this entry with the same value.
    pub fn duplicate(&self) -> (r: MediaManifestEntry)
        ensures
            r@ == self@,
    {
        MediaManifestEntry {
            id: self.id.clone(),
            name: self.name.clone(),
            mime_type: self.mime_type.clone(),
            offset: self.offset,
            size: self.size,
        }
    }
}

impl BuildManifest {
    /// The media entries, copied out in manifest order.
    pub fn entries(&self) -> (r: Vec<MediaManifestEntry>)
        ensures
            entry_views(r@) == self@.media,
    {
        let mut out: Vec<MediaManifestEntry> = Vec::new();
        let n: usize = self.media.len();
        let mut i: usize = 0;
        while i < n
            invariant
                n == self.media@.len(),
                i <= n,
                out@.len() == i,
                forall|k: int| 0 <= k < i ==> (#[trigger] out@[k])@ == self.media@[k]@,
            decreases n - i,
        {
            out.push(self.media[i].duplicate());
            i += 1;
        }
        assert(entry_views(out@) =~= self@.media);
        out
    }

    /// Looks an entry up by id, scanning the media in order: the first match
    /// wins where ids repeat.
    pub fn find_entry(&self, id: &str) -> (r: Option<usize>)
        ensures
            match r {
                Some(i) => first_match(self@.media, id@) == Some(i as int),
                None => first_match(self@.media, id@).is_none(),
            },
    {
        let n: usize = self.media.len();
        let mut i: usize = 0;
        while i < n
            invariant
                n == self.media@.len(),
                i <= n,
                forall|j: int| 0 <= j < i ==> (#[trigger] self@.media[j]).id != id@,
            decreases n - i,
        {
            if ids_equal(self.media[i].id.as_str(), id) {
                proof {
                    assert(self@.media[i as int].id == id@);
                    lemma_first_match_is(self@.media, id@, i as int);
                }
                return Some(i);
            }
            assert(self@.media[i as int].id != id@);
            i += 1;
        }
        proof {
            lemma_no_match(self@.media, id@);
        }
        None
    }

    /// Resolves an id to the byte range of its asset in the host file.
    pub fn asset_span(&self, id: &str) -> (r: Result<(u64, u64), ContainerError>)
        ensures
            r == asset_span_of(self@, id@),
    {
        match self.find_entry(id) {
            Some(i) => {
                let entry = &self.media[i];
                Ok((entry.offset, entry.size))
            },
            None => Err(ContainerError::AssetNotFound),
        }
    }
}

} // verus!
