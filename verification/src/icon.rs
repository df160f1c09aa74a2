use vstd::prelude::*;

verus! {

/// An image decoded by the `image` crate. It is carried through untouched.
#[verifier::external_type_specification]
#[verifier::external_body]
pub struct ExDynamicImage(image::DynamicImage);

/// The contents of one icon file, as the `ico` crate collects them.
#[verifier::external_type_specification]
#[verifier::external_body]
pub struct ExIconDir(ico::IconDir);

/// Edge lengths, in pixels, of the square images that an icon file carries,
/// in the order of its entries.
pub const ICO_SIZES: [u32; 7] = [16, 24, 32, 48, 64, 128, 256];

/// An image could not be encoded as an entry of an icon file.
#[derive(Debug, Clone, PartialEq, Eq)]
pub struct EncodeFailed {
    /// Edge length of the entry that failed.
    pub size: u32,
    /// What the encoder said.
    pub message: String,
}

/// Width and height of the entries of an icon directory, in order.
pub uninterp spec fn entry_sizes(dir: ico::IconDir) -> Seq<(u32, u32)>;

/// Whether an icon directory was made for icons, not for cursors.
pub uninterp spec fn holds_icons(dir: ico::IconDir) -> bool;

/// The sizes of the entries of a finished icon file.
pub open spec fn icon_sizes() -> Seq<(u32, u32)> {
    Seq::new(7, |i: int| (ICO_SIZES[i], ICO_SIZES[i]))
}

/// Whether `bytes` begin as an icon file with `count` entries does: two
/// reserved zero bytes, the resource type 1, the count, all little-endian,
/// and room for a directory line of sixteen bytes for each entry.
pub open spec fn is_icon_file(bytes: Seq<u8>, count: nat) -> bool {
    &&& bytes.len() >= 6 + 16 * count
    &&& bytes[0] == 0
    &&& bytes[1] == 0
    &&& bytes[2] == 1
    &&& bytes[3] == 0
    &&& bytes[4] == count % 256
    &&& bytes[5] == count / 256
}

/// Calls `IconDir::new` of the `ico` crate for the resource type `Icon`. As
/// its source shows, the new directory has no entries.
#[verifier::external_body]
fn new_icon_dir() -> (dir: ico::IconDir)
    ensures
        entry_sizes(dir) == Seq::<(u32, u32)>::empty(),
        holds_icons(dir),
{
    ico::IconDir::new(ico::ResourceType::Icon)
}

/// Calls `DynamicImage::resize_exact` of the `image` crate with the Lanczos
/// filter of window 3, and hands the result out as RGBA bytes. Trusted: the
/// new image has the dimensions asked for, so four bytes for each of its
/// `size` times `size` pixels come back. Only edges that an icon file
/// provides for are asked for.
#[verifier::external_body]
fn resized_rgba(img: &image::DynamicImage, size: u32) -> (rgba: Vec<u8>)
    requires
        1 <= size <= 256,
    ensures
        rgba@.len() == 4 * size * size,
{
    img.resize_exact(size, size, image::imageops::FilterType::Lanczos3).to_rgba8().into_raw()
}

/// Calls `IconDirEntry::encode` of the `ico` crate on a square image of edge
/// `size` built by `IconImage::from_rgba_data`, and `IconDir::add_entry` on
/// the entry. Trusted, as the source shows: the entry has the image's width
/// and height and is added last; where encoding fails the directory is left
/// as it was. The `requires` excludes the inputs on which these calls panic:
/// a zero edge, a buffer of the wrong length, a directory made for cursors;
/// and it keeps the edge within the 256 pixels that an icon file provides
/// for.
#[verifier::external_body]
fn add_encoded_entry(dir: &mut ico::IconDir, size: u32, rgba: Vec<u8>) -> (r: Result<(), String>)
    requires
        1 <= size <= 256,
        rgba@.len() == 4 * size * size,
        holds_icons(*old(dir)),
    ensures
        holds_icons(*final(dir)),
        entry_sizes(*final(dir)) == if r.is_ok() {
            entry_sizes(*old(dir)).push((size, size))
        } else {
            entry_sizes(*old(dir))
        },
{
    let image = ico::IconImage::from_rgba_data(size, size, rgba);
    match ico::IconDirEntry::encode(&image) {
        Ok(entry) => Ok(dir.add_entry(entry)),
        Err(e) => Err(e.to_string()),
    }
}

/// Calls `IconDir::write` of the `ico` crate into a buffer in memory.
/// Trusted, as the source shows: it fails only for more than 65535 entries,
/// and what it writes begins with the six-byte header of an icon file and
/// holds a directory line for each entry.
#[verifier::external_body]
fn icon_dir_bytes(dir: &ico::IconDir) -> (r: Result<Vec<u8>, String>)
    requires
        holds_icons(*dir),
    ensures
        entry_sizes(*dir).len() <= 65535 ==> r.is_ok(),
        r.is_ok() ==> is_icon_file(r.unwrap()@, entry_sizes(*dir).len()),
{
    let mut out: Vec<u8> = Vec::new();
    match dir.write(&mut out) {
        Ok(()) => Ok(out),
        Err(e) => Err(e.to_string()),
    }
}

/// Collects the entries of an icon file from `img`: the image resized to
/// each of [`ICO_SIZES`] in turn and encoded. Stops at the first entry that
/// cannot be encoded.
pub fn build_icon_dir(img: &image::DynamicImage) -> (r: Result<ico::IconDir, EncodeFailed>)
    ensures
        match r {
            Ok(dir) => holds_icons(dir) && entry_sizes(dir) == icon_sizes(),
            Err(e) => exists|k: int| 0 <= k < 7 && e.size == #[trigger] ICO_SIZES[k],
        },
{
    let mut dir = new_icon_dir();
    let mut i: usize = 0;
    while i < 7
        invariant
            i <= 7,
            holds_icons(dir),
            entry_sizes(dir) == icon_sizes().take(i as int),
        decreases 7 - i,
    {
        let size: u32 = ICO_SIZES[i];
        let rgba = resized_rgba(img, size);
        match add_encoded_entry(&mut dir, size, rgba) {
            Ok(_) => {},
            Err(message) => {
                return Err(EncodeFailed { size, message });
            },
        }
        assert(icon_sizes().take(i + 1) =~= icon_sizes().take(i as int).push((size, size)));
        i += 1;
    }
    assert(icon_sizes().take(7) =~= icon_sizes());
    Ok(dir)
}

/// Converts an image into the bytes of an icon file with one entry for each
/// of [`ICO_SIZES`]. It fails only where an entry cannot be encoded: seven
/// entries can always be written out.
pub fn create_ico_file(img: &image::DynamicImage) -> (r: Result<Vec<u8>, EncodeFailed>)
    ensures
        match r {
            Ok(bytes) => is_icon_file(bytes@, 7),
            Err(e) => exists|k: int| 0 <= k < 7 && e.size == #[trigger] ICO_SIZES[k],
        },
{
    match build_icon_dir(img) {
        Ok(dir) => match icon_dir_bytes(&dir) {
            Ok(bytes) => Ok(bytes),
            Err(_) => unreached(),
        },
        Err(e) => Err(e),
    }
}

} // verus!
