//! A trailer-based container: a project description and any number of media
//! blobs appended to a host executable, and read back from the end of the
//! file without touching a byte of the host.
//!
//! Two generations of the format exist. The first frames a single payload,
//! the second a manifest that addresses the project JSON and every blob by
//! offset and size. Both end with a length field and a marker, so a reader
//! tells them apart by the trailing bytes alone.
//!
//! A file is modelled as its sequence of bytes. Writers say which bytes they
//! append; readers say which bytes, or which error, they return for every
//! file. The module `laws` proves what holds between them.
//!
//! Beside the container stand the small decisions of a build: which
//! template executable to take, which loose media file an id names, and the
//! entries of the icon file made from the application's image.

pub mod bytes;
pub mod container;
pub mod dispatch;
pub mod error;
pub mod icon;
pub mod laws;
pub mod manifest;
pub mod media_dir;
pub mod template;
pub mod text;
pub mod trailer;
pub mod v1;
pub mod v2;
