//! A unified, format-agnostic model for reading, writing and deleting the
//! metadata ("tags") embedded in audio files, over the `lofty` backend.
//!
//! One `Tag` type represents every supported field and picture whatever
//! the native format; the adapter translates it to and from the backend's
//! representation; the operation engine offers read, write and remove
//! operations with verified merge, retype and deletion semantics.

pub mod error;
pub mod picture;
pub mod tag;
pub mod model;
pub mod taggy_file;
pub mod backend;
pub mod adapter;
pub mod ops;

pub use error::TaggyError;
pub use picture::{MimeType, Picture, PictureType};
pub use tag::{Tag, TagBuilder, TagType};
pub use taggy_file::{FileProperties, TaggyFile};
pub use ops::{read_all, read_any, read_primary, remove_all, remove_tag, write_all, write_primary};
