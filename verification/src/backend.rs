//! The boundary with the native tag backend (the `lofty` crate).
//!
//! Everything the engine knows of a parsed file is stated here, over four
//! names for what a parsed file holds and two names for what a native tag
//! and a native picture hold. Each wrapper's contract says no more than
//! the backend's source shows of the one call it makes.

use vstd::prelude::*;
use crate::error::TaggyError;
use crate::model::{
    find_type, has_type, insert_tag_view, is_resolved_type, full_field_support, maps_album,
    maps_album_artist, maps_artist, maps_comment, maps_disc_number, maps_disc_total, maps_genre,
    maps_title, maps_track_number, maps_track_total, maps_year, remove_first,
};
use crate::picture::{PictureView, mime_of_str, pic_type_of_code};
use crate::tag::{TagType, TagView, empty_tag_view, os_view};
use crate::taggy_file::FileProperties;
use lofty::file::{AudioFile, TaggedFileExt};
use lofty::tag::Accessor;
use lofty::file::TaggedFile as BackendFile;
use lofty::tag::Tag as BackendTag;
use lofty::tag::TagType as BackendTagType;
use lofty::picture::Picture as BackendPicture;

verus! {

#[verifier::external_type_specification]
#[verifier::external_body]
pub struct ExTaggedFile(BackendFile);

#[verifier::external_type_specification]
#[verifier::external_body]
pub struct ExLoftyTag(BackendTag);

#[verifier::external_type_specification]
#[verifier::external_body]
pub struct ExLoftyPicture(BackendPicture);

#[verifier::external_type_specification]
#[verifier::external_body]
pub struct ExLoftyTagType(BackendTagType);

/// What a parsed file holds: its tags in discovery order, at the level the
/// unified model reads them.
pub uninterp spec fn tags_of(f: BackendFile) -> Seq<TagView>;

/// The tag format the parsed file's container natively prefers.
pub uninterp spec fn primary_of(f: BackendFile) -> TagType;

/// The tag formats the parsed file's container can host at all.
pub uninterp spec fn supported_of(f: BackendFile) -> Set<TagType>;

/// The parsed file's audio stream summary.
pub uninterp spec fn props_of(f: BackendFile) -> FileProperties;

/// Whether the parsed file's container format is one of the backend's
/// built-in ones. For a custom format registered by the host process the
/// backend consults a global resolver registry, whose answers (and whose
/// very presence) are process state; the contracts that depend on the
/// registry hold only of built-in containers.
pub uninterp spec fn builtin_of(f: BackendFile) -> bool;

/// What a native tag holds, at the level the unified model reads it:
/// its format, the enumerated fields, and its pictures in order.
pub uninterp spec fn ltag_view(t: BackendTag) -> TagView;

/// What a native picture holds: its role, its MIME kind as the unified
/// model classifies it, and its bytes.
pub uninterp spec fn lpic_view(p: BackendPicture) -> PictureView;

/// Relies on `lofty::probe::Probe::open` and `Probe::read`: the first
/// only opens the path (any failure there means the path does not resolve
/// to an openable file), the second probes the container format and
/// parses every tag. Every built-in container parser yields at most one
/// tag per format, so a built-in parse presents one tag per format.
#[verifier::external_body]
pub(crate) fn backend_open(path: &String) -> (r: Result<BackendFile, TaggyError>)
    ensures
        r matches Err(e) ==> (e is NotFound || e matches TaggyError::Parse(_)),
        r matches Ok(f) ==> (builtin_of(f) ==> crate::model::unique_types(tags_of(f))),
{
    match lofty::probe::Probe::open(path.as_str()) {
        Err(_) => Err(TaggyError::NotFound),
        Ok(p) => match p.read() {
            Ok(f) => Ok(f),
            Err(e) => Err(TaggyError::Parse(format!("{e}"))),
        },
    }
}

/// Relies on `AudioFile::save_to_path` for `lofty::file::TaggedFile`:
/// reopens the file at the path for writing and writes every writable
/// tag back to it. The save asks the format registry whether each tag is
/// writable, so it is restricted to built-in containers.
#[verifier::external_body]
pub(crate) fn tf_save(f: &BackendFile, path: &String) -> (r: Result<(), TaggyError>)
    requires
        builtin_of(*f),
    ensures
        r matches Err(e) ==> e matches TaggyError::Save(_),
{
    match f.save_to_path(path.as_str(), lofty::config::WriteOptions::default()) {
        Ok(()) => Ok(()),
        Err(e) => Err(TaggyError::Save(format!("{e}"))),
    }
}

/// Relies on `TaggedFileExt::tags`: the parsed file's tags as a slice.
#[verifier::external_body]
pub(crate) fn tf_tag_count(f: &BackendFile) -> (r: usize)
    ensures
        r == tags_of(*f).len(),
{
    f.tags().len()
}

/// Relies on `TaggedFileExt::tags`: the tag at a discovery-order index.
#[verifier::external_body]
pub(crate) fn tf_tag_at(f: &BackendFile, i: usize) -> (r: BackendTag)
    requires
        i < tags_of(*f).len(),
    ensures
        ltag_view(r) == tags_of(*f)[i as int],
{
    f.tags()[i].clone()
}

/// Relies on `TaggedFileExt::primary_tag_type`: the format the container
/// prefers. For every built-in container format its table returns only
/// Ape, Id3v2, Mp4Ilst or VorbisComments, each of which the container
/// also supports and each of which carries every unified field. For a
/// custom format the call would consult the host's resolver registry, so
/// built-in containers are required.
#[verifier::external_body]
pub(crate) fn tf_primary_type(f: &BackendFile) -> (r: TagType)
    requires
        builtin_of(*f),
    ensures
        r == primary_of(*f),
        supported_of(*f).contains(r),
        full_field_support(r),
{
    match f.primary_tag_type() {
        lofty::tag::TagType::Ape => TagType::Ape,
        lofty::tag::TagType::Id3v2 => TagType::Id3v2,
        lofty::tag::TagType::Mp4Ilst => TagType::Mp4Ilst,
        lofty::tag::TagType::VorbisComments => TagType::VorbisComments,
        lofty::tag::TagType::Id3v1 => TagType::Id3v1,
        lofty::tag::TagType::RiffInfo => TagType::RiffInfo,
        lofty::tag::TagType::AiffText => TagType::AiffText,
        // the backend's enum is non-exhaustive; every current variant is covered above
        _ => TagType::Id3v2,
    }
}

/// Relies on `TaggedFileExt::clear`: every tag leaves; the container
/// itself is untouched.
#[verifier::external_body]
pub(crate) fn tf_clear(f: &mut BackendFile)
    ensures
        tags_of(*final(f)) == Seq::<TagView>::empty(),
        primary_of(*final(f)) == primary_of(*old(f)),
        supported_of(*final(f)) == supported_of(*old(f)),
        builtin_of(*final(f)) == builtin_of(*old(f)),
        props_of(*final(f)) == props_of(*old(f)),
{
    f.clear()
}

/// Relies on `TaggedFileExt::insert_tag`: if the container supports the
/// tag's format, any existing tag of that format leaves (and comes back as
/// the result) and the new tag goes to the end; otherwise nothing changes
/// and the result is absent. The support test asks the format registry,
/// so built-in containers are required.
#[verifier::external_body]
pub(crate) fn tf_insert(f: &mut BackendFile, t: BackendTag) -> (r: Option<BackendTag>)
    requires
        builtin_of(*old(f)),
    ensures
        tags_of(*final(f)) == insert_tag_view(tags_of(*old(f)), supported_of(*old(f)), ltag_view(t)),
        supported_of(*old(f)).contains(ltag_view(t).tag_type) ==> (r is Some <==> has_type(
            tags_of(*old(f)),
            ltag_view(t).tag_type,
        )),
        !supported_of(*old(f)).contains(ltag_view(t).tag_type) ==> r is None,
        r matches Some(o) ==> ltag_view(o) == find_type(
            tags_of(*old(f)),
            ltag_view(t).tag_type,
        ).unwrap(),
        primary_of(*final(f)) == primary_of(*old(f)),
        supported_of(*final(f)) == supported_of(*old(f)),
        builtin_of(*final(f)) == builtin_of(*old(f)),
        props_of(*final(f)) == props_of(*old(f)),
{
    f.insert_tag(t)
}

/// Relies on `TaggedFileExt::remove`: the first tag of the format leaves
/// and comes back as the result; absent when no tag had the format.
#[verifier::external_body]
pub(crate) fn tf_remove(f: &mut BackendFile, tt: TagType) -> (r: Option<BackendTag>)
    requires
        tt != TagType::FilePrimaryType,
    ensures
        r is Some <==> has_type(tags_of(*old(f)), tt),
        r matches Some(o) ==> ltag_view(o) == find_type(tags_of(*old(f)), tt).unwrap(),
        tags_of(*final(f)) == remove_first(tags_of(*old(f)), tt),
        primary_of(*final(f)) == primary_of(*old(f)),
        supported_of(*final(f)) == supported_of(*old(f)),
        builtin_of(*final(f)) == builtin_of(*old(f)),
        props_of(*final(f)) == props_of(*old(f)),
{
    f.remove(to_backend_tag_type(tt))
}

/// Relies on `AudioFile::properties` and the `FileProperties` accessors:
/// the stream summary, converted field by field.
#[verifier::external_body]
pub(crate) fn tf_properties(f: &BackendFile) -> (r: FileProperties)
    ensures
        r == props_of(*f),
{
    let p = f.properties();
    FileProperties {
        duration_ms: p.duration().as_millis() as u64,
        overall_bitrate: p.overall_bitrate(),
        audio_bitrate: p.audio_bitrate(),
        sample_rate: p.sample_rate(),
        bit_depth: p.bit_depth(),
        channels: p.channels(),
    }
}

/// Relies on `TaggedFileExt::file_type`: whether the container format is
/// a built-in one (anything but the backend's custom-format variant).
#[verifier::external_body]
pub(crate) fn tf_is_builtin(f: &BackendFile) -> (r: bool)
    ensures
        r == builtin_of(*f),
{
    match f.file_type() {
        lofty::file::FileType::Custom(_) => false,
        _ => true,
    }
}

/// The backend's discriminator for each resolved unified format.
/// Only called from the wrappers; never from verified code.
#[verifier::external_body]
fn to_backend_tag_type(tt: TagType) -> BackendTagType {
    match tt {
        TagType::Ape => lofty::tag::TagType::Ape,
        TagType::Id3v1 => lofty::tag::TagType::Id3v1,
        TagType::Id3v2 => lofty::tag::TagType::Id3v2,
        TagType::Mp4Ilst => lofty::tag::TagType::Mp4Ilst,
        TagType::VorbisComments => lofty::tag::TagType::VorbisComments,
        TagType::RiffInfo => lofty::tag::TagType::RiffInfo,
        TagType::AiffText => lofty::tag::TagType::AiffText,
        // excluded by every caller's requires; kept total for the compiler
        TagType::FilePrimaryType => lofty::tag::TagType::Id3v2,
    }
}

/// Relies on `lofty::tag::Tag::new`: a tag of the format with no items and
/// no pictures.
#[verifier::external_body]
pub(crate) fn ltag_new(tt: TagType) -> (r: BackendTag)
    requires
        tt != TagType::FilePrimaryType,
    ensures
        ltag_view(r) == empty_tag_view(tt),
{
    BackendTag::new(to_backend_tag_type(tt))
}

/// Relies on `lofty::tag::Tag::tag_type`.
#[verifier::external_body]
pub(crate) fn ltag_type(t: &BackendTag) -> (r: TagType)
    ensures
        r == ltag_view(*t).tag_type,
        is_resolved_type(r),
{
    match t.tag_type() {
        lofty::tag::TagType::Ape => TagType::Ape,
        lofty::tag::TagType::Id3v1 => TagType::Id3v1,
        lofty::tag::TagType::Id3v2 => TagType::Id3v2,
        lofty::tag::TagType::Mp4Ilst => TagType::Mp4Ilst,
        lofty::tag::TagType::VorbisComments => TagType::VorbisComments,
        lofty::tag::TagType::RiffInfo => TagType::RiffInfo,
        lofty::tag::TagType::AiffText => TagType::AiffText,
        // the backend's enum is non-exhaustive; every current variant is covered above
        _ => TagType::Id3v2,
    }
}


/// Relies on `Accessor::set_title` for `lofty::tag::Tag`: on a format
/// whose key map carries the field it replaces the stored value; on one
/// that does not, the insert is silently refused and nothing changes.
#[verifier::external_body]
pub(crate) fn ltag_set_title(t: &mut BackendTag, v: String)
    ensures
        ltag_view(*final(t)) == (TagView {
            title: if maps_title(ltag_view(*old(t)).tag_type) {
                Some(v@)
            } else {
                ltag_view(*old(t)).title
            },
            ..ltag_view(*old(t))
        }),
{
    t.set_title(v)
}

/// Relies on `Accessor::title` for `lofty::tag::Tag`: the stored value,
/// if any.
#[verifier::external_body]
pub(crate) fn ltag_title(t: &BackendTag) -> (r: Option<String>)
    ensures
        os_view(r) == ltag_view(*t).title,
{
    match t.title() {
        Some(c) => Some(c.into_owned()),
        None => None,
    }
}

/// Relies on `Accessor::set_artist` for `lofty::tag::Tag`: on a format
/// whose key map carries the field it replaces the stored value; on one
/// that does not, the insert is silently refused and nothing changes.
#[verifier::external_body]
pub(crate) fn ltag_set_artist(t: &mut BackendTag, v: String)
    ensures
        ltag_view(*final(t)) == (TagView {
            artist: if maps_artist(ltag_view(*old(t)).tag_type) {
                Some(v@)
            } else {
                ltag_view(*old(t)).artist
            },
            ..ltag_view(*old(t))
        }),
{
    t.set_artist(v)
}

/// Relies on `Accessor::artist` for `lofty::tag::Tag`: the stored value,
/// if any.
#[verifier::external_body]
pub(crate) fn ltag_artist(t: &BackendTag) -> (r: Option<String>)
    ensures
        os_view(r) == ltag_view(*t).artist,
{
    match t.artist() {
        Some(c) => Some(c.into_owned()),
        None => None,
    }
}

/// Relies on `Accessor::set_album` for `lofty::tag::Tag`: on a format
/// whose key map carries the field it replaces the stored value; on one
/// that does not, the insert is silently refused and nothing changes.
#[verifier::external_body]
pub(crate) fn ltag_set_album(t: &mut BackendTag, v: String)
    ensures
        ltag_view(*final(t)) == (TagView {
            album: if maps_album(ltag_view(*old(t)).tag_type) {
                Some(v@)
            } else {
                ltag_view(*old(t)).album
            },
            ..ltag_view(*old(t))
        }),
{
    t.set_album(v)
}

/// Relies on `Accessor::album` for `lofty::tag::Tag`: the stored value,
/// if any.
#[verifier::external_body]
pub(crate) fn ltag_album(t: &BackendTag) -> (r: Option<String>)
    ensures
        os_view(r) == ltag_view(*t).album,
{
    match t.album() {
        Some(c) => Some(c.into_owned()),
        None => None,
    }
}

/// Relies on `Accessor::set_genre` for `lofty::tag::Tag`: on a format
/// whose key map carries the field it replaces the stored value; on one
/// that does not, the insert is silently refused and nothing changes.
#[verifier::external_body]
pub(crate) fn ltag_set_genre(t: &mut BackendTag, v: String)
    ensures
        ltag_view(*final(t)) == (TagView {
            genre: if maps_genre(ltag_view(*old(t)).tag_type) {
                Some(v@)
            } else {
                ltag_view(*old(t)).genre
            },
            ..ltag_view(*old(t))
        }),
{
    t.set_genre(v)
}

/// Relies on `Accessor::genre` for `lofty::tag::Tag`: the stored value,
/// if any.
#[verifier::external_body]
pub(crate) fn ltag_genre(t: &BackendTag) -> (r: Option<String>)
    ensures
        os_view(r) == ltag_view(*t).genre,
{
    match t.genre() {
        Some(c) => Some(c.into_owned()),
        None => None,
    }
}

/// Relies on `Accessor::set_comment` for `lofty::tag::Tag`: on a format
/// whose key map carries the field it replaces the stored value; on one
/// that does not, the insert is silently refused and nothing changes.
#[verifier::external_body]
pub(crate) fn ltag_set_comment(t: &mut BackendTag, v: String)
    ensures
        ltag_view(*final(t)) == (TagView {
            comment: if maps_comment(ltag_view(*old(t)).tag_type) {
                Some(v@)
            } else {
                ltag_view(*old(t)).comment
            },
            ..ltag_view(*old(t))
        }),
{
    t.set_comment(v)
}

/// Relies on `Accessor::comment` for `lofty::tag::Tag`: the stored value,
/// if any.
#[verifier::external_body]
pub(crate) fn ltag_comment(t: &BackendTag) -> (r: Option<String>)
    ensures
        os_view(r) == ltag_view(*t).comment,
{
    match t.comment() {
        Some(c) => Some(c.into_owned()),
        None => None,
    }
}

/// Relies on `Accessor::set_track` for `lofty::tag::Tag`: stores the
/// number as a text item on a format whose key map carries the field;
/// on one that does not, nothing changes.
#[verifier::external_body]
pub(crate) fn ltag_set_track(t: &mut BackendTag, v: u32)
    ensures
        ltag_view(*final(t)) == (TagView {
            track_number: if maps_track_number(ltag_view(*old(t)).tag_type) {
                Some(v)
            } else {
                ltag_view(*old(t)).track_number
            },
            ..ltag_view(*old(t))
        }),
{
    t.set_track(v)
}

/// Relies on `Accessor::track` for `lofty::tag::Tag`: the stored number,
/// if any.
#[verifier::external_body]
pub(crate) fn ltag_track(t: &BackendTag) -> (r: Option<u32>)
    ensures
        r == ltag_view(*t).track_number,
{
    t.track()
}

/// Relies on `Accessor::set_track_total` for `lofty::tag::Tag`: stores the
/// number as a text item on a format whose key map carries the field;
/// on one that does not, nothing changes.
#[verifier::external_body]
pub(crate) fn ltag_set_track_total(t: &mut BackendTag, v: u32)
    ensures
        ltag_view(*final(t)) == (TagView {
            track_total: if maps_track_total(ltag_view(*old(t)).tag_type) {
                Some(v)
            } else {
                ltag_view(*old(t)).track_total
            },
            ..ltag_view(*old(t))
        }),
{
    t.set_track_total(v)
}

/// Relies on `Accessor::track_total` for `lofty::tag::Tag`: the stored number,
/// if any.
#[verifier::external_body]
pub(crate) fn ltag_track_total(t: &BackendTag) -> (r: Option<u32>)
    ensures
        r == ltag_view(*t).track_total,
{
    t.track_total()
}

/// Relies on `Accessor::set_disk` for `lofty::tag::Tag`: stores the
/// number as a text item on a format whose key map carries the field;
/// on one that does not, nothing changes.
#[verifier::external_body]
pub(crate) fn ltag_set_disk(t: &mut BackendTag, v: u32)
    ensures
        ltag_view(*final(t)) == (TagView {
            disc_number: if maps_disc_number(ltag_view(*old(t)).tag_type) {
                Some(v)
            } else {
                ltag_view(*old(t)).disc_number
            },
            ..ltag_view(*old(t))
        }),
{
    t.set_disk(v)
}

/// Relies on `Accessor::disk` for `lofty::tag::Tag`: the stored number,
/// if any.
#[verifier::external_body]
pub(crate) fn ltag_disk(t: &BackendTag) -> (r: Option<u32>)
    ensures
        r == ltag_view(*t).disc_number,
{
    t.disk()
}

/// Relies on `Accessor::set_disk_total` for `lofty::tag::Tag`: stores the
/// number as a text item on a format whose key map carries the field;
/// on one that does not, nothing changes.
#[verifier::external_body]
pub(crate) fn ltag_set_disk_total(t: &mut BackendTag, v: u32)
    ensures
        ltag_view(*final(t)) == (TagView {
            disc_total: if maps_disc_total(ltag_view(*old(t)).tag_type) {
                Some(v)
            } else {
                ltag_view(*old(t)).disc_total
            },
            ..ltag_view(*old(t))
        }),
{
    t.set_disk_total(v)
}

/// Relies on `Accessor::disk_total` for `lofty::tag::Tag`: the stored number,
/// if any.
#[verifier::external_body]
pub(crate) fn ltag_disk_total(t: &BackendTag) -> (r: Option<u32>)
    ensures
        r == ltag_view(*t).disc_total,
{
    t.disk_total()
}

/// Relies on `lofty::tag::Tag::insert_text` with `ItemKey::AlbumArtist`:
/// on a format whose key map carries the field it replaces the stored
/// value; on one that does not, the insert is silently refused.
#[verifier::external_body]
pub(crate) fn ltag_set_album_artist(t: &mut BackendTag, v: String)
    ensures
        ltag_view(*final(t)) == (TagView {
            album_artist: if maps_album_artist(ltag_view(*old(t)).tag_type) {
                Some(v@)
            } else {
                ltag_view(*old(t)).album_artist
            },
            ..ltag_view(*old(t))
        }),
{
    t.insert_text(lofty::tag::ItemKey::AlbumArtist, v);
}

/// Relies on `lofty::tag::Tag::get_string` with `ItemKey::AlbumArtist`.
#[verifier::external_body]
pub(crate) fn ltag_album_artist(t: &BackendTag) -> (r: Option<String>)
    ensures
        os_view(r) == ltag_view(*t).album_artist,
{
    match t.get_string(lofty::tag::ItemKey::AlbumArtist) {
        Some(s) => Some(s.to_owned()),
        None => None,
    }
}

/// Relies on `Accessor::set_date` for `lofty::tag::Tag`: stores a
/// year-only timestamp (written and re-read as a four-digit year) on a
/// format whose key map carries a date; on one that does not, nothing
/// changes.
#[verifier::external_body]
pub(crate) fn ltag_set_year(t: &mut BackendTag, v: u32)
    requires
        v <= 9999,
    ensures
        ltag_view(*final(t)) == (TagView {
            year: if maps_year(ltag_view(*old(t)).tag_type) {
                Some(v)
            } else {
                ltag_view(*old(t)).year
            },
            ..ltag_view(*old(t))
        }),
{
    t.set_date(lofty::tag::items::Timestamp { year: v as u16, ..Default::default() })
}

/// Relies on `Accessor::date` for `lofty::tag::Tag`: the year component
/// of the stored date, if one is stored and parses.
#[verifier::external_body]
pub(crate) fn ltag_year(t: &BackendTag) -> (r: Option<u32>)
    ensures
        r == ltag_view(*t).year,
{
    match t.date() {
        Some(d) => Some(u32::from(d.year)),
        None => None,
    }
}

/// Relies on `lofty::tag::Tag::pictures`: how many pictures are stored.
#[verifier::external_body]
pub(crate) fn ltag_picture_count(t: &BackendTag) -> (r: usize)
    ensures
        r == ltag_view(*t).pictures.len(),
{
    t.pictures().len()
}

/// Relies on `lofty::tag::Tag::pictures`: the picture at an index.
#[verifier::external_body]
pub(crate) fn ltag_picture_at(t: &BackendTag, i: usize) -> (r: BackendPicture)
    requires
        i < ltag_view(*t).pictures.len(),
    ensures
        lpic_view(r) == ltag_view(*t).pictures[i as int],
{
    t.pictures()[i].clone()
}

/// Relies on `lofty::tag::Tag::push_picture`: the picture goes to the end
/// of the stored sequence, on every format.
#[verifier::external_body]
pub(crate) fn ltag_push_picture(t: &mut BackendTag, p: BackendPicture)
    ensures
        ltag_view(*final(t)) == (TagView {
            pictures: ltag_view(*old(t)).pictures.push(lpic_view(p)),
            ..ltag_view(*old(t))
        }),
{
    t.push_picture(p)
}

/// Relies on the `lofty::picture::Picture` builder (`unchecked`,
/// `pic_type`, `mime_type`, `build`): a picture with exactly the given
/// bytes, the role named by the APIC code, and the MIME kind classified
/// from the canonical string.
#[verifier::external_body]
pub(crate) fn make_backend_picture(code: u8, mime: Option<String>, data: Vec<u8>) -> (r:
    BackendPicture)
    requires
        mime matches Some(s) ==> mime_of_str(s@) is Some,
    ensures
        lpic_view(r) == (PictureView {
            pic_type: pic_type_of_code(code),
            mime_type: match mime {
                Some(s) => mime_of_str(s@),
                None => None,
            },
            pic_data: data@,
        }),
{
    let mut b = BackendPicture::unchecked(data).pic_type(lofty::picture::PictureType::from_u8(code));
    if let Some(m) = mime {
        b = b.mime_type(lofty::picture::MimeType::from_str(&m));
    }
    b.build()
}

/// Relies on `lofty::picture::Picture::data`.
#[verifier::external_body]
pub(crate) fn lpic_data(p: &BackendPicture) -> (r: Vec<u8>)
    ensures
        r@ == lpic_view(*p).pic_data,
{
    p.data().to_vec()
}

/// Relies on `lofty::picture::Picture::pic_type` and
/// `PictureType::as_u8`: the stored role as its APIC code; roles outside
/// the unified model classify as `Other`.
#[verifier::external_body]
pub(crate) fn lpic_type_code(p: &BackendPicture) -> (r: u8)
    ensures
        pic_type_of_code(r) == lpic_view(*p).pic_type,
{
    p.pic_type().as_u8()
}

/// Relies on `lofty::picture::Picture::mime_type` and
/// `MimeType::as_str`: the stored MIME kind as its string; strings outside
/// the recognised kinds classify as absent.
#[verifier::external_body]
pub(crate) fn lpic_mime(p: &BackendPicture) -> (r: Option<String>)
    ensures
        (match r {
            Some(s) => mime_of_str(s@),
            None => None,
        }) == lpic_view(*p).mime_type,
{
    match p.mime_type() {
        Some(m) => Some(m.as_str().to_owned()),
        None => None,
    }
}

} // verus!
