use lofty::file::{FileType, TaggedFile};
use lofty::properties::FileProperties as BackendProperties;
use lofty::tag::Accessor;

use taggy::adapter::{from_native, picture_from_native, picture_to_native, to_native};
use taggy::ops::{apply_remove_all, apply_remove_tag, apply_write_all, apply_write_primary};
use taggy::ops::{snapshot_all, snapshot_primary};
use taggy::{MimeType, Picture, PictureType, Tag, TagType, TaggyError};

fn fake_path() -> String {
    String::from("fake/path/file.mp3")
}

fn empty_mpeg() -> TaggedFile {
    TaggedFile::new(FileType::Mpeg, BackendProperties::default(), Vec::new())
}

fn sample_picture() -> Picture {
    Picture {
        pic_type: PictureType::CoverFront,
        pic_data: vec![0xFF, 0xD8, 0x01, 0x02, 0x03],
        mime_type: Some(MimeType::Jpeg),
        width: None,
        height: None,
        color_depth: None,
        num_colors: None,
    }
}

#[test]
fn reading_non_existing_file_is_an_error() {
    let result = taggy::read_all(fake_path());
    assert!(result.is_err());
}

#[test]
fn writing_tags_to_non_existing_file_is_an_error() {
    let result = taggy::write_all(fake_path(), vec![], true);
    assert!(result.is_err());
}

#[test]
fn every_operation_reports_not_found_for_a_missing_path() {
    assert_eq!(taggy::read_all(fake_path()).unwrap_err(), TaggyError::NotFound);
    assert_eq!(taggy::read_primary(fake_path()).unwrap_err(), TaggyError::NotFound);
    assert_eq!(taggy::read_any(fake_path()).unwrap_err(), TaggyError::NotFound);
    assert_eq!(
        taggy::write_all(fake_path(), vec![Tag::new(TagType::Id3v2)], false).unwrap_err(),
        TaggyError::NotFound
    );
    assert_eq!(
        taggy::write_primary(fake_path(), Tag::new(TagType::FilePrimaryType), false).unwrap_err(),
        TaggyError::NotFound
    );
    assert_eq!(taggy::remove_all(fake_path()).unwrap_err(), TaggyError::NotFound);
    assert_eq!(
        taggy::remove_tag(fake_path(), Tag::new(TagType::Id3v2)).unwrap_err(),
        TaggyError::NotFound
    );
}

#[test]
fn not_found_error_carries_its_message() {
    assert_eq!(
        TaggyError::NotFound.message(),
        String::from("The file path does not exist!")
    );
}

#[test]
fn snapshot_of_a_file_with_no_tags_has_empty_tags() {
    let f = empty_mpeg();
    let taggy_file = snapshot_all(&f, String::from("a.mp3"));
    assert!(taggy_file.tags.is_empty());
    assert_eq!(taggy_file.path, String::from("a.mp3"));
    assert_eq!(taggy_file.primary_type, TagType::Id3v2);
}

#[test]
fn write_primary_forces_the_container_primary_type() {
    let mut f = empty_mpeg();
    let tag = Tag::builder()
        .with_tag_type(TagType::VorbisComments)
        .with_title(String::from("X"))
        .create();
    apply_write_primary(&mut f, &tag, false);
    let snap = snapshot_primary(&f, String::from("a.mp3"));
    let read_back = snap.primary_tag().expect("primary tag must exist after the write");
    assert_eq!(read_back.tag_type, TagType::Id3v2);
    assert_eq!(read_back.title, Some(String::from("X")));
    assert_eq!(read_back.artist, None);
    assert_eq!(read_back.year, None);
    assert!(read_back.pictures.is_empty());
}

#[test]
fn write_primary_accepts_the_placeholder_type() {
    let mut f = empty_mpeg();
    let tag = Tag::builder()
        .with_title(String::from("Song"))
        .with_artist(String::from("Band"))
        .create();
    assert_eq!(tag.tag_type, TagType::FilePrimaryType);
    apply_write_primary(&mut f, &tag, true);
    let snap = snapshot_primary(&f, String::from("a.mp3"));
    let read_back = snap.first_tag().expect("primary tag must exist after the write");
    assert_eq!(read_back.tag_type, TagType::Id3v2);
    assert_eq!(read_back.title, Some(String::from("Song")));
    assert_eq!(read_back.artist, Some(String::from("Band")));
}

#[test]
fn written_picture_reads_back_byte_for_byte() {
    let mut f = empty_mpeg();
    let pic = sample_picture();
    let tag = Tag::builder().with_pictures(vec![pic.clone()]).create();
    apply_write_primary(&mut f, &tag, false);
    let snap = snapshot_primary(&f, String::from("a.mp3"));
    let read_back = snap.primary_tag().expect("primary tag must exist after the write");
    assert_eq!(read_back.pictures.len(), 1);
    assert_eq!(read_back.pictures[0].pic_data, pic.pic_data);
    assert_eq!(read_back.pictures[0].pic_type, PictureType::CoverFront);
    assert_eq!(read_back.pictures[0].mime_type, Some(MimeType::Jpeg));
}

#[test]
fn unsupported_tag_type_does_not_block_the_batch() {
    let mut f = empty_mpeg();
    let rejected = Tag::builder()
        .with_tag_type(TagType::VorbisComments)
        .with_title(String::from("A"))
        .create();
    let accepted = Tag::builder()
        .with_tag_type(TagType::Id3v2)
        .with_title(String::from("B"))
        .create();
    apply_write_all(&mut f, &vec![rejected, accepted], false);
    let snap = snapshot_all(&f, String::from("a.mp3"));
    assert_eq!(snap.tags.len(), 1);
    assert_eq!(snap.tags[0].tag_type, TagType::Id3v2);
    assert_eq!(snap.tags[0].title, Some(String::from("B")));
    assert!(snap.tag_of_type(TagType::VorbisComments).is_none());
}

#[test]
fn removing_an_existing_tag_leaves_no_stale_fields() {
    let mut f = empty_mpeg();
    let tag = Tag::builder()
        .with_title(String::from("Old"))
        .with_artist(String::from("Gone"))
        .create();
    apply_write_primary(&mut f, &tag, false);
    let existed = apply_remove_tag(&mut f, TagType::Id3v2);
    assert!(existed);
    let snap = snapshot_primary(&f, String::from("a.mp3"));
    // in memory the empty replacement tag remains; nothing of the old
    // fields may survive in it
    let left = snap.primary_tag().expect("the empty replacement tag");
    assert_eq!(left, Tag::new(TagType::Id3v2));
}

#[test]
fn removing_an_absent_tag_is_a_successful_no_op() {
    let mut f = empty_mpeg();
    let existed = apply_remove_tag(&mut f, TagType::Ape);
    assert!(!existed);
    let snap = snapshot_all(&f, String::from("a.mp3"));
    assert!(snap.tags.is_empty());
}

#[test]
fn remove_all_leaves_one_empty_primary_tag_in_memory() {
    let mut f = empty_mpeg();
    let tag = Tag::builder().with_title(String::from("T")).create();
    apply_write_primary(&mut f, &tag, false);
    apply_remove_all(&mut f);
    let snap = snapshot_all(&f, String::from("a.mp3"));
    assert_eq!(snap.tags.len(), 1);
    assert_eq!(snap.tags[0], Tag::new(TagType::Id3v2));
}

#[test]
fn adapter_round_trip_keeps_every_field_on_a_full_format() {
    let tag = Tag {
        tag_type: TagType::Id3v2,
        title: Some(String::from("Title")),
        artist: Some(String::from("Artist")),
        album: Some(String::from("Album")),
        album_artist: Some(String::from("Album Artist")),
        genre: Some(String::from("Genre")),
        comment: Some(String::from("Comment")),
        year: Some(1984),
        track_number: Some(3),
        track_total: Some(12),
        disc_number: Some(1),
        disc_total: Some(2),
        pictures: vec![sample_picture()],
    };
    let native = to_native(&tag);
    let back = from_native(&native);
    assert_eq!(back, tag);
}

#[test]
fn adapter_drops_fields_the_format_cannot_carry() {
    let tag = Tag {
        tag_type: TagType::Id3v1,
        title: Some(String::from("Title")),
        artist: None,
        album: Some(String::from("Album")),
        album_artist: Some(String::from("Album Artist")),
        genre: Some(String::from("Genre")),
        comment: None,
        year: Some(1999),
        track_number: Some(7),
        track_total: Some(9),
        disc_number: Some(1),
        disc_total: Some(2),
        pictures: vec![],
    };
    let back = from_native(&to_native(&tag));
    assert_eq!(back.title, Some(String::from("Title")));
    assert_eq!(back.album, Some(String::from("Album")));
    assert_eq!(back.genre, Some(String::from("Genre")));
    assert_eq!(back.year, Some(1999));
    assert_eq!(back.track_number, Some(7));
    // formats without a key for a field keep it absent
    assert_eq!(back.album_artist, None);
    assert_eq!(back.track_total, None);
    assert_eq!(back.disc_number, None);
    assert_eq!(back.disc_total, None);
}

#[test]
fn a_year_outside_the_native_range_is_dropped() {
    let tag = Tag::builder()
        .with_tag_type(TagType::Id3v2)
        .with_year(10000)
        .create();
    let back = from_native(&to_native(&tag));
    assert_eq!(back.year, None);
    let ok_tag = Tag::builder()
        .with_tag_type(TagType::Id3v2)
        .with_year(9999)
        .create();
    assert_eq!(from_native(&to_native(&ok_tag)).year, Some(9999));
}

#[test]
fn to_native_agrees_with_the_backend_accessors() {
    let tag = Tag::builder()
        .with_tag_type(TagType::Id3v2)
        .with_title(String::from("T"))
        .with_artist(String::from("A"))
        .with_track_number(4)
        .create();
    let native = to_native(&tag);
    assert_eq!(native.title().as_deref(), Some("T"));
    assert_eq!(native.artist().as_deref(), Some("A"));
    assert_eq!(native.track(), Some(4));
    assert_eq!(native.album(), None);
    assert_eq!(native.tag_type(), lofty::tag::TagType::Id3v2);
}

#[test]
fn picture_conversion_classifies_unknown_roles_and_mimes() {
    let exotic = lofty::picture::Picture::unchecked(vec![1, 2, 3, 4])
        .pic_type(lofty::picture::PictureType::Band)
        .mime_type(lofty::picture::MimeType::Unknown(String::from("application/x-weird")))
        .build();
    let p = picture_from_native(&exotic);
    assert_eq!(p.pic_type, PictureType::Other);
    assert_eq!(p.mime_type, None);
    assert_eq!(p.pic_data, vec![1, 2, 3, 4]);
}

#[test]
fn picture_conversion_round_trips_the_recognised_kinds() {
    let pic = sample_picture();
    let back = picture_from_native(&picture_to_native(&pic));
    assert_eq!(back, pic);
}

#[test]
fn the_builder_sets_only_the_given_fields() {
    let tag = Tag::builder()
        .with_tag_type(TagType::Ape)
        .with_genre(String::from("Jazz"))
        .with_disc_number(2)
        .create();
    assert_eq!(tag.tag_type, TagType::Ape);
    assert_eq!(tag.genre, Some(String::from("Jazz")));
    assert_eq!(tag.disc_number, Some(2));
    assert_eq!(tag.title, None);
    assert_eq!(tag.year, None);
    assert!(tag.pictures.is_empty());
    assert_eq!(Tag::new(TagType::Ape).genre, None);
}

#[test]
fn primary_and_first_tag_pick_the_right_snapshot_entries() {
    let ape = Tag::builder().with_tag_type(TagType::Ape).with_title(String::from("a")).create();
    let id3 = Tag::builder().with_tag_type(TagType::Id3v2).with_title(String::from("b")).create();
    let file = taggy::TaggyFile {
        path: String::from("x.mp3"),
        primary_type: TagType::Id3v2,
        properties: taggy::FileProperties {
            duration_ms: 0,
            overall_bitrate: None,
            audio_bitrate: None,
            sample_rate: None,
            bit_depth: None,
            channels: None,
        },
        tags: vec![ape.clone(), id3.clone()],
    };
    assert_eq!(file.first_tag(), Some(ape));
    assert_eq!(file.primary_tag(), Some(id3));
    assert_eq!(file.tag_of_type(TagType::VorbisComments), None);
}

#[test]
fn primary_and_any_reads_differ_when_only_a_secondary_tag_exists() {
    let mut f = empty_mpeg();
    let ape = Tag::builder()
        .with_tag_type(TagType::Ape)
        .with_title(String::from("only"))
        .create();
    apply_write_all(&mut f, &vec![ape.clone()], false);
    let primary_snap = taggy::ops::snapshot_primary(&f, String::from("a.mp3"));
    assert!(primary_snap.tags.is_empty());
    assert!(primary_snap.primary_tag().is_none());
    let any_snap = taggy::ops::snapshot_any(&f, String::from("a.mp3"));
    assert_eq!(any_snap.tags.len(), 1);
    assert_eq!(any_snap.first_tag(), Some(ape));
}
