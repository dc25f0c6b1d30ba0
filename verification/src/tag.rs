use vstd::prelude::*;
use crate::picture::{Picture, PictureView};

verus! {

/// The native tag formats the unified model can address, plus the
/// `FilePrimaryType` sentinel. The sentinel is a write-time directive
/// ("use whatever format this container prefers"); it is never stored on a
/// tag resolved from a file.
#[derive(Clone, Copy, Debug, PartialEq, Eq, Hash, Structural)]
pub enum TagType {
    Ape,
    Id3v1,
    Id3v2,
    Mp4Ilst,
    VorbisComments,
    RiffInfo,
    AiffText,
    FilePrimaryType,
}

/// One tag instance in the unified model: a format discriminator plus the
/// enumerated optional fields and an ordered picture sequence.
#[derive(Clone, Debug, PartialEq)]
pub struct Tag {
    pub tag_type: TagType,
    pub title: Option<String>,
    pub artist: Option<String>,
    pub album: Option<String>,
    pub album_artist: Option<String>,
    pub genre: Option<String>,
    pub comment: Option<String>,
    pub year: Option<u32>,
    pub track_number: Option<u32>,
    pub track_total: Option<u32>,
    pub disc_number: Option<u32>,
    pub disc_total: Option<u32>,
    pub pictures: Vec<Picture>,
}

/// The mathematical content of a [`Tag`].
#[verifier::ext_equal]
pub ghost struct TagView {
    pub tag_type: TagType,
    pub title: Option<Seq<char>>,
    pub artist: Option<Seq<char>>,
    pub album: Option<Seq<char>>,
    pub album_artist: Option<Seq<char>>,
    pub genre: Option<Seq<char>>,
    pub comment: Option<Seq<char>>,
    pub year: Option<u32>,
    pub track_number: Option<u32>,
    pub track_total: Option<u32>,
    pub disc_number: Option<u32>,
    pub disc_total: Option<u32>,
    pub pictures: Seq<PictureView>,
}

/// The view of an optional owned string.
pub open spec fn os_view(o: Option<String>) -> Option<Seq<char>> {
    match o {
        Some(s) => Some(s@),
        None => None,
    }
}

/// The views of a sequence of pictures.
pub open spec fn pics_view(ps: Seq<Picture>) -> Seq<PictureView> {
    Seq::new(ps.len(), |i: int| ps[i]@)
}

impl View for Tag {
    type V = TagView;

    open spec fn view(&self) -> TagView {
        TagView {
            tag_type: self.tag_type,
            title: os_view(self.title),
            artist: os_view(self.artist),
            album: os_view(self.album),
            album_artist: os_view(self.album_artist),
            genre: os_view(self.genre),
            comment: os_view(self.comment),
            year: self.year,
            track_number: self.track_number,
            track_total: self.track_total,
            disc_number: self.disc_number,
            disc_total: self.disc_total,
            pictures: pics_view(self.pictures@),
        }
    }
}

/// The canonical empty tag of a format: every field absent, no pictures.
/// Writing it over an existing tag of the same format is how the engine
/// clears that format's stored bytes.
pub open spec fn empty_tag_view(tt: TagType) -> TagView {
    TagView {
        tag_type: tt,
        title: None,
        artist: None,
        album: None,
        album_artist: None,
        genre: None,
        comment: None,
        year: None,
        track_number: None,
        track_total: None,
        disc_number: None,
        disc_total: None,
        pictures: Seq::empty(),
    }
}

impl Tag {
    /// The canonical "empty tag" of a format, used for deletion semantics.
    pub fn new(tag_type: TagType) -> (r: Tag)
        ensures
            r@ == empty_tag_view(tag_type),
            r.tag_type == tag_type,
    {
        let r = Tag {
            tag_type,
            title: None,
            artist: None,
            album: None,
            album_artist: None,
            genre: None,
            comment: None,
            year: None,
            track_number: None,
            track_total: None,
            disc_number: None,
            disc_total: None,
            pictures: Vec::new(),
        };
        proof {
            assert(r@ =~= empty_tag_view(tag_type));
        }
        r
    }

    /// Starts a builder whose unset fields default to absent and whose
    /// format defaults to the `FilePrimaryType` directive.
    pub fn builder() -> (r: TagBuilder)
        ensures
            r.tag@ == empty_tag_view(TagType::FilePrimaryType),
    {
        TagBuilder { tag: Tag::new(TagType::FilePrimaryType) }
    }
}

/// Fluent construction of a [`Tag`]: any subset of fields may be set,
/// the rest stay absent.
pub struct TagBuilder {
    pub tag: Tag,
}

impl TagBuilder {
    pub fn with_tag_type(self, tag_type: TagType) -> (r: TagBuilder)
        ensures
            r.tag@ == (TagView { tag_type: tag_type, ..self.tag@ }),
    {
        let mut t = self.tag;
        t.tag_type = tag_type;
        TagBuilder { tag: t }
    }

    pub fn with_title(self, title: String) -> (r: TagBuilder)
        ensures
            r.tag@ == (TagView { title: Some(title@), ..self.tag@ }),
    {
        let mut t = self.tag;
        t.title = Some(title);
        TagBuilder { tag: t }
    }

    pub fn with_artist(self, artist: String) -> (r: TagBuilder)
        ensures
            r.tag@ == (TagView { artist: Some(artist@), ..self.tag@ }),
    {
        let mut t = self.tag;
        t.artist = Some(artist);
        TagBuilder { tag: t }
    }

    pub fn with_album(self, album: String) -> (r: TagBuilder)
        ensures
            r.tag@ == (TagView { album: Some(album@), ..self.tag@ }),
    {
        let mut t = self.tag;
        t.album = Some(album);
        TagBuilder { tag: t }
    }

    pub fn with_album_artist(self, album_artist: String) -> (r: TagBuilder)
        ensures
            r.tag@ == (TagView { album_artist: Some(album_artist@), ..self.tag@ }),
    {
        let mut t = self.tag;
        t.album_artist = Some(album_artist);
        TagBuilder { tag: t }
    }

    pub fn with_genre(self, genre: String) -> (r: TagBuilder)
        ensures
            r.tag@ == (TagView { genre: Some(genre@), ..self.tag@ }),
    {
        let mut t = self.tag;
        t.genre = Some(genre);
        TagBuilder { tag: t }
    }

    pub fn with_comment(self, comment: String) -> (r: TagBuilder)
        ensures
            r.tag@ == (TagView { comment: Some(comment@), ..self.tag@ }),
    {
        let mut t = self.tag;
        t.comment = Some(comment);
        TagBuilder { tag: t }
    }

    pub fn with_year(self, year: u32) -> (r: TagBuilder)
        ensures
            r.tag@ == (TagView { year: Some(year), ..self.tag@ }),
    {
        let mut t = self.tag;
        t.year = Some(year);
        TagBuilder { tag: t }
    }

    pub fn with_track_number(self, track_number: u32) -> (r: TagBuilder)
        ensures
            r.tag@ == (TagView { track_number: Some(track_number), ..self.tag@ }),
    {
        let mut t = self.tag;
        t.track_number = Some(track_number);
        TagBuilder { tag: t }
    }

    pub fn with_track_total(self, track_total: u32) -> (r: TagBuilder)
        ensures
            r.tag@ == (TagView { track_total: Some(track_total), ..self.tag@ }),
    {
        let mut t = self.tag;
        t.track_total = Some(track_total);
        TagBuilder { tag: t }
    }

    pub fn with_disc_number(self, disc_number: u32) -> (r: TagBuilder)
        ensures
            r.tag@ == (TagView { disc_number: Some(disc_number), ..self.tag@ }),
    {
        let mut t = self.tag;
        t.disc_number = Some(disc_number);
        TagBuilder { tag: t }
    }

    pub fn with_disc_total(self, disc_total: u32) -> (r: TagBuilder)
        ensures
            r.tag@ == (TagView { disc_total: Some(disc_total), ..self.tag@ }),
    {
        let mut t = self.tag;
        t.disc_total = Some(disc_total);
        TagBuilder { tag: t }
    }

    pub fn with_pictures(self, pictures: Vec<Picture>) -> (r: TagBuilder)
        ensures
            r.tag@ == (TagView { pictures: pics_view(pictures@), ..self.tag@ }),
    {
        let mut t = self.tag;
        t.pictures = pictures;
        TagBuilder { tag: t }
    }

    /// Finishes the builder.
    pub fn create(self) -> (r: Tag)
        ensures
            r@ == self.tag@,
            r == self.tag,
    {
        self.tag
    }
}

} // verus!
