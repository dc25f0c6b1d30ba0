use vstd::prelude::*;
use crate::model::{find_type, lemma_find_at_index, lemma_find_none_iff};
use crate::picture::Picture;
use crate::tag::{Tag, TagType, TagView};

verus! {

/// The read-only audio stream summary of a file, as the backend reports
/// it; an opaque passthrough with no semantics of its own here.
#[derive(Clone, Copy, Debug, PartialEq, Eq)]
pub struct FileProperties {
    pub duration_ms: u64,
    pub overall_bitrate: Option<u32>,
    pub audio_bitrate: Option<u32>,
    pub sample_rate: Option<u32>,
    pub bit_depth: Option<u8>,
    pub channels: Option<u8>,
}

/// One file's full metadata snapshot: the path the request named (echoed,
/// never re-resolved), the stream properties, the container's primary tag
/// format, and every tag found, in discovery order. A snapshot is built
/// fresh by each operation and never mutated afterwards.
#[derive(Clone, Debug, PartialEq)]
pub struct TaggyFile {
    pub path: String,
    pub primary_type: TagType,
    pub properties: FileProperties,
    pub tags: Vec<Tag>,
}

/// The mathematical content of a snapshot.
#[verifier::ext_equal]
pub ghost struct TaggyFileView {
    pub path: Seq<char>,
    pub primary_type: TagType,
    pub properties: FileProperties,
    pub tags: Seq<TagView>,
}

/// The views of a sequence of tags.
pub open spec fn tags_view(ts: Seq<Tag>) -> Seq<TagView> {
    Seq::new(ts.len(), |i: int| ts[i]@)
}

impl View for TaggyFile {
    type V = TaggyFileView;

    open spec fn view(&self) -> TaggyFileView {
        TaggyFileView {
            path: self.path@,
            primary_type: self.primary_type,
            properties: self.properties,
            tags: tags_view(self.tags@),
        }
    }
}

impl Picture {
    /// An owned copy with the very same content.
    pub fn duplicate(&self) -> (r: Picture)
        ensures
            r@ == self@,
            r.width == self.width,
            r.height == self.height,
            r.color_depth == self.color_depth,
            r.num_colors == self.num_colors,
    {
        Picture {
            pic_type: self.pic_type,
            pic_data: self.pic_data.clone(),
            mime_type: self.mime_type,
            width: self.width,
            height: self.height,
            color_depth: self.color_depth,
            num_colors: self.num_colors,
        }
    }
}

/// An owned copy of an optional string.
fn dup_os(o: &Option<String>) -> (r: Option<String>)
    ensures
        crate::tag::os_view(r) == crate::tag::os_view(*o),
{
    match o {
        Some(s) => Some(s.clone()),
        None => None,
    }
}

impl Tag {
    /// An owned copy with the very same content.
    pub fn duplicate(&self) -> (r: Tag)
        ensures
            r@ == self@,
            r.tag_type == self.tag_type,
    {
        let mut pics: Vec<Picture> = Vec::new();
        let n = self.pictures.len();
        let mut i: usize = 0;
        while i < n
            invariant
                i <= n,
                n == self.pictures.len(),
                pics@.len() == i as int,
                forall|k: int| 0 <= k < i as int ==> pics@[k]@ == self.pictures@[k]@,
            decreases n - i,
        {
            pics.push(self.pictures[i].duplicate());
            i = i + 1;
        }
        let r = Tag {
            tag_type: self.tag_type,
            title: dup_os(&self.title),
            artist: dup_os(&self.artist),
            album: dup_os(&self.album),
            album_artist: dup_os(&self.album_artist),
            genre: dup_os(&self.genre),
            comment: dup_os(&self.comment),
            year: self.year,
            track_number: self.track_number,
            track_total: self.track_total,
            disc_number: self.disc_number,
            disc_total: self.disc_total,
            pictures: pics,
        };
        proof {
            assert(crate::tag::pics_view(r.pictures@) =~= crate::tag::pics_view(self.pictures@));
            assert(r@ =~= self@);
        }
        r
    }
}

impl TaggyFile {
    /// The tag whose format is the container's primary one, if present.
    pub fn primary_tag(&self) -> (r: Option<Tag>)
        ensures
            r matches Some(t) ==> find_type(self@.tags, self@.primary_type) == Some(t@),
            r is None ==> find_type(self@.tags, self@.primary_type) is None,
    {
        self.tag_of_type(self.primary_type)
    }

    /// The first tag of the given format, if present.
    pub fn tag_of_type(&self, tt: TagType) -> (r: Option<Tag>)
        ensures
            r matches Some(t) ==> find_type(self@.tags, tt) == Some(t@),
            r is None ==> find_type(self@.tags, tt) is None,
    {
        let n = self.tags.len();
        let mut i: usize = 0;
        while i < n
            invariant
                i <= n,
                n == self.tags.len(),
                forall|k: int| 0 <= k < i as int ==> self@.tags[k].tag_type != tt,
            decreases n - i,
        {
            if self.tags[i].tag_type == tt {
                proof {
                    lemma_find_at_index(self@.tags, tt, i as int);
                }
                return Some(self.tags[i].duplicate());
            }
            i = i + 1;
        }
        proof {
            lemma_find_none_iff(self@.tags, tt);
        }
        None
    }

    /// The first tag in discovery order, whatever its format, if any.
    pub fn first_tag(&self) -> (r: Option<Tag>)
        ensures
            self@.tags.len() == 0 ==> r is None,
            self@.tags.len() > 0 ==> (r matches Some(t) && t@ == self@.tags[0]),
    {
        if self.tags.len() == 0 {
            None
        } else {
            Some(self.tags[0].duplicate())
        }
    }
}

} // verus!
