//! The translation layer between the unified model and the native
//! backend's tag representation. Both directions are verified against the
//! backend contracts: converting to native keeps exactly the fields the
//! target format can carry ([`clip_view`]), converting from native reads
//! back precisely what the native tag holds.

use vstd::prelude::*;
use crate::backend::{
    lpic_data, lpic_mime, lpic_type_code, ltag_album, ltag_album_artist, ltag_artist,
    ltag_comment, ltag_disk, ltag_disk_total, ltag_genre, ltag_new, ltag_picture_at,
    ltag_picture_count, ltag_push_picture, ltag_set_album, ltag_set_album_artist,
    ltag_set_artist, ltag_set_comment, ltag_set_disk, ltag_set_disk_total, ltag_set_genre,
    ltag_set_title, ltag_set_track, ltag_set_track_total, ltag_set_year, ltag_title, ltag_track,
    ltag_track_total, ltag_type, ltag_view, ltag_year, make_backend_picture,
};
use crate::model::clip_view;
use crate::picture::{Picture, apic_code, mime_canonical, mime_classify, pic_type_from_code};
use crate::tag::{Tag, TagType, pics_view};
use lofty::tag::Tag as BackendTag;
use lofty::picture::Picture as BackendPicture;

verus! {

/// A native picture holding exactly the persisted content of the given
/// unified picture (its advisory dimension fields have no native home and
/// are dropped).
pub fn picture_to_native(p: &Picture) -> (r: BackendPicture)
    ensures
        crate::backend::lpic_view(r) == p@,
{
    let code = apic_code(p.pic_type);
    let mime: Option<String> = match &p.mime_type {
        Some(m) => Some(mime_canonical(*m)),
        None => None,
    };
    make_backend_picture(code, mime, p.pic_data.clone())
}

/// The unified picture a native picture holds; roles and MIME kinds
/// outside the unified model classify as `Other` and absent.
pub fn picture_from_native(p: &BackendPicture) -> (r: Picture)
    ensures
        r@ == crate::backend::lpic_view(*p),
{
    let mime: Option<crate::picture::MimeType> = match lpic_mime(p) {
        Some(s) => mime_classify(&s),
        None => None,
    };
    Picture {
        pic_type: pic_type_from_code(lpic_type_code(p)),
        pic_data: lpic_data(p),
        mime_type: mime,
        width: None,
        height: None,
        color_depth: None,
        num_colors: None,
    }
}

/// A native tag holding what the target format can carry of the unified
/// tag: every field the format's key map knows, and every picture, in
/// order; the rest is omitted, never written as empty.
pub fn to_native(tag: &Tag) -> (r: BackendTag)
    requires
        tag.tag_type != TagType::FilePrimaryType,
    ensures
        ltag_view(r) == clip_view(tag@),
{
    let mut t = ltag_new(tag.tag_type);
    if let Some(v) = &tag.title {
        ltag_set_title(&mut t, v.clone());
    }
    if let Some(v) = &tag.artist {
        ltag_set_artist(&mut t, v.clone());
    }
    if let Some(v) = &tag.album {
        ltag_set_album(&mut t, v.clone());
    }
    if let Some(v) = &tag.album_artist {
        ltag_set_album_artist(&mut t, v.clone());
    }
    if let Some(v) = &tag.genre {
        ltag_set_genre(&mut t, v.clone());
    }
    if let Some(v) = &tag.comment {
        ltag_set_comment(&mut t, v.clone());
    }
    if let Some(y) = tag.year {
        if y <= 9999 {
            ltag_set_year(&mut t, y);
        }
    }
    if let Some(v) = tag.track_number {
        ltag_set_track(&mut t, v);
    }
    if let Some(v) = tag.track_total {
        ltag_set_track_total(&mut t, v);
    }
    if let Some(v) = tag.disc_number {
        ltag_set_disk(&mut t, v);
    }
    if let Some(v) = tag.disc_total {
        ltag_set_disk_total(&mut t, v);
    }
    let n = tag.pictures.len();
    proof {
        assert(pics_view(tag.pictures@).take(0) =~= Seq::<crate::picture::PictureView>::empty());
        assert(ltag_view(t) =~= (crate::tag::TagView {
            pictures: pics_view(tag.pictures@).take(0),
            ..clip_view(tag@)
        }));
    }
    let mut i: usize = 0;
    while i < n
        invariant
            i <= n,
            n == tag.pictures.len(),
            ltag_view(t) == (crate::tag::TagView {
                pictures: pics_view(tag.pictures@).take(i as int),
                ..clip_view(tag@)
            }),
        decreases n - i,
    {
        let bp = picture_to_native(&tag.pictures[i]);
        ltag_push_picture(&mut t, bp);
        proof {
            assert(pics_view(tag.pictures@).take(i as int + 1) =~= pics_view(
                tag.pictures@,
            ).take(i as int).push(tag.pictures@[i as int]@));
        }
        i = i + 1;
    }
    proof {
        assert(pics_view(tag.pictures@).take(n as int) =~= pics_view(tag.pictures@));
        assert(ltag_view(t) =~= clip_view(tag@));
    }
    t
}

/// The unified tag a native tag holds, read field by field; native items
/// outside the unified field set are dropped by design.
pub fn from_native(t: &BackendTag) -> (r: Tag)
    ensures
        r@ == ltag_view(*t),
        crate::model::is_resolved_type(r@.tag_type),
{
    let n = ltag_picture_count(t);
    let mut pics: Vec<Picture> = Vec::new();
    let mut i: usize = 0;
    while i < n
        invariant
            i <= n,
            n == ltag_view(*t).pictures.len(),
            pics@.len() == i as int,
            forall|k: int| 0 <= k < i as int ==> pics@[k]@ == ltag_view(*t).pictures[k],
        decreases n - i,
    {
        let bp = ltag_picture_at(t, i);
        pics.push(picture_from_native(&bp));
        i = i + 1;
    }
    let r = Tag {
        tag_type: ltag_type(t),
        title: ltag_title(t),
        artist: ltag_artist(t),
        album: ltag_album(t),
        album_artist: ltag_album_artist(t),
        genre: ltag_genre(t),
        comment: ltag_comment(t),
        year: ltag_year(t),
        track_number: ltag_track(t),
        track_total: ltag_track_total(t),
        disc_number: ltag_disk(t),
        disc_total: ltag_disk_total(t),
        pictures: pics,
    };
    proof {
        assert(pics_view(r.pictures@) =~= ltag_view(*t).pictures);
        assert(r@ =~= ltag_view(*t));
    }
    r
}

} // verus!
