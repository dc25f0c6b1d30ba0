use vstd::prelude::*;
use crate::tag::{TagType, TagView, empty_tag_view};

verus! {

// ---------------------------------------------------------------------------
// Which unified fields each native format can carry.
//
// These tables mirror the native backend's key maps: a field set on a format
// that has no key for it is silently left absent by the backend, so the
// adapter's contracts are stated in terms of them.
// ---------------------------------------------------------------------------

/// A format a resolved tag can actually have (everything but the
/// write-time `FilePrimaryType` directive).
pub open spec fn is_resolved_type(tt: TagType) -> bool {
    tt != TagType::FilePrimaryType
}

/// The formats that carry every unified field (every format a container
/// can prefer as its primary one is among them).
pub open spec fn full_field_support(tt: TagType) -> bool {
    ||| tt == TagType::Ape
    ||| tt == TagType::Id3v2
    ||| tt == TagType::Mp4Ilst
    ||| tt == TagType::VorbisComments
}

pub open spec fn maps_title(tt: TagType) -> bool {
    is_resolved_type(tt)
}

pub open spec fn maps_artist(tt: TagType) -> bool {
    is_resolved_type(tt)
}

pub open spec fn maps_comment(tt: TagType) -> bool {
    is_resolved_type(tt)
}

pub open spec fn maps_album(tt: TagType) -> bool {
    is_resolved_type(tt) && tt != TagType::AiffText
}

pub open spec fn maps_genre(tt: TagType) -> bool {
    is_resolved_type(tt) && tt != TagType::AiffText
}

pub open spec fn maps_year(tt: TagType) -> bool {
    is_resolved_type(tt) && tt != TagType::AiffText
}

pub open spec fn maps_track_number(tt: TagType) -> bool {
    is_resolved_type(tt) && tt != TagType::AiffText
}

pub open spec fn maps_track_total(tt: TagType) -> bool {
    is_resolved_type(tt) && tt != TagType::AiffText && tt != TagType::Id3v1
}

pub open spec fn maps_album_artist(tt: TagType) -> bool {
    full_field_support(tt)
}

pub open spec fn maps_disc_number(tt: TagType) -> bool {
    full_field_support(tt)
}

pub open spec fn maps_disc_total(tt: TagType) -> bool {
    full_field_support(tt)
}

/// The year survives only where the format has a date key and the value
/// fits a native timestamp's four-digit year.
pub open spec fn clip_year(tt: TagType, y: Option<u32>) -> Option<u32> {
    match y {
        Some(v) => if maps_year(tt) && v <= 9999 {
            Some(v)
        } else {
            None
        },
        None => None,
    }
}

/// What is left of a tag once it passes into its native format: fields the
/// format has no key for are dropped; pictures are always kept in memory.
pub open spec fn clip_view(v: TagView) -> TagView {
    TagView {
        tag_type: v.tag_type,
        title: if maps_title(v.tag_type) { v.title } else { None },
        artist: if maps_artist(v.tag_type) { v.artist } else { None },
        album: if maps_album(v.tag_type) { v.album } else { None },
        album_artist: if maps_album_artist(v.tag_type) { v.album_artist } else { None },
        genre: if maps_genre(v.tag_type) { v.genre } else { None },
        comment: if maps_comment(v.tag_type) { v.comment } else { None },
        year: clip_year(v.tag_type, v.year),
        track_number: if maps_track_number(v.tag_type) { v.track_number } else { None },
        track_total: if maps_track_total(v.tag_type) { v.track_total } else { None },
        disc_number: if maps_disc_number(v.tag_type) { v.disc_number } else { None },
        disc_total: if maps_disc_total(v.tag_type) { v.disc_total } else { None },
        pictures: v.pictures,
    }
}

/// The same tag under another format discriminator.
pub open spec fn retype(v: TagView, tt: TagType) -> TagView {
    TagView { tag_type: tt, ..v }
}

/// Resolves the write-time directive to the container's primary format.
pub open spec fn resolve_type(tt: TagType, primary: TagType) -> TagType {
    if tt == TagType::FilePrimaryType {
        primary
    } else {
        tt
    }
}

/// On a format that carries every field, passing into the native form
/// loses nothing (as long as the year fits the native timestamp).
pub proof fn lemma_clip_identity(v: TagView)
    requires
        full_field_support(v.tag_type),
        v.year matches Some(y) ==> y <= 9999,
    ensures
        clip_view(v) == v,
{
    assert(clip_view(v) =~= v);
}

// ---------------------------------------------------------------------------
// The file's tag collection, as a sequence of tag views.
// ---------------------------------------------------------------------------

/// The first tag of the given format, if any.
pub open spec fn find_type(s: Seq<TagView>, tt: TagType) -> Option<TagView>
    decreases s.len(),
{
    if s.len() == 0 {
        None
    } else if s[0].tag_type == tt {
        Some(s[0])
    } else {
        find_type(s.drop_first(), tt)
    }
}

/// Whether a tag of the given format is present.
pub open spec fn has_type(s: Seq<TagView>, tt: TagType) -> bool {
    find_type(s, tt) is Some
}

/// The sequence with the first tag of the given format removed.
pub open spec fn remove_first(s: Seq<TagView>, tt: TagType) -> Seq<TagView>
    decreases s.len(),
{
    if s.len() == 0 {
        s
    } else if s[0].tag_type == tt {
        s.drop_first()
    } else {
        seq![s[0]] + remove_first(s.drop_first(), tt)
    }
}

/// What the backend's insert does: if the container supports the tag's
/// format, the existing tag of that format (if any) leaves and the new tag
/// goes to the end; otherwise nothing changes.
pub open spec fn insert_tag_view(s: Seq<TagView>, sup: Set<TagType>, t: TagView) -> Seq<TagView> {
    if sup.contains(t.tag_type) {
        remove_first(s, t.tag_type).push(t)
    } else {
        s
    }
}

/// A batch of inserts, first to last.
pub open spec fn insert_all(s: Seq<TagView>, sup: Set<TagType>, ts: Seq<TagView>) -> Seq<TagView>
    decreases ts.len(),
{
    if ts.len() == 0 {
        s
    } else {
        insert_all(insert_tag_view(s, sup, ts[0]), sup, ts.drop_first())
    }
}

/// At most one tag per format, as a parsed file presents them.
pub open spec fn unique_types(s: Seq<TagView>) -> bool {
    forall|i: int, j: int| 0 <= i < j < s.len() ==> s[i].tag_type != s[j].tag_type
}

// ---------------------------------------------------------------------------
// Basic facts about the model.
// ---------------------------------------------------------------------------

/// No tag of a format is present exactly when no element has it.
pub proof fn lemma_find_none_iff(s: Seq<TagView>, tt: TagType)
    ensures
        (find_type(s, tt) is None) <==> (forall|i: int| 0 <= i < s.len() ==> s[i].tag_type != tt),
    decreases s.len(),
{
    if s.len() > 0 {
        lemma_find_none_iff(s.drop_first(), tt);
        let d = s.drop_first();
        assert(forall|i: int| 0 <= i < d.len() ==> d[i] == s[i + 1]);
        if s[0].tag_type != tt {
            if find_type(s, tt) is None {
                assert forall|i: int| 0 <= i < s.len() implies s[i].tag_type != tt by {
                    if i > 0 {
                        assert(d[i - 1].tag_type != tt);
                    }
                }
            }
            if forall|i: int| 0 <= i < s.len() ==> s[i].tag_type != tt {
                assert forall|i: int| 0 <= i < d.len() implies d[i].tag_type != tt by {
                    assert(s[i + 1].tag_type != tt);
                }
            }
        }
    }
}

/// A found tag is an element of the sequence.
pub proof fn lemma_find_some_is_elem(s: Seq<TagView>, tt: TagType)
    ensures
        find_type(s, tt) matches Some(t) ==> exists|i: int|
            0 <= i < s.len() && s[i] == t && s[i].tag_type == tt,
    decreases s.len(),
{
    if s.len() > 0 && s[0].tag_type != tt {
        lemma_find_some_is_elem(s.drop_first(), tt);
        if find_type(s, tt) is Some {
            let t = find_type(s, tt).unwrap();
            let i = choose|i: int|
                0 <= i < s.drop_first().len() && s.drop_first()[i] == t && s.drop_first()[i].tag_type == tt;
            assert(s[i + 1] == t && s[i + 1].tag_type == tt);
        }
    }
}

/// Searching a sequence extended at the end first finds what the prefix held.
pub proof fn lemma_find_push(s: Seq<TagView>, t: TagView, tt: TagType)
    ensures
        find_type(s.push(t), tt) == (if has_type(s, tt) {
            find_type(s, tt)
        } else if t.tag_type == tt {
            Some(t)
        } else {
            None::<TagView>
        }),
    decreases s.len(),
{
    if s.len() == 0 {
        assert(s.push(t)[0] == t);
        assert(s.push(t).drop_first() =~= Seq::<TagView>::empty());
    } else {
        assert(s.push(t).drop_first() =~= s.drop_first().push(t));
        lemma_find_push(s.drop_first(), t, tt);
    }
}

/// Removing one format does not disturb what is found of another.
pub proof fn lemma_find_remove_other(s: Seq<TagView>, tt: TagType, tt2: TagType)
    requires
        tt != tt2,
    ensures
        find_type(remove_first(s, tt), tt2) == find_type(s, tt2),
    decreases s.len(),
{
    if s.len() > 0 {
        if s[0].tag_type == tt {
            // the head leaves; tt2 is found in the rest either way
        } else {
            lemma_find_remove_other(s.drop_first(), tt, tt2);
            let r = seq![s[0]] + remove_first(s.drop_first(), tt);
            assert(r[0] == s[0]);
            assert(r.drop_first() =~= remove_first(s.drop_first(), tt));
        }
    }
}

/// Removing a format that is not present changes nothing.
pub proof fn lemma_remove_absent_noop(s: Seq<TagView>, tt: TagType)
    requires
        !has_type(s, tt),
    ensures
        remove_first(s, tt) == s,
    decreases s.len(),
{
    if s.len() > 0 {
        lemma_remove_absent_noop(s.drop_first(), tt);
        assert(seq![s[0]] + s.drop_first() =~= s);
    }
}

/// What a front-to-back search finds is the element at the first index
/// whose tag has the format.
pub proof fn lemma_find_at_index(s: Seq<TagView>, tt: TagType, i: int)
    requires
        0 <= i < s.len(),
        s[i].tag_type == tt,
        forall|k: int| 0 <= k < i ==> s[k].tag_type != tt,
    ensures
        find_type(s, tt) == Some(s[i]),
    decreases i,
{
    if i > 0 {
        let d = s.drop_first();
        assert(forall|k: int| 0 <= k < d.len() ==> d[k] == s[k + 1]);
        assert forall|k: int| 0 <= k < i - 1 implies d[k].tag_type != tt by {
            assert(s[k + 1].tag_type != tt);
        }
        lemma_find_at_index(d, tt, i - 1);
    }
}

/// Removing the first tag of a format splits the sequence at the first
/// index that holds it; the returned value is that index.
pub proof fn lemma_remove_first_split(s: Seq<TagView>, tt: TagType) -> (i: int)
    requires
        has_type(s, tt),
    ensures
        0 <= i < s.len(),
        s[i].tag_type == tt,
        forall|k: int| 0 <= k < i ==> s[k].tag_type != tt,
        remove_first(s, tt) == s.subrange(0, i) + s.subrange(i + 1, s.len() as int),
    decreases s.len(),
{
    if s[0].tag_type == tt {
        assert(s.drop_first() =~= s.subrange(0, 0) + s.subrange(1, s.len() as int));
        0
    } else {
        let j = lemma_remove_first_split(s.drop_first(), tt);
        let d = s.drop_first();
        assert(seq![s[0]] + (d.subrange(0, j) + d.subrange(j + 1, d.len() as int)) =~= s.subrange(
            0,
            j + 1,
        ) + s.subrange(j + 2, s.len() as int));
        assert forall|k: int| 0 <= k < j + 1 implies s[k].tag_type != tt by {
            if k > 0 {
                assert(d[k - 1].tag_type != tt);
            }
        }
        j + 1
    }
}

/// On a one-tag-per-format sequence, removing a format removes it entirely,
/// and the rest keeps one tag per format.
pub proof fn lemma_remove_first_unique(s: Seq<TagView>, tt: TagType)
    requires
        unique_types(s),
    ensures
        unique_types(remove_first(s, tt)),
        !has_type(remove_first(s, tt), tt),
{
    if !has_type(s, tt) {
        lemma_remove_absent_noop(s, tt);
        assert(!has_type(remove_first(s, tt), tt));
    } else {
        let i = lemma_remove_first_split(s, tt);
        let r = remove_first(s, tt);
        assert(forall|a: int| 0 <= a < i ==> r[a] == s[a]);
        assert(forall|a: int| i <= a < r.len() ==> r[a] == s[a + 1]);
        assert(forall|a: int| 0 <= a < r.len() ==> #[trigger] r[a].tag_type != tt);
        lemma_find_none_iff(r, tt);
    }
}

/// A supported insert keeps the one-tag-per-format shape.
pub proof fn lemma_insert_unique(s: Seq<TagView>, sup: Set<TagType>, t: TagView)
    requires
        unique_types(s),
    ensures
        unique_types(insert_tag_view(s, sup, t)),
{
    if sup.contains(t.tag_type) {
        lemma_remove_first_unique(s, t.tag_type);
        let r = remove_first(s, t.tag_type);
        lemma_find_none_iff(r, t.tag_type);
        assert(forall|a: int| 0 <= a < r.len() ==> r.push(t)[a] == r[a]);
        assert(r.push(t)[r.len() as int] == t);
    }
}

/// After a supported insert, that format reads back as exactly the tag
/// inserted.
pub proof fn lemma_insert_finds(s: Seq<TagView>, sup: Set<TagType>, t: TagView)
    requires
        sup.contains(t.tag_type),
        unique_types(s),
    ensures
        find_type(insert_tag_view(s, sup, t), t.tag_type) == Some(t),
{
    lemma_remove_first_unique(s, t.tag_type);
    lemma_find_push(remove_first(s, t.tag_type), t, t.tag_type);
}

/// An insert touches no format but its own.
pub proof fn lemma_insert_preserves_other(s: Seq<TagView>, sup: Set<TagType>, t: TagView, tt2: TagType)
    requires
        tt2 != t.tag_type,
    ensures
        find_type(insert_tag_view(s, sup, t), tt2) == find_type(s, tt2),
{
    if sup.contains(t.tag_type) {
        lemma_find_remove_other(s, t.tag_type, tt2);
        lemma_find_push(remove_first(s, t.tag_type), t, tt2);
    }
}

/// A batch of inserts whose tags all avoid a format leaves that format's
/// tag alone.
pub proof fn lemma_insert_all_no_type(s: Seq<TagView>, sup: Set<TagType>, ts: Seq<TagView>, tt: TagType)
    requires
        forall|k: int| 0 <= k < ts.len() ==> ts[k].tag_type != tt,
    ensures
        find_type(insert_all(s, sup, ts), tt) == find_type(s, tt),
    decreases ts.len(),
{
    if ts.len() > 0 {
        lemma_insert_preserves_other(s, sup, ts[0], tt);
        assert(forall|k: int| 0 <= k < ts.drop_first().len() ==> ts.drop_first()[k] == ts[k + 1]);
        lemma_insert_all_no_type(insert_tag_view(s, sup, ts[0]), sup, ts.drop_first(), tt);
    }
}

/// A batch keeps the one-tag-per-format shape.
pub proof fn lemma_insert_all_unique(s: Seq<TagView>, sup: Set<TagType>, ts: Seq<TagView>)
    requires
        unique_types(s),
    ensures
        unique_types(insert_all(s, sup, ts)),
    decreases ts.len(),
{
    if ts.len() > 0 {
        lemma_insert_unique(s, sup, ts[0]);
        lemma_insert_all_unique(insert_tag_view(s, sup, ts[0]), sup, ts.drop_first());
    }
}

/// A batch extended by one more insert is the batch followed by that insert.
pub proof fn lemma_insert_all_push(s: Seq<TagView>, sup: Set<TagType>, ts: Seq<TagView>, t: TagView)
    ensures
        insert_all(s, sup, ts.push(t)) == insert_tag_view(insert_all(s, sup, ts), sup, t),
    decreases ts.len(),
{
    if ts.len() == 0 {
        assert(ts.push(t)[0] == t);
        assert(ts.push(t).drop_first() =~= Seq::<TagView>::empty());
        assert(insert_all(s, sup, ts.push(t)) == insert_all(
            insert_tag_view(s, sup, t),
            sup,
            Seq::<TagView>::empty(),
        ));
        assert(insert_all(insert_tag_view(s, sup, t), sup, Seq::<TagView>::empty())
            == insert_tag_view(s, sup, t));
    } else {
        assert(ts.push(t)[0] == ts[0]);
        assert(ts.push(t).drop_first() =~= ts.drop_first().push(t));
        lemma_insert_all_push(insert_tag_view(s, sup, ts[0]), sup, ts.drop_first(), t);
        assert(insert_all(s, sup, ts.push(t)) == insert_all(
            insert_tag_view(s, sup, ts[0]),
            sup,
            ts.drop_first().push(t),
        ));
        assert(insert_all(s, sup, ts) == insert_all(insert_tag_view(s, sup, ts[0]), sup, ts.drop_first()));
    }
}

// ---------------------------------------------------------------------------
// The laws of the operation engine.
// ---------------------------------------------------------------------------

/// An unsupported tag in a batched write does not get in the way of the
/// others: every supported tag that is the last of its format in the batch
/// reads back from the result exactly as supplied, no matter how many tags
/// around it were rejected.
pub proof fn lemma_write_all_supported_tag_lands(
    s: Seq<TagView>,
    sup: Set<TagType>,
    ts: Seq<TagView>,
    j: int,
)
    requires
        unique_types(s),
        0 <= j < ts.len(),
        sup.contains(ts[j].tag_type),
        forall|k: int| j < k < ts.len() ==> ts[k].tag_type != ts[j].tag_type,
    ensures
        find_type(insert_all(s, sup, ts), ts[j].tag_type) == Some(ts[j]),
    decreases ts.len(),
{
    let s1 = insert_tag_view(s, sup, ts[0]);
    let d = ts.drop_first();
    assert(forall|k: int| 0 <= k < d.len() ==> d[k] == ts[k + 1]);
    if j == 0 {
        lemma_insert_finds(s, sup, ts[0]);
        lemma_insert_all_no_type(s1, sup, d, ts[0].tag_type);
    } else {
        lemma_insert_unique(s, sup, ts[0]);
        lemma_write_all_supported_tag_lands(s1, sup, d, j - 1);
    }
}

/// Writing a primary tag and reading the primary tag back yields the tag
/// that was written, retyped to the container's primary format; with the
/// year within the native range, nothing else changes, since every primary
/// format carries every unified field.
pub proof fn lemma_write_primary_round_trip(
    s: Seq<TagView>,
    sup: Set<TagType>,
    primary: TagType,
    t: TagView,
    keep_others: bool,
)
    requires
        unique_types(s),
        sup.contains(primary),
        full_field_support(primary),
    ensures
        ({
            let base = if keep_others { s } else { Seq::<TagView>::empty() };
            let written = clip_view(retype(t, primary));
            &&& find_type(insert_tag_view(base, sup, written), primary) == Some(written)
            &&& ((t.year matches Some(y) ==> y <= 9999) ==> written == retype(t, primary))
        }),
{
    let base = if keep_others { s } else { Seq::<TagView>::empty() };
    let written = clip_view(retype(t, primary));
    assert(unique_types(base));
    lemma_insert_finds(base, sup, written);
    if t.year matches Some(y) ==> y <= 9999 {
        lemma_clip_identity(retype(t, primary));
    }
}

/// The pictures of a written primary tag survive the round trip
/// byte for byte, whatever the year held.
pub proof fn lemma_write_primary_picture_round_trip(
    s: Seq<TagView>,
    sup: Set<TagType>,
    primary: TagType,
    t: TagView,
    keep_others: bool,
)
    requires
        unique_types(s),
        sup.contains(primary),
        full_field_support(primary),
    ensures
        ({
            let base = if keep_others { s } else { Seq::<TagView>::empty() };
            let written = clip_view(retype(t, primary));
            &&& find_type(insert_tag_view(base, sup, written), primary) == Some(written)
            &&& written.pictures == t.pictures
        }),
{
    lemma_write_primary_round_trip(s, sup, primary, t, keep_others);
}

/// Deleting a format that existed leaves nothing of it behind: whatever
/// that format reads back as afterwards is the canonical empty tag, never
/// a tag with stale fields.
pub proof fn lemma_remove_leaves_no_stale(s: Seq<TagView>, sup: Set<TagType>, tt: TagType)
    requires
        unique_types(s),
    ensures
        ({
            let after = insert_tag_view(remove_first(s, tt), sup, empty_tag_view(tt));
            find_type(after, tt) is Some ==> find_type(after, tt) == Some(empty_tag_view(tt))
        }),
{
    lemma_remove_first_unique(s, tt);
    if sup.contains(tt) {
        lemma_insert_finds(remove_first(s, tt), sup, empty_tag_view(tt));
    }
}

} // verus!
