//! The operation engine: the seven public operations, each opening the
//! file through the backend, mutating the parsed representation through
//! verified logic, and persisting it.
//!
//! What an operation does to a parsed file is verified exactly, in the
//! `apply_*` functions, against the sequence model; what the disk holds
//! is the backend's business, so the public operations promise the error
//! taxonomy and the shape of what they return.

use vstd::prelude::*;
use crate::adapter::{from_native, to_native};
use crate::backend::{
    backend_open, builtin_of, ltag_new, primary_of, props_of, supported_of, tags_of, tf_clear,
    tf_insert, tf_is_builtin, tf_primary_type, tf_properties, tf_remove, tf_save, tf_tag_at,
    tf_tag_count,
};
use crate::error::TaggyError;
use crate::model::{
    clip_view, find_type, has_type, insert_all, insert_tag_view, is_resolved_type,
    lemma_find_some_is_elem, lemma_insert_all_push, lemma_insert_all_unique, lemma_insert_unique,
    lemma_remove_absent_noop, remove_first, resolve_type, retype, unique_types,
};
use crate::tag::{Tag, TagType, TagView, empty_tag_view};
use crate::taggy_file::{TaggyFile, tags_view};
use lofty::file::TaggedFile as BackendFile;

verus! {

/// What one supplied tag becomes on its way into the file: the
/// `FilePrimaryType` directive resolves to the container's primary format,
/// and the fields the target format cannot carry fall away.
pub open spec fn prepared_view(v: TagView, primary: TagType) -> TagView {
    clip_view(retype(v, resolve_type(v.tag_type, primary)))
}

/// What a whole batch of supplied tags becomes.
pub open spec fn prepared_views(ts: Seq<Tag>, primary: TagType) -> Seq<TagView> {
    Seq::new(ts.len(), |i: int| prepared_view(ts[i]@, primary))
}

/// A snapshot of everything a parsed file holds, in discovery order.
pub fn snapshot_all(f: &BackendFile, path: String) -> (r: TaggyFile)
    requires
        builtin_of(*f),
    ensures
        r@.path == path@,
        r@.primary_type == primary_of(*f),
        r@.properties == props_of(*f),
        r@.tags == tags_of(*f),
        forall|i: int| 0 <= i < r@.tags.len() ==> is_resolved_type(#[trigger] r@.tags[i].tag_type),
{
    let n = tf_tag_count(f);
    let mut tags: Vec<Tag> = Vec::new();
    let mut i: usize = 0;
    while i < n
        invariant
            i <= n,
            n == tags_of(*f).len(),
            tags@.len() == i as int,
            forall|k: int| 0 <= k < i as int ==> tags@[k]@ == tags_of(*f)[k],
            forall|k: int| 0 <= k < i as int ==> is_resolved_type(#[trigger] tags@[k]@.tag_type),
        decreases n - i,
    {
        let lt = tf_tag_at(f, i);
        tags.push(from_native(&lt));
        i = i + 1;
    }
    let r = TaggyFile {
        path,
        primary_type: tf_primary_type(f),
        properties: tf_properties(f),
        tags,
    };
    proof {
        assert(tags_view(r.tags@) =~= tags_of(*f));
        assert forall|k: int| 0 <= k < r@.tags.len() implies is_resolved_type(
            #[trigger] r@.tags[k].tag_type,
        ) by {
            assert(r@.tags[k] == tags@[k]@);
        }
    }
    r
}

/// A snapshot keeping only the tag of the container's primary format,
/// if one is present.
pub fn snapshot_primary(f: &BackendFile, path: String) -> (r: TaggyFile)
    requires
        builtin_of(*f),
    ensures
        r@.path == path@,
        r@.primary_type == primary_of(*f),
        r@.properties == props_of(*f),
        r@.tags == (match find_type(tags_of(*f), primary_of(*f)) {
            Some(t) => seq![t],
            None => Seq::<TagView>::empty(),
        }),
        forall|i: int| 0 <= i < r@.tags.len() ==> is_resolved_type(#[trigger] r@.tags[i].tag_type),
{
    let full = snapshot_all(f, path);
    let found = full.primary_tag();
    let TaggyFile { path: rpath, primary_type: rpt, properties: rprops, tags: _full_tags } = full;
    let mut tags: Vec<Tag> = Vec::new();
    if let Some(t) = found {
        tags.push(t);
    }
    let r = TaggyFile { path: rpath, primary_type: rpt, properties: rprops, tags };
    proof {
        match find_type(tags_of(*f), primary_of(*f)) {
            Some(t) => {
                assert(tags_view(r.tags@) =~= seq![t]);
                lemma_find_some_is_elem(tags_of(*f), primary_of(*f));
            },
            None => {
                assert(tags_view(r.tags@) =~= Seq::<TagView>::empty());
            },
        }
    }
    r
}

/// A snapshot keeping only the first discovered tag, whatever its format,
/// if any.
pub fn snapshot_any(f: &BackendFile, path: String) -> (r: TaggyFile)
    requires
        builtin_of(*f),
    ensures
        r@.path == path@,
        r@.primary_type == primary_of(*f),
        r@.properties == props_of(*f),
        r@.tags == (if tags_of(*f).len() > 0 {
            seq![tags_of(*f)[0]]
        } else {
            Seq::<TagView>::empty()
        }),
        forall|i: int| 0 <= i < r@.tags.len() ==> is_resolved_type(#[trigger] r@.tags[i].tag_type),
{
    let full = snapshot_all(f, path);
    let found = full.first_tag();
    let TaggyFile { path: rpath, primary_type: rpt, properties: rprops, tags: _full_tags } = full;
    let mut tags: Vec<Tag> = Vec::new();
    if let Some(t) = found {
        tags.push(t);
    }
    let r = TaggyFile { path: rpath, primary_type: rpt, properties: rprops, tags };
    proof {
        if tags_of(*f).len() > 0 {
            assert(tags_view(r.tags@) =~= seq![tags_of(*f)[0]]);
        } else {
            assert(tags_view(r.tags@) =~= Seq::<TagView>::empty());
        }
    }
    r
}

/// Read all audio tags from the file at the given `path`.
pub fn read_all(path: String) -> (r: Result<TaggyFile, TaggyError>)
    ensures
        r matches Ok(tf) ==> (tf@.path == path@ && unique_types(tf@.tags) && (forall|i: int|
            0 <= i < tf@.tags.len() ==> is_resolved_type(#[trigger] tf@.tags[i].tag_type))),
        r matches Err(e) ==> (e is NotFound || e matches TaggyError::Parse(_)),
{
    let f = match backend_open(&path) {
        Ok(f) => f,
        Err(e) => {
            return Err(e);
        },
    };
    if !tf_is_builtin(&f) {
        return Err(TaggyError::Parse("custom container formats are not supported".to_owned()));
    }
    Ok(snapshot_all(&f, path))
}

/// Read only the primary audio tag from the file at the given `path`.
/// If the primary tag does not exist, the snapshot has no tags.
pub fn read_primary(path: String) -> (r: Result<TaggyFile, TaggyError>)
    ensures
        r matches Ok(tf) ==> (tf@.path == path@ && tf@.tags.len() <= 1 && (forall|i: int|
            0 <= i < tf@.tags.len() ==> is_resolved_type(#[trigger] tf@.tags[i].tag_type))),
        r matches Err(e) ==> (e is NotFound || e matches TaggyError::Parse(_)),
{
    let f = match backend_open(&path) {
        Ok(f) => f,
        Err(e) => {
            return Err(e);
        },
    };
    if !tf_is_builtin(&f) {
        return Err(TaggyError::Parse("custom container formats are not supported".to_owned()));
    }
    Ok(snapshot_primary(&f, path))
}

/// Read any audio tag from the file at the given `path`: the first one
/// discovered, whatever its format. If the file has no tags, the snapshot
/// has none either.
pub fn read_any(path: String) -> (r: Result<TaggyFile, TaggyError>)
    ensures
        r matches Ok(tf) ==> (tf@.path == path@ && tf@.tags.len() <= 1 && (forall|i: int|
            0 <= i < tf@.tags.len() ==> is_resolved_type(#[trigger] tf@.tags[i].tag_type))),
        r matches Err(e) ==> (e is NotFound || e matches TaggyError::Parse(_)),
{
    let f = match backend_open(&path) {
        Ok(f) => f,
        Err(e) => {
            return Err(e);
        },
    };
    if !tf_is_builtin(&f) {
        return Err(TaggyError::Parse("custom container formats are not supported".to_owned()));
    }
    Ok(snapshot_any(&f, path))
}

/// The in-memory effect of `write_all` on a parsed file: optionally clear,
/// then insert every supplied tag in order; an insert the container
/// refuses (unsupported format) skips that tag and the batch goes on.
pub fn apply_write_all(f: &mut BackendFile, tags: &Vec<Tag>, override_existent: bool)
    requires
        builtin_of(*old(f)),
    ensures
        tags_of(*final(f)) == insert_all(
            if override_existent {
                Seq::<TagView>::empty()
            } else {
                tags_of(*old(f))
            },
            supported_of(*old(f)),
            prepared_views(tags@, primary_of(*old(f))),
        ),
        primary_of(*final(f)) == primary_of(*old(f)),
        supported_of(*final(f)) == supported_of(*old(f)),
        builtin_of(*final(f)) == builtin_of(*old(f)),
        props_of(*final(f)) == props_of(*old(f)),
{
    if override_existent {
        tf_clear(f);
    }
    let ghost base = tags_of(*f);
    let ghost sup = supported_of(*f);
    let primary = tf_primary_type(f);
    let ghost pvs = prepared_views(tags@, primary);
    let n = tags.len();
    let mut i: usize = 0;
    proof {
        assert(pvs.take(0) =~= Seq::<TagView>::empty());
    }
    while i < n
        invariant
            i <= n,
            n == tags.len(),
            primary == primary_of(*f),
            primary_of(*f) == primary_of(*old(f)),
            supported_of(*f) == sup,
            supported_of(*f) == supported_of(*old(f)),
            builtin_of(*f),
            builtin_of(*f) == builtin_of(*old(f)),
            props_of(*f) == props_of(*old(f)),
            crate::model::full_field_support(primary),
            pvs == prepared_views(tags@, primary),
            tags_of(*f) == insert_all(base, sup, pvs.take(i as int)),
        decreases n - i,
    {
        let mut cur = tags[i].duplicate();
        if cur.tag_type == TagType::FilePrimaryType {
            cur.tag_type = primary;
        }
        proof {
            assert(cur@ =~= retype(tags@[i as int]@, resolve_type(tags@[i as int]@.tag_type, primary)));
        }
        let lt = to_native(&cur);
        tf_insert(f, lt);
        proof {
            lemma_insert_all_push(base, sup, pvs.take(i as int), pvs[i as int]);
            assert(pvs.take(i as int + 1) =~= pvs.take(i as int).push(pvs[i as int]));
        }
        i = i + 1;
    }
    proof {
        assert(pvs.take(n as int) =~= pvs);
    }
}

/// The in-memory effect of `write_primary`: optionally clear, then insert
/// the supplied tag retyped to the container's primary format, replacing
/// any tag of that format. The container always supports its own primary
/// format, so this insert never misses.
pub fn apply_write_primary(f: &mut BackendFile, tag: &Tag, keep_others: bool)
    requires
        builtin_of(*old(f)),
    ensures
        tags_of(*final(f)) == insert_tag_view(
            if keep_others {
                tags_of(*old(f))
            } else {
                Seq::<TagView>::empty()
            },
            supported_of(*old(f)),
            clip_view(retype(tag@, primary_of(*old(f)))),
        ),
        supported_of(*old(f)).contains(primary_of(*old(f))),
        crate::model::full_field_support(primary_of(*old(f))),
        primary_of(*final(f)) == primary_of(*old(f)),
        supported_of(*final(f)) == supported_of(*old(f)),
        builtin_of(*final(f)) == builtin_of(*old(f)),
        props_of(*final(f)) == props_of(*old(f)),
{
    if !keep_others {
        tf_clear(f);
    }
    let primary = tf_primary_type(f);
    let mut cur = tag.duplicate();
    cur.tag_type = primary;
    proof {
        assert(cur@ =~= retype(tag@, primary));
    }
    let lt = to_native(&cur);
    tf_insert(f, lt);
}

/// The in-memory effect of `remove_all`: every tag leaves, and one empty
/// tag of the container's primary format takes their place, so that the
/// backend overwrites that format's stored bytes with an empty record.
pub fn apply_remove_all(f: &mut BackendFile)
    requires
        builtin_of(*old(f)),
    ensures
        tags_of(*final(f)) == seq![empty_tag_view(primary_of(*old(f)))],
        primary_of(*final(f)) == primary_of(*old(f)),
        supported_of(*final(f)) == supported_of(*old(f)),
        builtin_of(*final(f)) == builtin_of(*old(f)),
        props_of(*final(f)) == props_of(*old(f)),
{
    tf_clear(f);
    let primary = tf_primary_type(f);
    let lt = ltag_new(primary);
    tf_insert(f, lt);
    proof {
        assert(remove_first(Seq::<TagView>::empty(), primary) =~= Seq::<TagView>::empty());
        assert(Seq::<TagView>::empty().push(empty_tag_view(primary)) =~= seq![
            empty_tag_view(primary),
        ]);
    }
}

/// The in-memory effect of `remove_tag` for a resolved format: when no tag
/// of the format is present, nothing changes at all (the caller then skips
/// the save); when one is present, it leaves and the canonical empty tag
/// of the same format takes its place.
pub fn apply_remove_tag(f: &mut BackendFile, tt: TagType) -> (existed: bool)
    requires
        tt != TagType::FilePrimaryType,
        builtin_of(*old(f)),
    ensures
        existed == has_type(tags_of(*old(f)), tt),
        !existed ==> tags_of(*final(f)) == tags_of(*old(f)),
        existed ==> tags_of(*final(f)) == insert_tag_view(
            remove_first(tags_of(*old(f)), tt),
            supported_of(*old(f)),
            empty_tag_view(tt),
        ),
        primary_of(*final(f)) == primary_of(*old(f)),
        supported_of(*final(f)) == supported_of(*old(f)),
        builtin_of(*final(f)) == builtin_of(*old(f)),
        props_of(*final(f)) == props_of(*old(f)),
{
    let removed = tf_remove(f, tt);
    match removed {
        None => {
            proof {
                lemma_remove_absent_noop(tags_of(*old(f)), tt);
            }
            false
        },
        Some(_) => {
            let lt = ltag_new(tt);
            tf_insert(f, lt);
            true
        },
    }
}

/// Write all provided `tags` to the file at the given `path`.
///
/// When `override_existent` is set, every existing tag leaves first;
/// otherwise the supplied tags add to or update the existing ones. A tag
/// whose format the container does not support is skipped without failing
/// the batch; only open, parse and save failures are fatal.
pub fn write_all(path: String, tags: Vec<Tag>, override_existent: bool) -> (r: Result<
    TaggyFile,
    TaggyError,
>)
    ensures
        r matches Ok(tf) ==> (tf@.path == path@ && unique_types(tf@.tags)),
        r matches Err(e) ==> (e is NotFound || e matches TaggyError::Parse(_) || e
            matches TaggyError::Save(_)),
{
    let mut f = match backend_open(&path) {
        Ok(f) => f,
        Err(e) => {
            return Err(e);
        },
    };
    if !tf_is_builtin(&f) {
        return Err(TaggyError::Parse("custom container formats are not supported".to_owned()));
    }
    let ghost base0 = tags_of(f);
    let ghost sup0 = supported_of(f);
    let ghost primary0 = primary_of(f);
    apply_write_all(&mut f, &tags, override_existent);
    proof {
        let b = if override_existent {
            Seq::<TagView>::empty()
        } else {
            base0
        };
        assert(unique_types(b));
        lemma_insert_all_unique(b, sup0, prepared_views(tags@, primary0));
    }
    match tf_save(&f, &path) {
        Ok(()) => Ok(snapshot_all(&f, path)),
        Err(e) => Err(e),
    }
}

/// Write the provided `tag` as the primary tag of the file at the given
/// `path`. The tag's own format is discarded and the container's primary
/// format takes its place, so callers may pass any placeholder (such as
/// `FilePrimaryType`). When `keep_others` is not set, every other tag
/// leaves first.
pub fn write_primary(path: String, tag: Tag, keep_others: bool) -> (r: Result<
    TaggyFile,
    TaggyError,
>)
    ensures
        r matches Ok(tf) ==> (tf@.path == path@ && unique_types(tf@.tags)),
        r matches Err(e) ==> (e is NotFound || e matches TaggyError::Parse(_) || e
            matches TaggyError::Save(_)),
{
    let mut f = match backend_open(&path) {
        Ok(f) => f,
        Err(e) => {
            return Err(e);
        },
    };
    if !tf_is_builtin(&f) {
        return Err(TaggyError::Parse("custom container formats are not supported".to_owned()));
    }
    let ghost base0 = tags_of(f);
    let ghost sup0 = supported_of(f);
    let ghost primary0 = primary_of(f);
    apply_write_primary(&mut f, &tag, keep_others);
    proof {
        let b = if keep_others {
            base0
        } else {
            Seq::<TagView>::empty()
        };
        assert(unique_types(b));
        lemma_insert_unique(b, sup0, clip_view(retype(tag@, primary0)));
    }
    match tf_save(&f, &path) {
        Ok(()) => Ok(snapshot_all(&f, path)),
        Err(e) => Err(e),
    }
}

/// Delete every tag from the file at the given `path`. One empty tag of
/// the primary format is written in their place, forcing the backend to
/// clear that format's stored bytes. A failed save reports the backend's
/// own description of the failure.
pub fn remove_all(path: String) -> (r: Result<(), TaggyError>)
    ensures
        r matches Err(e) ==> (e is NotFound || e matches TaggyError::Parse(_) || e
            matches TaggyError::Save(_)),
{
    let mut f = match backend_open(&path) {
        Ok(f) => f,
        Err(e) => {
            return Err(e);
        },
    };
    if !tf_is_builtin(&f) {
        return Err(TaggyError::Parse("custom container formats are not supported".to_owned()));
    }
    apply_remove_all(&mut f);
    tf_save(&f, &path)
}

/// Delete the tag whose format matches the provided `tag` from the file at
/// the given `path` (the `FilePrimaryType` directive resolves to the
/// container's primary format). When no such tag exists this is a
/// successful no-op and the file is not saved, since nothing changed.
pub fn remove_tag(path: String, tag: Tag) -> (r: Result<(), TaggyError>)
    ensures
        r matches Err(e) ==> (e is NotFound || e matches TaggyError::Parse(_) || e
            matches TaggyError::Save(_)),
{
    let mut f = match backend_open(&path) {
        Ok(f) => f,
        Err(e) => {
            return Err(e);
        },
    };
    if !tf_is_builtin(&f) {
        return Err(TaggyError::Parse("custom container formats are not supported".to_owned()));
    }
    let tt = if tag.tag_type == TagType::FilePrimaryType {
        tf_primary_type(&f)
    } else {
        tag.tag_type
    };
    let existed = apply_remove_tag(&mut f, tt);
    if !existed {
        // nothing changed, so there is nothing to save
        return Ok(());
    }
    tf_save(&f, &path)
}

} // verus!
