//! The import pipeline: fills the store from the manifests of every
//! registered workspace, in registry order, before any request is
//! served. Reading directories and decoding manifest files is the
//! caller's concern; the pipeline consumes the records and writes the
//! rows.

use vstd::prelude::*;
use crate::image_file::{ImageInfo, ImageInfoV};
use crate::store::{ImageRecord, ImageRecordV, Store, TagRecord, TagRecordV};
use crate::tag::{Tag, TagV};
use crate::tags::Tags;
use crate::workspace_info::{WorkspaceInfo, WorkspaceInfoV};

verus! {

/// Everything one workspace contributes to the import: its registry
/// entry, its image manifests in enumeration order, and its tag
/// catalog.
pub struct WorkspaceData {
    pub info: WorkspaceInfo,
    pub images: Vec<ImageInfo>,
    pub tags: Tags,
}

/// The mathematical value of a `WorkspaceData`.
#[verifier::ext_equal]
pub ghost struct WorkspaceDataV {
    pub info: WorkspaceInfoV,
    pub images: Seq<ImageInfoV>,
    pub tags: Seq<TagV>,
}

impl View for WorkspaceData {
    type V = WorkspaceDataV;

    open spec fn view(&self) -> WorkspaceDataV {
        WorkspaceDataV { info: self.info@, images: self.images@.map_values(|i: ImageInfo| i@), tags: self.tags@ }
    }
}

/// The image row a manifest becomes when imported into `workspace_id`:
/// the manifest's fields bound to that workspace. The manifest's own
/// tag list is not stored; the image table has no place for it.
pub open spec fn spec_image_row(workspace_id: Seq<char>, info: ImageInfoV) -> ImageRecordV {
    ImageRecordV {
        workspace_id: workspace_id,
        image_id: info.image_id,
        file_name: info.file_name,
        ext: info.ext,
        width: info.width,
        height: info.height,
        created_at: info.created_at,
    }
}

/// The tag row a catalog entry becomes when imported into
/// `workspace_id`.
pub open spec fn spec_tag_row(workspace_id: Seq<char>, tag: TagV) -> TagRecordV {
    TagRecordV {
        workspace_id: workspace_id,
        tag_id: tag.tag_id,
        name: tag.name,
        favorite: tag.favorite,
        tag_group_id: tag.tag_group_id,
    }
}

/// The image rows one workspace contributes, in manifest order.
pub open spec fn spec_imported_images(
    workspace_id: Seq<char>,
    images: Seq<ImageInfoV>,
) -> Seq<ImageRecordV> {
    images.map_values(|i: ImageInfoV| spec_image_row(workspace_id, i))
}

/// The tag rows one workspace contributes, in catalog order.
pub open spec fn spec_imported_tags(workspace_id: Seq<char>, tags: Seq<TagV>) -> Seq<TagRecordV> {
    tags.map_values(|t: TagV| spec_tag_row(workspace_id, t))
}

/// The image rows of a whole import run, workspace by workspace in
/// registry order.
pub open spec fn spec_all_image_rows(data: Seq<WorkspaceDataV>) -> Seq<ImageRecordV>
    decreases data.len(),
{
    if data.len() == 0 {
        Seq::empty()
    } else {
        spec_all_image_rows(data.drop_last()) + spec_imported_images(
            data.last().info.workspace_id,
            data.last().images,
        )
    }
}

/// The tag rows of a whole import run, workspace by workspace in
/// registry order.
pub open spec fn spec_all_tag_rows(data: Seq<WorkspaceDataV>) -> Seq<TagRecordV>
    decreases data.len(),
{
    if data.len() == 0 {
        Seq::empty()
    } else {
        spec_all_tag_rows(data.drop_last()) + spec_imported_tags(
            data.last().info.workspace_id,
            data.last().tags,
        )
    }
}

/// Builds the stored image row for one manifest.
fn image_row(workspace_id: &str, info: &ImageInfo) -> (r: ImageRecord)
    ensures
        r@ == spec_image_row(workspace_id@, info@),
{
    ImageRecord {
        workspace_id: workspace_id.to_owned(),
        image_id: info.image_id.clone(),
        file_name: info.file_name.clone(),
        ext: info.ext.clone(),
        width: info.width,
        height: info.height,
        created_at: info.created_at.clone(),
    }
}

/// Builds the stored tag row for one catalog entry.
fn tag_row(workspace_id: &str, tag: &Tag) -> (r: TagRecord)
    ensures
        r@ == spec_tag_row(workspace_id@, tag@),
{
    TagRecord {
        workspace_id: workspace_id.to_owned(),
        tag_id: tag.tag_id.clone(),
        name: tag.name.clone(),
        favorite: tag.favorite,
        tag_group_id: tag.tag_group_id.clone(),
    }
}

/// Inserts one image row per manifest of one workspace, in manifest
/// order, after everything already in the image table.
fn insert_workspace_images(store: &mut Store, workspace_id: &str, images: &Vec<ImageInfo>)
    ensures
        final(store)@.images == old(store)@.images + spec_imported_images(
            workspace_id@,
            images@.map_values(|i: ImageInfo| i@),
        ),
        final(store)@.auth == old(store)@.auth,
        final(store)@.tags == old(store)@.tags,
{
    let ghost all = images@.map_values(|i: ImageInfo| i@);
    let mut i: usize = 0;
    proof {
        assert(store@.images =~= old(store)@.images + spec_imported_images(
            workspace_id@,
            all.take(0),
        ));
    }
    while i < images.len()
        invariant
            i <= images.len(),
            all == images@.map_values(|x: ImageInfo| x@),
            store@.images == old(store)@.images + spec_imported_images(
                workspace_id@,
                all.take(i as int),
            ),
            store@.auth == old(store)@.auth,
            store@.tags == old(store)@.tags,
        decreases images.len() - i,
    {
        let row = image_row(workspace_id, &images[i]);
        store.insert_image(row);
        proof {
            assert(store@.images =~= old(store)@.images + spec_imported_images(
                workspace_id@,
                all.take(i as int + 1),
            ));
        }
        i += 1;
    }
    proof {
        assert(all.take(images.len() as int) =~= all);
    }
}

/// Inserts one tag row per catalog entry of one workspace, in catalog
/// order, after everything already in the tag table.
fn insert_workspace_tags(store: &mut Store, workspace_id: &str, tags: &Tags)
    ensures
        final(store)@.tags == old(store)@.tags + spec_imported_tags(workspace_id@, tags@),
        final(store)@.auth == old(store)@.auth,
        final(store)@.images == old(store)@.images,
{
    let ghost all = tags@;
    let mut i: usize = 0;
    proof {
        assert(store@.tags =~= old(store)@.tags + spec_imported_tags(
            workspace_id@,
            all.take(0),
        ));
    }
    while i < tags.tags.len()
        invariant
            i <= tags.tags.len(),
            all == tags@,
            all.len() == tags.tags.len(),
            store@.tags == old(store)@.tags + spec_imported_tags(
                workspace_id@,
                all.take(i as int),
            ),
            store@.auth == old(store)@.auth,
            store@.images == old(store)@.images,
        decreases tags.tags.len() - i,
    {
        let row = tag_row(workspace_id, &tags.tags[i]);
        store.insert_tag(row);
        proof {
            assert(store@.tags =~= old(store)@.tags + spec_imported_tags(
                workspace_id@,
                all.take(i as int + 1),
            ));
        }
        i += 1;
    }
    proof {
        assert(all.take(tags.tags.len() as int) =~= all);
    }
}

/// First pass of the import: for every workspace in registry order,
/// one image row per manifest, appended in enumeration order.
pub fn load_image_info(store: &mut Store, data: &Vec<WorkspaceData>)
    ensures
        final(store)@.images == old(store)@.images + spec_all_image_rows(
            data@.map_values(|d: WorkspaceData| d@),
        ),
        final(store)@.auth == old(store)@.auth,
        final(store)@.tags == old(store)@.tags,
{
    let ghost all = data@.map_values(|d: WorkspaceData| d@);
    let mut k: usize = 0;
    proof {
        assert(store@.images =~= old(store)@.images + spec_all_image_rows(all.take(0)));
    }
    while k < data.len()
        invariant
            k <= data.len(),
            all == data@.map_values(|d: WorkspaceData| d@),
            store@.images == old(store)@.images + spec_all_image_rows(all.take(k as int)),
            store@.auth == old(store)@.auth,
            store@.tags == old(store)@.tags,
        decreases data.len() - k,
    {
        let ws = &data[k];
        insert_workspace_images(store, ws.info.workspace_id.as_str(), &ws.images);
        proof {
            assert(all.take(k as int + 1).drop_last() =~= all.take(k as int));
            assert(all.take(k as int + 1).last() == all[k as int]);
            assert(store@.images =~= old(store)@.images + spec_all_image_rows(
                all.take(k as int + 1),
            ));
        }
        k += 1;
    }
    proof {
        assert(all.take(data.len() as int) =~= all);
    }
}

/// Second pass of the import: for every workspace in registry order,
/// one tag row per catalog entry, appended in catalog order.
pub fn load_tags(store: &mut Store, data: &Vec<WorkspaceData>)
    ensures
        final(store)@.tags == old(store)@.tags + spec_all_tag_rows(
            data@.map_values(|d: WorkspaceData| d@),
        ),
        final(store)@.auth == old(store)@.auth,
        final(store)@.images == old(store)@.images,
{
    let ghost all = data@.map_values(|d: WorkspaceData| d@);
    let mut k: usize = 0;
    proof {
        assert(store@.tags =~= old(store)@.tags + spec_all_tag_rows(all.take(0)));
    }
    while k < data.len()
        invariant
            k <= data.len(),
            all == data@.map_values(|d: WorkspaceData| d@),
            store@.tags == old(store)@.tags + spec_all_tag_rows(all.take(k as int)),
            store@.auth == old(store)@.auth,
            store@.images == old(store)@.images,
        decreases data.len() - k,
    {
        let ws = &data[k];
        insert_workspace_tags(store, ws.info.workspace_id.as_str(), &ws.tags);
        proof {
            assert(all.take(k as int + 1).drop_last() =~= all.take(k as int));
            assert(all.take(k as int + 1).last() == all[k as int]);
            assert(store@.tags =~= old(store)@.tags + spec_all_tag_rows(
                all.take(k as int + 1),
            ));
        }
        k += 1;
    }
    proof {
        assert(all.take(data.len() as int) =~= all);
    }
}

/// The whole import, as it runs at startup: all image rows first, all
/// tag rows second, everything in registry order. The pipeline only
/// inserts — run twice against the same store it duplicates every row;
/// nothing checks for existing ones.
pub fn initialize(store: &mut Store, data: &Vec<WorkspaceData>)
    ensures
        final(store)@.images == old(store)@.images + spec_all_image_rows(
            data@.map_values(|d: WorkspaceData| d@),
        ),
        final(store)@.tags == old(store)@.tags + spec_all_tag_rows(
            data@.map_values(|d: WorkspaceData| d@),
        ),
        final(store)@.auth == old(store)@.auth,
{
    load_image_info(store, data);
    load_tags(store, data);
}

} // verus!
