//! Workspace-scoped read queries: paginated images and the full tag
//! list, both strictly limited to the authorized workspace's rows.

use vstd::prelude::*;
use crate::image_db::{record_to_info, ImageInfo, ImageInfoV};
use crate::store::{
    spec_workspace_images, spec_workspace_tags, ImageRecordV, Store, TagRecord, TagRecordV,
};
use crate::tag::{Tag, TagV};

verus! {

/// Rows per page of the image listing.
pub const PAGE_SIZE: usize = 100;

/// `n`, cut off at `len`: the index where a page boundary actually
/// falls in a sequence of length `len`.
pub open spec fn spec_cap(n: int, len: int) -> int {
    if n <= len {
        n
    } else {
        len
    }
}

/// Page `page` (1-based) of the images of `workspace_id`: the slice
/// `PAGE_SIZE * (page - 1) .. PAGE_SIZE * page` of that workspace's
/// image sequence, both bounds cut off at the end, projected into the
/// response shape.
pub open spec fn spec_image_page(
    images: Seq<ImageRecordV>,
    workspace_id: Seq<char>,
    page: int,
) -> Seq<ImageInfoV> {
    let f = spec_workspace_images(images, workspace_id).map_values(|r: ImageRecordV| record_to_info(r));
    f.subrange(
        spec_cap(PAGE_SIZE as int * (page - 1), f.len() as int),
        spec_cap(PAGE_SIZE as int * page, f.len() as int),
    )
}

/// What `list_images` returns for any requested page number: page
/// numbers below one are clamped to one, never rejected.
pub open spec fn spec_list_images(
    images: Seq<ImageRecordV>,
    workspace_id: Seq<char>,
    page: u32,
) -> Seq<ImageInfoV> {
    spec_image_page(images, workspace_id, if page < 1 { 1int } else { page as int })
}

/// The paginated image listing: clamps the page number to at least one,
/// then returns that page of the workspace's images together with the
/// page number actually served. Callers infer exhaustion from a short
/// page; no other signal is returned.
pub fn list_images(store: &Store, workspace_id: &str, page: u32) -> (r: (u32, Vec<ImageInfo>))
    ensures
        r.0 == (if page < 1 { 1u32 } else { page }),
        r.1@.map_values(|x: ImageInfo| x@) == spec_list_images(store@.images, workspace_id@, page),
{
    let p: u32 = if page < 1 {
        1
    } else {
        page
    };
    let images = ImageInfo::get(store, workspace_id, p);
    (p, images)
}

/// Page numbers below one are served as page one, records and all.
pub proof fn lemma_low_page_as_first(
    images: Seq<ImageRecordV>,
    workspace_id: Seq<char>,
    page: u32,
)
    requires
        page < 1,
    ensures
        spec_list_images(images, workspace_id, page) == spec_list_images(
            images,
            workspace_id,
            1,
        ),
{
}

/// No page holds more than `PAGE_SIZE` records.
pub proof fn lemma_page_len(images: Seq<ImageRecordV>, workspace_id: Seq<char>, page: int)
    requires
        page >= 1,
    ensures
        spec_image_page(images, workspace_id, page).len() <= PAGE_SIZE,
{
}

/// The first `k` pages of a workspace's image listing, concatenated in
/// order.
pub open spec fn spec_pages_concat(
    images: Seq<ImageRecordV>,
    workspace_id: Seq<char>,
    k: int,
) -> Seq<ImageInfoV>
    decreases k,
{
    if k <= 0 {
        Seq::empty()
    } else {
        spec_pages_concat(images, workspace_id, k - 1) + spec_image_page(
            images,
            workspace_id,
            k,
        )
    }
}

/// Pages partition the listing into consecutive blocks with no
/// duplicates and no gaps: the first `k` pages, concatenated, are
/// exactly the first `PAGE_SIZE * k` records of the workspace's image
/// sequence.
pub proof fn lemma_pages_cover_prefix(
    images: Seq<ImageRecordV>,
    workspace_id: Seq<char>,
    k: int,
)
    requires
        k >= 0,
    ensures
        ({
            let m = spec_workspace_images(images, workspace_id).map_values(
                |r: ImageRecordV| record_to_info(r),
            );
            spec_pages_concat(images, workspace_id, k) == m.take(
                spec_cap(PAGE_SIZE as int * k, m.len() as int),
            )
        }),
    decreases k,
{
    let m = spec_workspace_images(images, workspace_id).map_values(
        |r: ImageRecordV| record_to_info(r),
    );
    if k == 0 {
        assert(spec_pages_concat(images, workspace_id, 0) =~= m.take(
            spec_cap(0, m.len() as int),
        ));
    } else {
        lemma_pages_cover_prefix(images, workspace_id, k - 1);
        assert(spec_pages_concat(images, workspace_id, k) =~= m.take(
            spec_cap(PAGE_SIZE as int * k, m.len() as int),
        ));
    }
}

/// Once `PAGE_SIZE * k` reaches the workspace's row count, the first
/// `k` pages together are the workspace's whole image set.
pub proof fn lemma_pages_exhaust(images: Seq<ImageRecordV>, workspace_id: Seq<char>, k: int)
    requires
        k >= 0,
        PAGE_SIZE as int * k >= spec_workspace_images(images, workspace_id).len(),
    ensures
        spec_pages_concat(images, workspace_id, k) == spec_workspace_images(
            images,
            workspace_id,
        ).map_values(|r: ImageRecordV| record_to_info(r)),
{
    let m = spec_workspace_images(images, workspace_id).map_values(
        |r: ImageRecordV| record_to_info(r),
    );
    lemma_pages_cover_prefix(images, workspace_id, k);
    assert(m.take(spec_cap(PAGE_SIZE as int * k, m.len() as int)) =~= m);
}

/// Every row the image filter yields belongs to the workspace asked
/// for and stands in the table it was drawn from.
pub proof fn lemma_workspace_images_scoped(images: Seq<ImageRecordV>, workspace_id: Seq<char>)
    ensures
        forall|i: int|
            0 <= i < spec_workspace_images(images, workspace_id).len() ==> {
                let r = #[trigger] spec_workspace_images(images, workspace_id)[i];
                r.workspace_id == workspace_id && images.contains(r)
            },
    decreases images.len(),
{
    let f = spec_workspace_images(images, workspace_id);
    if images.len() > 0 {
        let prefix = images.drop_last();
        lemma_workspace_images_scoped(prefix, workspace_id);
        let fp = spec_workspace_images(prefix, workspace_id);
        assert forall|i: int| 0 <= i < f.len() implies ((#[trigger] f[i]).workspace_id
            == workspace_id && images.contains(f[i])) by {
            if i < fp.len() {
                assert(fp[i].workspace_id == workspace_id && prefix.contains(fp[i]));
                let j = choose|j: int| 0 <= j < prefix.len() && prefix[j] == fp[i];
                assert(images[j] == fp[i]);
                assert(f[i] == fp[i]);
            } else {
                assert(f[i] == images.last());
                assert(images[images.len() - 1] == images.last());
            }
        }
    }
}

/// Every row the tag filter yields belongs to the workspace asked for
/// and stands in the table it was drawn from.
pub proof fn lemma_workspace_tags_scoped(tags: Seq<TagRecordV>, workspace_id: Seq<char>)
    ensures
        forall|i: int|
            0 <= i < spec_workspace_tags(tags, workspace_id).len() ==> {
                let r = #[trigger] spec_workspace_tags(tags, workspace_id)[i];
                r.workspace_id == workspace_id && tags.contains(r)
            },
    decreases tags.len(),
{
    let f = spec_workspace_tags(tags, workspace_id);
    if tags.len() > 0 {
        let prefix = tags.drop_last();
        lemma_workspace_tags_scoped(prefix, workspace_id);
        let fp = spec_workspace_tags(prefix, workspace_id);
        assert forall|i: int| 0 <= i < f.len() implies ((#[trigger] f[i]).workspace_id
            == workspace_id && tags.contains(f[i])) by {
            if i < fp.len() {
                assert(fp[i].workspace_id == workspace_id && prefix.contains(fp[i]));
                let j = choose|j: int| 0 <= j < prefix.len() && prefix[j] == fp[i];
                assert(tags[j] == fp[i]);
                assert(f[i] == fp[i]);
            } else {
                assert(f[i] == tags.last());
                assert(tags[tags.len() - 1] == tags.last());
            }
        }
    }
}

/// `rec` is the projection of some row of `images` that belongs to
/// `workspace_id`.
pub open spec fn spec_row_of_workspace(
    images: Seq<ImageRecordV>,
    workspace_id: Seq<char>,
    rec: ImageInfoV,
) -> bool {
    exists|j: int|
        0 <= j < images.len() && (#[trigger] images[j]).workspace_id == workspace_id && rec
            == record_to_info(images[j])
}

/// No image page ever leaves the authorized workspace: each of its
/// records is the projection of some stored row bound to exactly that
/// workspace, however many rows other workspaces hold.
pub proof fn lemma_image_page_scoped(
    images: Seq<ImageRecordV>,
    workspace_id: Seq<char>,
    page: int,
)
    requires
        page >= 1,
    ensures
        forall|i: int|
            0 <= i < spec_image_page(images, workspace_id, page).len()
                ==> spec_row_of_workspace(
                images,
                workspace_id,
                #[trigger] spec_image_page(images, workspace_id, page)[i],
            ),
{
    let f = spec_workspace_images(images, workspace_id);
    let m = f.map_values(|r: ImageRecordV| record_to_info(r));
    let p = spec_image_page(images, workspace_id, page);
    let lo = spec_cap(PAGE_SIZE as int * (page - 1), m.len() as int);
    lemma_workspace_images_scoped(images, workspace_id);
    assert forall|i: int|
        0 <= i < spec_image_page(images, workspace_id, page).len()
            implies spec_row_of_workspace(
        images,
        workspace_id,
        spec_image_page(images, workspace_id, page)[i],
    ) by {
        assert(p[i] == m[lo + i]);
        assert(m[lo + i] == record_to_info(f[lo + i]));
        assert(f[lo + i].workspace_id == workspace_id && images.contains(f[lo + i]));
        let j = choose|j: int| 0 <= j < images.len() && images[j] == f[lo + i];
        assert(0 <= j < images.len() && images[j].workspace_id == workspace_id && p[i]
            == record_to_info(images[j]));
    }
}

/// `t` is the projection of some row of `tags` that belongs to
/// `workspace_id`.
pub open spec fn spec_tag_of_workspace(
    tags: Seq<TagRecordV>,
    workspace_id: Seq<char>,
    t: TagV,
) -> bool {
    exists|j: int|
        0 <= j < tags.len() && (#[trigger] tags[j]).workspace_id == workspace_id && t
            == tag_record_to_tag(tags[j])
}

/// The tag listing never leaves the authorized workspace: each of its
/// records is the projection of some stored row bound to exactly that
/// workspace.
pub proof fn lemma_tag_list_scoped(tags: Seq<TagRecordV>, workspace_id: Seq<char>)
    ensures
        ({
            let listed = spec_workspace_tags(tags, workspace_id).map_values(
                |t: TagRecordV| tag_record_to_tag(t),
            );
            forall|i: int|
                0 <= i < listed.len() ==> spec_tag_of_workspace(
                    tags,
                    workspace_id,
                    #[trigger] listed[i],
                )
        }),
{
    let f = spec_workspace_tags(tags, workspace_id);
    let listed = f.map_values(|t: TagRecordV| tag_record_to_tag(t));
    lemma_workspace_tags_scoped(tags, workspace_id);
    assert forall|i: int|
        0 <= i < listed.len() implies spec_tag_of_workspace(
        tags,
        workspace_id,
        listed[i],
    ) by {
        assert(listed[i] == tag_record_to_tag(f[i]));
        assert(f[i].workspace_id == workspace_id && tags.contains(f[i]));
        let j = choose|j: int| 0 <= j < tags.len() && tags[j] == f[i];
        assert(0 <= j < tags.len() && tags[j].workspace_id == workspace_id && listed[i]
            == tag_record_to_tag(tags[j]));
    }
}

/// How a stored tag row is projected into a query result: the workspace
/// binding is dropped.
pub open spec fn tag_record_to_tag(t: TagRecordV) -> TagV {
    TagV { tag_id: t.tag_id, name: t.name, favorite: t.favorite, tag_group_id: t.tag_group_id }
}

/// Projects one stored tag row into the response shape.
fn tag_from_record(r: &TagRecord) -> (res: Tag)
    ensures
        res@ == tag_record_to_tag(r@),
{
    Tag {
        tag_id: r.tag_id.clone(),
        name: r.name.clone(),
        favorite: r.favorite,
        tag_group_id: r.tag_group_id.clone(),
    }
}

/// All tags of the workspace, unpaginated, in insertion order; no row
/// of any other workspace is ever returned.
pub fn list_tags(store: &Store, workspace_id: &str) -> (r: Vec<Tag>)
    ensures
        r@.map_values(|t: Tag| t@) == spec_workspace_tags(store@.tags, workspace_id@).map_values(
            |t: TagRecordV| tag_record_to_tag(t),
        ),
{
    let w: String = workspace_id.to_owned();
    let mut r: Vec<Tag> = Vec::new();
    let mut i: usize = 0;
    while i < store.tags.len()
        invariant
            i <= store.tags.len(),
            w@ == workspace_id@,
            r@.map_values(|t: Tag| t@) == spec_workspace_tags(
                store@.tags.take(i as int),
                workspace_id@,
            ).map_values(|t: TagRecordV| tag_record_to_tag(t)),
        decreases store.tags.len() - i,
    {
        let ghost prev = store@.tags.take(i as int);
        let ghost cur = store@.tags.take(i as int + 1);
        let ghost row_v = store@.tags[i as int];
        proof {
            assert(cur.drop_last() =~= prev);
            assert(cur.last() == row_v);
            assert(spec_workspace_tags(cur, workspace_id@) == (if row_v.workspace_id
                == workspace_id@ {
                spec_workspace_tags(prev, workspace_id@).push(row_v)
            } else {
                spec_workspace_tags(prev, workspace_id@)
            }));
        }
        let ghost before = r@.map_values(|t: Tag| t@);
        let row = &store.tags[i];
        if row.workspace_id == w {
            let tag = tag_from_record(row);
            r.push(tag);
            proof {
                assert(row@ == row_v);
                assert(tag@ == tag_record_to_tag(row_v));
                assert(r@.map_values(|t: Tag| t@) =~= before.push(tag_record_to_tag(row_v)));
                assert(spec_workspace_tags(prev, workspace_id@).push(row_v).map_values(
                    |t: TagRecordV| tag_record_to_tag(t),
                ) =~= spec_workspace_tags(prev, workspace_id@).map_values(
                    |t: TagRecordV| tag_record_to_tag(t),
                ).push(tag_record_to_tag(row_v)));
            }
        }
        proof {
            assert(r@.map_values(|t: Tag| t@) =~= spec_workspace_tags(
                cur,
                workspace_id@,
            ).map_values(|t: TagRecordV| tag_record_to_tag(t)));
        }
        i += 1;
    }
    proof {
        assert(store@.tags.take(store.tags.len() as int) =~= store@.tags);
    }
    r
}

} // verus!
