//! One image as the query layer returns it: the stored manifest fields
//! without the workspace binding, plus a tag list the query layer leaves
//! empty today.

use vstd::prelude::*;
use crate::query::spec_image_page;
use crate::store::{ImageRecord, ImageRecordV, Store};

verus! {

/// One image row of a query result. The `tags` field exists in the
/// response shape but is never populated by the query layer.
pub struct ImageInfo {
    pub image_id: String,
    pub file_name: String,
    pub ext: String,
    pub width: u32,
    pub height: u32,
    pub created_at: String,
    pub tags: Vec<String>,
}

/// The mathematical value of a query-side `ImageInfo`.
#[verifier::ext_equal]
pub ghost struct ImageInfoV {
    pub image_id: Seq<char>,
    pub file_name: Seq<char>,
    pub ext: Seq<char>,
    pub width: u32,
    pub height: u32,
    pub created_at: Seq<char>,
    pub tags: Seq<Seq<char>>,
}

impl View for ImageInfo {
    type V = ImageInfoV;

    open spec fn view(&self) -> ImageInfoV {
        ImageInfoV {
            image_id: self.image_id@,
            file_name: self.file_name@,
            ext: self.ext@,
            width: self.width,
            height: self.height,
            created_at: self.created_at@,
            tags: self.tags@.map_values(|t: String| t@),
        }
    }
}

/// How a stored image row is projected into a query result: the
/// workspace binding is dropped and the tag list is left empty.
pub open spec fn record_to_info(r: ImageRecordV) -> ImageInfoV {
    ImageInfoV {
        image_id: r.image_id,
        file_name: r.file_name,
        ext: r.ext,
        width: r.width,
        height: r.height,
        created_at: r.created_at,
        tags: Seq::empty(),
    }
}

impl ImageInfo {
    /// Projects one stored row into the response shape.
    pub fn from_record(r: &ImageRecord) -> (res: ImageInfo)
        ensures
            res@ == record_to_info(r@),
    {
        let res = ImageInfo {
            image_id: r.image_id.clone(),
            file_name: r.file_name.clone(),
            ext: r.ext.clone(),
            width: r.width,
            height: r.height,
            created_at: r.created_at.clone(),
            tags: Vec::new(),
        };
        proof {
            assert(res@ =~= record_to_info(r@));
        }
        res
    }

    /// A copy with the same mathematical value.
    pub fn duplicate(&self) -> (res: ImageInfo)
        ensures
            res@ == self@,
    {
        let tags = self.tags.clone();
        proof {
            assert(forall|i: int|
                0 <= i < self.tags@.len() ==> tags@[i]@ == #[trigger] self.tags@[i]@);
            assert(tags@.map_values(|t: String| t@) =~= self.tags@.map_values(|t: String| t@));
        }
        let res = ImageInfo {
            image_id: self.image_id.clone(),
            file_name: self.file_name.clone(),
            ext: self.ext.clone(),
            width: self.width,
            height: self.height,
            created_at: self.created_at.clone(),
            tags,
        };
        proof {
            assert(res@ =~= self@);
        }
        res
    }

    /// One page of the images of `workspace_id`, in insertion order:
    /// rows `100 * (page - 1)` up to `100 * page` of that workspace's
    /// image sequence, projected into the response shape. Pages are
    /// 1-based; a page past the end is empty, and no row of any other
    /// workspace is ever returned.
    pub fn get(store: &Store, workspace_id: &str, page: u32) -> (r: Vec<ImageInfo>)
        requires
            page >= 1,
        ensures
            r@.map_values(|x: ImageInfo| x@) == spec_image_page(
                store@.images,
                workspace_id@,
                page as int,
            ),
    {
        let w: String = workspace_id.to_owned();
        let ghost f = crate::store::spec_workspace_images(store@.images, workspace_id@)
            .map_values(|r: ImageRecordV| record_to_info(r));

        let mut matched: Vec<ImageInfo> = Vec::new();
        let mut i: usize = 0;
        while i < store.images.len()
            invariant
                i <= store.images.len(),
                w@ == workspace_id@,
                matched@.map_values(|x: ImageInfo| x@) == crate::store::spec_workspace_images(
                    store@.images.take(i as int),
                    workspace_id@,
                ).map_values(|r: ImageRecordV| record_to_info(r)),
            decreases store.images.len() - i,
        {
            let ghost prev = store@.images.take(i as int);
            let ghost cur = store@.images.take(i as int + 1);
            let ghost row_v = store@.images[i as int];
            proof {
                assert(cur.drop_last() =~= prev);
                assert(cur.last() == row_v);
                assert(crate::store::spec_workspace_images(cur, workspace_id@) == (
                if row_v.workspace_id == workspace_id@ {
                    crate::store::spec_workspace_images(prev, workspace_id@).push(row_v)
                } else {
                    crate::store::spec_workspace_images(prev, workspace_id@)
                }));
            }
            let ghost before = matched@.map_values(|x: ImageInfo| x@);
            let row = &store.images[i];
            if row.workspace_id == w {
                let info = ImageInfo::from_record(row);
                matched.push(info);
                proof {
                    assert(matched@.map_values(|x: ImageInfo| x@) =~= before.push(
                        record_to_info(row_v),
                    ));
                    assert(crate::store::spec_workspace_images(prev, workspace_id@).push(
                        row_v,
                    ).map_values(|r: ImageRecordV| record_to_info(r))
                        =~= crate::store::spec_workspace_images(prev, workspace_id@).map_values(
                        |r: ImageRecordV| record_to_info(r),
                    ).push(record_to_info(row_v)));
                }
            }
            proof {
                assert(matched@.map_values(|x: ImageInfo| x@)
                    =~= crate::store::spec_workspace_images(cur, workspace_id@).map_values(
                    |r: ImageRecordV| record_to_info(r),
                ));
            }
            i += 1;
        }
        proof {
            assert(store@.images.take(store.images.len() as int) =~= store@.images);
            assert(matched@.map_values(|x: ImageInfo| x@) == f);
        }

        let total: usize = matched.len();
        let lo64: u64 = 100u64 * ((page - 1) as u64);
        let hi64: u64 = lo64 + 100u64;
        let lo: usize = if lo64 > total as u64 {
            total
        } else {
            lo64 as usize
        };
        let hi: usize = if hi64 > total as u64 {
            total
        } else {
            hi64 as usize
        };

        let mut r: Vec<ImageInfo> = Vec::new();
        let mut j: usize = lo;
        proof {
            assert(r@.map_values(|x: ImageInfo| x@) =~= f.subrange(lo as int, lo as int));
        }
        while j < hi
            invariant
                lo <= j <= hi <= total,
                total == matched.len(),
                matched@.map_values(|x: ImageInfo| x@) == f,
                r@.map_values(|x: ImageInfo| x@) == f.subrange(lo as int, j as int),
            decreases hi - j,
        {
            let ghost before = r@.map_values(|x: ImageInfo| x@);
            let x = matched[j].duplicate();
            r.push(x);
            proof {
                assert(x@ == f[j as int]);
                assert(r@.map_values(|x: ImageInfo| x@) =~= before.push(f[j as int]));
                assert(f.subrange(lo as int, j as int + 1) =~= f.subrange(
                    lo as int,
                    j as int,
                ).push(f[j as int]));
            }
            j += 1;
        }
        proof {
            assert(r@.map_values(|x: ImageInfo| x@) == spec_image_page(
                store@.images,
                workspace_id@,
                page as int,
            ));
        }
        r
    }
}

} // verus!
