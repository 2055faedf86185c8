//! A workspace's tag catalog: the list of all tags usable within it.

use vstd::prelude::*;
use crate::tag::{Tag, TagV};

verus! {

/// The whole tag catalog of one workspace. A workspace without a catalog
/// file gets the empty catalog rather than an error.
pub struct Tags {
    pub tags: Vec<Tag>,
}

impl View for Tags {
    type V = Seq<TagV>;

    open spec fn view(&self) -> Seq<TagV> {
        self.tags@.map_values(|t: Tag| t@)
    }
}

impl Tags {
    /// The empty catalog.
    pub fn new() -> (r: Self)
        ensures
            r@ == Seq::<TagV>::empty(),
    {
        let r = Self { tags: Vec::new() };
        proof {
            assert(r@ =~= Seq::<TagV>::empty());
        }
        r
    }
}

} // verus!
