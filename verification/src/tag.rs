//! One tag of a workspace's tag catalog, as the query layer returns it.

use vstd::prelude::*;

verus! {

/// One tag: its id, display name, favorite flag and group, all unique
/// only within the workspace the catalog belongs to. The workspace
/// binding itself lives on the store's rows, not here.
pub struct Tag {
    pub tag_id: String,
    pub name: String,
    pub favorite: bool,
    pub tag_group_id: String,
}

/// The mathematical value of a `Tag`.
#[verifier::ext_equal]
pub ghost struct TagV {
    pub tag_id: Seq<char>,
    pub name: Seq<char>,
    pub favorite: bool,
    pub tag_group_id: Seq<char>,
}

impl View for Tag {
    type V = TagV;

    open spec fn view(&self) -> TagV {
        TagV {
            tag_id: self.tag_id@,
            name: self.name@,
            favorite: self.favorite,
            tag_group_id: self.tag_group_id@,
        }
    }
}

} // verus!
