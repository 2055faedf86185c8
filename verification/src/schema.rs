//! Creation of the store a fresh process starts with.

use vstd::prelude::*;
use crate::store::{CredentialV, ImageRecordV, Store, TagRecordV};

verus! {

/// The store every process starts from: the three tables exist and
/// hold no rows. The store is rebuilt from scratch on every start;
/// credentials enter it only at login, images and tags only through
/// the import pipeline.
pub fn create_schema() -> (s: Store)
    ensures
        s@.auth == Seq::<CredentialV>::empty(),
        s@.images == Seq::<ImageRecordV>::empty(),
        s@.tags == Seq::<TagRecordV>::empty(),
{
    Store::empty()
}

} // verus!
