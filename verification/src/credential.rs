//! The credential issuer: a fresh random opaque token, bound to the
//! workspace id the caller supplied and persisted in the store.

use vstd::prelude::*;
use crate::store::{Credential, Store};

verus! {

/// A lowercase hexadecimal digit.
pub open spec fn spec_is_lower_hex_digit(c: char) -> bool {
    ||| '0' as u32 <= c as u32 <= '9' as u32
    ||| 'a' as u32 <= c as u32 <= 'f' as u32
}

/// The canonical hyphenated form a generated access token takes: 36
/// characters, hyphens at exactly positions 8, 13, 18 and 23, and a
/// lowercase hex digit everywhere else. A colon never occurs, so a
/// token survives the colon-joined credential header unharmed.
pub open spec fn spec_is_hyphenated_token(s: Seq<char>) -> bool {
    &&& s.len() == 36
    &&& s[8] == '-'
    &&& s[13] == '-'
    &&& s[18] == '-'
    &&& s[23] == '-'
    &&& forall|i: int|
        0 <= i < 36 && i != 8 && i != 13 && i != 18 && i != 23 ==> spec_is_lower_hex_digit(
            #[trigger] s[i],
        )
}

/// Relies on uuid::Uuid::new_v4 and its Display form: a fresh random
/// version-4 UUID, rendered hyphenated as 8-4-4-4-12 lowercase hex
/// digit groups. The value is random; nothing beyond its shape is
/// promised. With the default operating-system randomness backend the
/// call panics if that source fails — an environmental failure, like
/// running out of memory.
#[verifier::external_body]
fn fresh_access_token() -> (r: String)
    ensures
        spec_is_hyphenated_token(r@),
{
    uuid::Uuid::new_v4().to_string()
}

/// Issues a new credential: generates a fresh random token, persists
/// the (token, workspace id) binding as a new row of the auth table,
/// and returns it. Any workspace id string is accepted and stored;
/// nothing checks it against the workspace registry.
pub fn issue(store: &mut Store, workspace_id: String) -> (c: Credential)
    ensures
        c.workspace_id == workspace_id,
        spec_is_hyphenated_token(c.access_token@),
        final(store)@.auth == old(store)@.auth.push(c@),
        final(store)@.images == old(store)@.images,
        final(store)@.tags == old(store)@.tags,
{
    let token = fresh_access_token();
    let c = Credential { access_token: token.clone(), workspace_id: workspace_id.clone() };
    let row = Credential { access_token: token, workspace_id };
    store.insert_credential(row);
    c
}

} // verus!
