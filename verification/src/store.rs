//! The shared relational store: credentials, images and tags, all scoped
//! by workspace id. Rows are kept in insertion order, import and login
//! being the only writers.

use vstd::prelude::*;

verus! {

/// One credential row: an opaque access token bound to a workspace id.
/// Many tokens may map to the same workspace; a token is never updated,
/// expired or revoked.
pub struct Credential {
    pub access_token: String,
    pub workspace_id: String,
}

/// The mathematical value of a `Credential`: both fields as character
/// sequences.
#[verifier::ext_equal]
pub ghost struct CredentialV {
    pub access_token: Seq<char>,
    pub workspace_id: Seq<char>,
}

impl View for Credential {
    type V = CredentialV;

    open spec fn view(&self) -> CredentialV {
        CredentialV { access_token: self.access_token@, workspace_id: self.workspace_id@ }
    }
}

/// One image row, as the import pipeline writes it: the manifest fields
/// of one image, bound to the workspace the image was found in.
pub struct ImageRecord {
    pub workspace_id: String,
    pub image_id: String,
    pub file_name: String,
    pub ext: String,
    pub width: u32,
    pub height: u32,
    pub created_at: String,
}

/// The mathematical value of an `ImageRecord`.
#[verifier::ext_equal]
pub ghost struct ImageRecordV {
    pub workspace_id: Seq<char>,
    pub image_id: Seq<char>,
    pub file_name: Seq<char>,
    pub ext: Seq<char>,
    pub width: u32,
    pub height: u32,
    pub created_at: Seq<char>,
}

impl View for ImageRecord {
    type V = ImageRecordV;

    open spec fn view(&self) -> ImageRecordV {
        ImageRecordV {
            workspace_id: self.workspace_id@,
            image_id: self.image_id@,
            file_name: self.file_name@,
            ext: self.ext@,
            width: self.width,
            height: self.height,
            created_at: self.created_at@,
        }
    }
}

/// One tag row from a workspace's tag catalog, bound to that workspace.
pub struct TagRecord {
    pub workspace_id: String,
    pub tag_id: String,
    pub name: String,
    pub favorite: bool,
    pub tag_group_id: String,
}

/// The mathematical value of a `TagRecord`.
#[verifier::ext_equal]
pub ghost struct TagRecordV {
    pub workspace_id: Seq<char>,
    pub tag_id: Seq<char>,
    pub name: Seq<char>,
    pub favorite: bool,
    pub tag_group_id: Seq<char>,
}

impl View for TagRecord {
    type V = TagRecordV;

    open spec fn view(&self) -> TagRecordV {
        TagRecordV {
            workspace_id: self.workspace_id@,
            tag_id: self.tag_id@,
            name: self.name@,
            favorite: self.favorite,
            tag_group_id: self.tag_group_id@,
        }
    }
}

/// The single shared store. Each table keeps its rows in insertion
/// order; nothing is ever updated or deleted, so that order is stable
/// once the import has run.
pub struct Store {
    pub auth: Vec<Credential>,
    pub images: Vec<ImageRecord>,
    pub tags: Vec<TagRecord>,
}

/// The mathematical value of a `Store`: the three tables as sequences
/// of row values, in insertion order.
#[verifier::ext_equal]
pub ghost struct StoreV {
    pub auth: Seq<CredentialV>,
    pub images: Seq<ImageRecordV>,
    pub tags: Seq<TagRecordV>,
}

impl View for Store {
    type V = StoreV;

    open spec fn view(&self) -> StoreV {
        StoreV {
            auth: self.auth@.map_values(|c: Credential| c@),
            images: self.images@.map_values(|r: ImageRecord| r@),
            tags: self.tags@.map_values(|t: TagRecord| t@),
        }
    }
}

/// True when some row of `auth` binds exactly this token to exactly this
/// workspace. The auth gate accepts a request precisely when this holds.
pub open spec fn spec_has_credential(
    auth: Seq<CredentialV>,
    workspace_id: Seq<char>,
    access_token: Seq<char>,
) -> bool {
    exists|i: int|
        0 <= i < auth.len() && auth[i].workspace_id == workspace_id && auth[i].access_token
            == access_token
}

/// A newly stored credential row validates for its own workspace and
/// token, whatever else the table holds.
pub proof fn lemma_stored_credential_accepted(auth: Seq<CredentialV>, row: CredentialV)
    ensures
        spec_has_credential(auth.push(row), row.workspace_id, row.access_token),
{
    assert(auth.push(row)[auth.len() as int] == row);
}

/// A credential authorizes exactly the workspace it was issued for:
/// appending a row bound to one workspace never makes a pair naming
/// any other workspace valid, even when the token string matches that
/// row's token exactly.
pub proof fn lemma_credential_workspace_bound(
    auth: Seq<CredentialV>,
    row: CredentialV,
    workspace_id: Seq<char>,
    access_token: Seq<char>,
)
    requires
        row.workspace_id != workspace_id,
    ensures
        spec_has_credential(auth.push(row), workspace_id, access_token) == spec_has_credential(
            auth,
            workspace_id,
            access_token,
        ),
{
    if spec_has_credential(auth.push(row), workspace_id, access_token) {
        let i = choose|i: int|
            0 <= i < auth.push(row).len() && auth.push(row)[i].workspace_id == workspace_id
                && auth.push(row)[i].access_token == access_token;
        assert(i < auth.len());
        assert(auth[i] == auth.push(row)[i]);
    }
    if spec_has_credential(auth, workspace_id, access_token) {
        let i = choose|i: int|
            0 <= i < auth.len() && auth[i].workspace_id == workspace_id && auth[i].access_token
                == access_token;
        assert(auth.push(row)[i] == auth[i]);
    }
}

/// The images of one workspace, in insertion order: the image table
/// restricted to the rows whose `workspace_id` is exactly
/// `workspace_id`.
pub open spec fn spec_workspace_images(
    images: Seq<ImageRecordV>,
    workspace_id: Seq<char>,
) -> Seq<ImageRecordV>
    decreases images.len(),
{
    if images.len() == 0 {
        Seq::empty()
    } else {
        let rest = spec_workspace_images(images.drop_last(), workspace_id);
        if images.last().workspace_id == workspace_id {
            rest.push(images.last())
        } else {
            rest
        }
    }
}

/// The tags of one workspace, in insertion order: the tag table
/// restricted to the rows whose `workspace_id` is exactly
/// `workspace_id`.
pub open spec fn spec_workspace_tags(
    tags: Seq<TagRecordV>,
    workspace_id: Seq<char>,
) -> Seq<TagRecordV>
    decreases tags.len(),
{
    if tags.len() == 0 {
        Seq::empty()
    } else {
        let rest = spec_workspace_tags(tags.drop_last(), workspace_id);
        if tags.last().workspace_id == workspace_id {
            rest.push(tags.last())
        } else {
            rest
        }
    }
}

/// Rows of other workspaces never influence a workspace's image
/// sequence: appending a row bound elsewhere leaves it unchanged, so
/// every query result is independent of what other workspaces hold.
pub proof fn lemma_foreign_image_row_ignored(
    images: Seq<ImageRecordV>,
    row: ImageRecordV,
    workspace_id: Seq<char>,
)
    requires
        row.workspace_id != workspace_id,
    ensures
        spec_workspace_images(images.push(row), workspace_id) == spec_workspace_images(
            images,
            workspace_id,
        ),
{
    assert(images.push(row).drop_last() =~= images);
    assert(images.push(row).last() == row);
}

/// Rows of other workspaces never influence a workspace's tag
/// sequence: appending a row bound elsewhere leaves it unchanged.
pub proof fn lemma_foreign_tag_row_ignored(
    tags: Seq<TagRecordV>,
    row: TagRecordV,
    workspace_id: Seq<char>,
)
    requires
        row.workspace_id != workspace_id,
    ensures
        spec_workspace_tags(tags.push(row), workspace_id) == spec_workspace_tags(
            tags,
            workspace_id,
        ),
{
    assert(tags.push(row).drop_last() =~= tags);
    assert(tags.push(row).last() == row);
}

impl Store {
    /// A store with all three tables empty.
    pub fn empty() -> (s: Store)
        ensures
            s@.auth == Seq::<CredentialV>::empty(),
            s@.images == Seq::<ImageRecordV>::empty(),
            s@.tags == Seq::<TagRecordV>::empty(),
    {
        let s = Store { auth: Vec::new(), images: Vec::new(), tags: Vec::new() };
        proof {
            assert(s@.auth =~= Seq::<CredentialV>::empty());
            assert(s@.images =~= Seq::<ImageRecordV>::empty());
            assert(s@.tags =~= Seq::<TagRecordV>::empty());
        }
        s
    }

    /// Appends one credential row; the other tables are untouched.
    pub fn insert_credential(&mut self, row: Credential)
        ensures
            final(self)@.auth == old(self)@.auth.push(row@),
            final(self)@.images == old(self)@.images,
            final(self)@.tags == old(self)@.tags,
    {
        self.auth.push(row);
        proof {
            assert(self@.auth =~= old(self)@.auth.push(row@));
        }
    }

    /// Appends one image row; the other tables are untouched.
    pub fn insert_image(&mut self, row: ImageRecord)
        ensures
            final(self)@.images == old(self)@.images.push(row@),
            final(self)@.auth == old(self)@.auth,
            final(self)@.tags == old(self)@.tags,
    {
        self.images.push(row);
        proof {
            assert(self@.images =~= old(self)@.images.push(row@));
        }
    }

    /// Appends one tag row; the other tables are untouched.
    pub fn insert_tag(&mut self, row: TagRecord)
        ensures
            final(self)@.tags == old(self)@.tags.push(row@),
            final(self)@.auth == old(self)@.auth,
            final(self)@.images == old(self)@.images,
    {
        self.tags.push(row);
        proof {
            assert(self@.tags =~= old(self)@.tags.push(row@));
        }
    }

    /// Looks a (workspace id, access token) pair up in the credential
    /// table: true exactly when some row holds both, character for
    /// character.
    pub fn has_credential(&self, workspace_id: &str, access_token: &str) -> (r: bool)
        ensures
            r == spec_has_credential(self@.auth, workspace_id@, access_token@),
    {
        let w: String = workspace_id.to_owned();
        let t: String = access_token.to_owned();
        let mut i: usize = 0;
        while i < self.auth.len()
            invariant
                i <= self.auth.len(),
                w@ == workspace_id@,
                t@ == access_token@,
                forall|j: int|
                    0 <= j < i ==> !(self@.auth[j].workspace_id == workspace_id@
                        && self@.auth[j].access_token == access_token@),
            decreases self.auth.len() - i,
        {
            let row = &self.auth[i];
            if row.workspace_id == w && row.access_token == t {
                proof {
                    assert(self@.auth[i as int].workspace_id == workspace_id@);
                    assert(self@.auth[i as int].access_token == access_token@);
                }
                return true;
            }
            i += 1;
        }
        false
    }
}

} // verus!
