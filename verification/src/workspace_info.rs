//! The static description of one workspace: where it lives on disk, its
//! opaque id and its display name.

use vstd::prelude::*;

verus! {

/// One entry of the workspace registry. Loaded once at startup from the
/// configuration source, immutable thereafter.
pub struct WorkspaceInfo {
    pub path: String,
    pub workspace_id: String,
    pub name: String,
}

/// The mathematical value of a `WorkspaceInfo`.
#[verifier::ext_equal]
pub ghost struct WorkspaceInfoV {
    pub path: Seq<char>,
    pub workspace_id: Seq<char>,
    pub name: Seq<char>,
}

impl View for WorkspaceInfo {
    type V = WorkspaceInfoV;

    open spec fn view(&self) -> WorkspaceInfoV {
        WorkspaceInfoV {
            path: self.path@,
            workspace_id: self.workspace_id@,
            name: self.name@,
        }
    }
}

} // verus!
