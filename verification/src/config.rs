//! The workspace registry: the static list of known workspaces.

use vstd::prelude::*;
use crate::workspace_info::{WorkspaceInfo, WorkspaceInfoV};

verus! {

/// The configuration the process is started with: every known workspace.
/// Reading and decoding the configuration file is the caller's concern;
/// the library only consumes the list.
pub struct Config {
    pub workspace_list: Vec<WorkspaceInfo>,
}

impl View for Config {
    type V = Seq<WorkspaceInfoV>;

    open spec fn view(&self) -> Seq<WorkspaceInfoV> {
        self.workspace_list@.map_values(|w: WorkspaceInfo| w@)
    }
}

} // verus!
