//! The process-wide configuration: the root directory fixed at
//! startup, and the one lock table every operation shares. Constructed
//! once and passed into the components that need it — no component
//! reaches into ambient global state.

use vstd::prelude::*;
use crate::lock_manager::DirectoryLockManager;

verus! {

/// What the whole service is configured with.
pub struct AppConfig {
    /// The absolute root directory every canonical path must lie
    /// under.
    pub root_dir: String,
    /// The shared per-path lock table.
    pub directory_lock_manager: DirectoryLockManager,
}

impl AppConfig {
    /// The startup configuration: the given root and an empty table.
    pub fn new(root_dir: String) -> (r: AppConfig)
        ensures
            r.root_dir@ == root_dir@,
            r.directory_lock_manager.wf(),
            r.directory_lock_manager@ == Map::<Seq<char>, crate::lock_manager::LockState>::empty(),
    {
        AppConfig { root_dir, directory_lock_manager: DirectoryLockManager::new() }
    }
}

} // verus!
