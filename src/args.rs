use vstd::prelude::*;

verus! {

/// Command line arguments.
pub struct Args {
    /// Action subcommand.
    pub action: Action,
}

/// What command?
pub enum Action {
    Init(Init),
}

/// Initialize a backup repository, and run the first backup.
pub struct Init {
    /// What should the repository be named?
    pub name: String,
    /// What files should be backed up?
    pub path: String,
}

} // verus!
