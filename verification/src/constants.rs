//! Names of the directories and files that hold a persona's documents.

use vstd::prelude::*;

verus! {

/// The directory below the home directory that holds the configuration and
/// the documents.
pub const SPARKLE_DIR: &'static str = ".sparkle";

/// The directory below `SPARKLE_DIR` with one directory for each persona.
pub const SPARKLERS_DIR: &'static str = "sparklers";

/// The directory below a workspace that holds the workspace's state.
pub const WORKSPACE_DIR: &'static str = ".sparkle-space";

/// The name a persona has when the configuration gives none.
pub const FALLBACK_NAME: &'static str = "Sparkle";

} // verus!
