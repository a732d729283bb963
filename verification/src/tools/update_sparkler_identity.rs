//! Replacing a persona's identity document.

use vstd::prelude::*;
use vstd::string::*;
use crate::context_loader::{
    context_dir, context_error_text, get_context_dir, ContextDir, IDENTITY_FILE,
};
use crate::sparkle_loader::opt_str;
use crate::text::{trim, trimmed};
use crate::tools::{ToolError, ToolErrorKind};
use crate::types::Config;

verus! {

/// What starts the report of a directory that could not be determined.
pub const IDENTITY_DIR_FAILED: &'static str = "Failed to get context directory: ";

/// What starts the report of an identity document that could not be written.
pub const IDENTITY_WRITE_FAILED: &'static str = "Failed to write sparkler-identity.md: ";

pub const IDENTITY_UPDATED: &'static str =
    "\u{2728} Updated sparkler-identity.md\n\nRemember: Keep this concise - a definition, not a narrative.";

/// The new content of a persona's identity document.
#[derive(Debug, Clone)]
pub struct UpdateSparklerIdentityParams {
    pub content: String,
}

/// What replacing an identity document does.
#[derive(Debug, Clone)]
pub struct IdentityUpdate {
    /// The persona's directory.
    pub directory: ContextDir,
    /// The name of the document.
    pub file_name: String,
    /// The document's new content.
    pub content: String,
    /// The answer once the document is written.
    pub message: String,
}

/// What replacing the identity document of a persona does: the document gets
/// the new content without the white space around it.
pub fn update_sparkler_identity(
    config: &Config,
    params: &UpdateSparklerIdentityParams,
    sparkler: Option<&str>,
    home_dir: Option<&str>,
) -> (r: Result<IdentityUpdate, ToolError>)
    ensures
        match context_dir(*config, opt_str(sparkler), opt_str(home_dir)) {
            Ok(dir) => r matches Ok(update) && {
                &&& update.directory@ == dir
                &&& update.file_name@ == IDENTITY_FILE@
                &&& update.content@ == trimmed(params.content@)
                &&& update.message@ == IDENTITY_UPDATED@
            },
            Err(cause) => r matches Err(e) && e.kind == ToolErrorKind::Internal && e.message@
                == IDENTITY_DIR_FAILED@ + context_error_text(cause),
        },
{
    match get_context_dir(config, sparkler, home_dir) {
        Ok(directory) => Ok(
            IdentityUpdate {
                directory,
                file_name: IDENTITY_FILE.to_owned(),
                content: trim(params.content.as_str()),
                message: IDENTITY_UPDATED.to_owned(),
            },
        ),
        Err(cause) => {
            let mut message = IDENTITY_DIR_FAILED.to_owned();
            let text = cause.message();
            message.append(text.as_str());
            Err(ToolError { kind: ToolErrorKind::Internal, message })
        },
    }
}

} // verus!
