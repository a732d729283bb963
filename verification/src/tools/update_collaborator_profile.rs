//! Replacing the collaborator's profile, with a dated backup of the one
//! that was there.

use vstd::prelude::*;
use vstd::string::*;
use vstd::utf8::encode_utf8;
use crate::constants::SPARKLE_DIR;
use crate::context_loader::{Location, PROFILE_FILE};
use crate::sparkle_loader::opt_str;
use crate::text::{decimal, decimal_text};
use crate::tools::{
    below_sparkle_dir, home_path_text, one_name, show_home_path, sparkle_path, two_names,
    utc_now, FileWrite, ToolError, ToolErrorKind, ToolReply, BACKUP_STAMP, NO_HOME_DIRECTORY,
};

verus! {

pub const NOT_SET_UP: &'static str =
    "Please run the sparkle tool first to initialize your Sparkle profile.";

/// What is reported where the backup cannot be made.
pub const BACKUP_FAILED: &'static str = "Failed to create backup";

/// What is reported where the profile cannot be written.
pub const PROFILE_SAVE_FAILED: &'static str = "Failed to write collaborator profile";

pub const PROFILE_UPDATED: &'static str =
    "\u{2728} Collaborator profile updated successfully!\n\n";

/// The new content of the collaborator's profile.
#[derive(Debug, Clone)]
pub struct UpdateCollaboratorProfileParams {
    pub content: String,
}

/// What the installation's directory holds before the profile is replaced.
#[derive(Debug, Clone, Copy, PartialEq, Eq, Structural)]
pub struct ProfileState {
    /// Whether the installation's directory exists.
    pub directory_exists: bool,
    /// Whether it holds a profile.
    pub profile_exists: bool,
}

/// What replacing the profile does.
#[derive(Debug, Clone)]
pub enum ProfileUpdate {
    /// Nothing: the installation is not set up, and the answer says so.
    NotSetUp { reply: ToolReply },
    /// The profile is written, after a copy of the old one where there is
    /// one.
    Write {
        /// Where the old profile is copied to, if there is one.
        backup: Option<Location>,
        /// The profile to write.
        file: FileWrite,
        /// The answer once the profile is written.
        message: String,
    },
}

/// The name of the backup made at the given time.
pub open spec fn backup_name(timestamp: Seq<char>) -> Seq<char> {
    "collaborator-profile."@ + timestamp + ".md"@
}

/// The line of the answer that names the backup, if one is made.
pub open spec fn backup_line(profile_exists: bool, timestamp: Seq<char>) -> Seq<char> {
    if profile_exists {
        "Backup created: "@ + home_path_text(seq![SPARKLE_DIR@, backup_name(timestamp)]) + "\n"@
    } else {
        Seq::empty()
    }
}

/// The answer to a profile that was replaced by `content`.
pub open spec fn profile_message(content: Seq<char>, profile_exists: bool, timestamp: Seq<char>) -> Seq<
    char,
> {
    PROFILE_UPDATED@ + backup_line(profile_exists, timestamp) + "\nFile: "@ + home_path_text(
        seq![SPARKLE_DIR@, PROFILE_FILE@],
    ) + "\nSize: "@ + decimal_text(encode_utf8(content).len()) + " bytes"@
}

/// Whether a result is that of replacing the profile at the given time. The
/// size in the answer is the number of bytes of the new content in UTF-8.
pub open spec fn is_profile_result(
    r: Result<ProfileUpdate, ToolError>,
    params: UpdateCollaboratorProfileParams,
    home_dir: Option<Seq<char>>,
    state: ProfileState,
    timestamp: Seq<char>,
) -> bool {
    match home_dir {
        None => r matches Err(e) && e.kind == ToolErrorKind::Internal && e.message@
            == NO_HOME_DIRECTORY@,
        Some(home) => if !state.directory_exists {
            r matches Ok(ProfileUpdate::NotSetUp { reply }) && reply.is_error && reply.text@
                == NOT_SET_UP@
        } else {
            r matches Ok(ProfileUpdate::Write { backup, file, message }) && {
                &&& match backup {
                    Some(to) => state.profile_exists && to@ == below_sparkle_dir(
                        home,
                        seq![backup_name(timestamp)],
                    ),
                    None => !state.profile_exists,
                }
                &&& file.path@ == below_sparkle_dir(home, seq![PROFILE_FILE@])
                &&& file.content@ == params.content@
                &&& message@ == profile_message(params.content@, state.profile_exists, timestamp)
            }
        },
    }
}

/// A path of one name below the installation's directory, as it is shown.
fn show_sparkle_file(name: &str) -> (r: String)
    ensures
        r@ == home_path_text(seq![SPARKLE_DIR@, name@]),
{
    show_home_path(&two_names(SPARKLE_DIR, name))
}

/// What replacing the profile at the given time does. The time is looked at
/// only where there is a profile to back up.
pub fn plan_profile_update(
    params: &UpdateCollaboratorProfileParams,
    home_dir: Option<&str>,
    state: ProfileState,
    timestamp: &str,
) -> (r: Result<ProfileUpdate, ToolError>)
    ensures
        is_profile_result(r, *params, opt_str(home_dir), state, timestamp@),
{
    let home = match home_dir {
        None => {
            return Err(
                ToolError { kind: ToolErrorKind::Internal, message: NO_HOME_DIRECTORY.to_owned() },
            );
        },
        Some(home) => home,
    };
    if !state.directory_exists {
        return Ok(
            ProfileUpdate::NotSetUp {
                reply: ToolReply { is_error: true, text: NOT_SET_UP.to_owned() },
            },
        );
    }
    let mut message = PROFILE_UPDATED.to_owned();
    let backup = if state.profile_exists {
        let mut name = "collaborator-profile.".to_owned();
        name.append(timestamp);
        name.append(".md");
        let shown = show_sparkle_file(name.as_str());
        message.append("Backup created: ");
        message.append(shown.as_str());
        message.append("\n");
        Some(sparkle_path(home, one_name(name.as_str())))
    } else {
        None
    };
    assert(message@ =~= PROFILE_UPDATED@ + backup_line(state.profile_exists, timestamp@));
    let shown = show_sparkle_file(PROFILE_FILE);
    let size = decimal(params.content.as_str().as_bytes().len());
    message.append("\nFile: ");
    message.append(shown.as_str());
    message.append("\nSize: ");
    message.append(size.as_str());
    message.append(" bytes");
    Ok(
        ProfileUpdate::Write {
            backup,
            file: FileWrite {
                path: sparkle_path(home, one_name(PROFILE_FILE)),
                content: params.content.clone(),
            },
            message,
        },
    )
}

/// What replacing the profile now does: the backup's name carries the
/// present time.
pub fn update_collaborator_profile(
    params: &UpdateCollaboratorProfileParams,
    home_dir: Option<&str>,
    state: ProfileState,
) -> (r: Result<ProfileUpdate, ToolError>)
    ensures
        exists|timestamp: Seq<char>|
            is_profile_result(r, *params, opt_str(home_dir), state, timestamp),
{
    let timestamp = if state.directory_exists && state.profile_exists {
        utc_now(BACKUP_STAMP)
    } else {
        String::new()
    };
    let r = plan_profile_update(params, home_dir, state, timestamp.as_str());
    assert(is_profile_result(r, *params, opt_str(home_dir), state, timestamp@));
    r
}

} // verus!
