//! Setting up a new installation: its directory, a configuration, a
//! profile to fill in and the starter documents.

use vstd::prelude::*;
use vstd::string::*;
use crate::constants::SPARKLE_DIR;
use crate::context_loader::{
    file_views, Location, LocationView, StarterFile, ANCHORS_FILE,
    COLLABORATION_EVOLUTION_STARTER, EVOLUTION_FILE, PATTERN_ANCHORS_STARTER, PROFILE_FILE,
};
use crate::sparkle_loader::opt_str;
use crate::text::texts;
use crate::tools::{ToolError, ToolErrorKind, NO_HOME_DIRECTORY};

verus! {

/// The name of the configuration.
pub const CONFIG_FILE: &'static str = "config.toml";

/// What stands in a new profile between its heading and the second place of
/// the human's name.
pub const PROFILE_BODY: &'static str =
    " - Collaborator Profile\n\n**What this file covers:** Everything needed to collaborate effectively with ";

/// What stands in a new profile after the second place of the human's name.
pub const PROFILE_TAIL: &'static str =
    " - who they are, their expertise, working style, and collaboration protocols.\n\n---\n\n## Professional Background & Expertise\n\n[Add your professional background, technical expertise, and career highlights]\n\n## Working Style & Collaboration Patterns\n\n[Add your working style, communication preferences, and collaboration patterns]\n\n## Collaboration Protocols\n\n[Add any specific protocols or guidelines for working together]\n";

/// What starts the report of a configuration that could not be written.
pub const CONFIG_WRITE_FAILED: &'static str = "Failed to create config.toml: ";

/// What starts the report of a profile that could not be written.
pub const PROFILE_WRITE_FAILED: &'static str = "Failed to create collaborator-profile.md: ";

/// What starts the report of starter documents that could not be written.
pub const STARTER_FILES_FAILED: &'static str = "Failed to create starter files: ";

/// The name of the human to set the installation up for.
#[derive(Debug, Clone)]
pub struct SetupSparkleParams {
    pub name: String,
}

/// What starts the report of an installation's directory that could not be
/// created.
pub open spec fn directory_failed() -> Seq<char> {
    "Failed to create "@ + SPARKLE_DIR@ + ": "@
}

/// What starts the report of an installation's directory that could not be
/// created.
pub fn directory_failed_text() -> (r: String)
    ensures
        r@ == directory_failed(),
{
    let mut out = "Failed to create ".to_owned();
    out.append(SPARKLE_DIR);
    out.append(": ");
    out
}

/// The configuration of a new installation, for a human of the given name.
pub open spec fn new_config_text(name: Seq<char>) -> Seq<char> {
    "[human]\nname = \""@ + name + "\"\n\n[ai]\nname = \"Sparkle\"\n"@
}

/// The profile of a new installation, for a human of the given name.
pub open spec fn new_profile_text(name: Seq<char>) -> Seq<char> {
    "# "@ + name + PROFILE_BODY@ + name + PROFILE_TAIL@
}

/// The documents of a new installation, in the order in which they are
/// written.
pub open spec fn setup_files(name: Seq<char>) -> Seq<(Seq<char>, Seq<char>)> {
    seq![
        (CONFIG_FILE@, new_config_text(name)),
        (PROFILE_FILE@, new_profile_text(name)),
        (EVOLUTION_FILE@, COLLABORATION_EVOLUTION_STARTER@),
        (ANCHORS_FILE@, PATTERN_ANCHORS_STARTER@),
    ]
}

/// The answer to a finished setup.
pub open spec fn setup_message(name: Seq<char>) -> Seq<char> {
    "Created ~/"@ + SPARKLE_DIR@ + "/ with profile for "@ + name
        + ". Now use the sparkle tool to complete embodiment."@
}

/// What a setup does.
#[derive(Debug, Clone)]
pub struct SetupPlan {
    /// The directory to create first, with those above it.
    pub directory: Location,
    /// The documents to write into it, in order.
    pub files: Vec<StarterFile>,
    /// The answer once all is written.
    pub message: String,
}

/// What setting up an installation for a human of the given name does.
pub fn setup_sparkle(params: &SetupSparkleParams, home_dir: Option<&str>) -> (r: Result<
    SetupPlan,
    ToolError,
>)
    ensures
        match opt_str(home_dir) {
            None => r matches Err(e) && e.kind == ToolErrorKind::Internal && e.message@
                == NO_HOME_DIRECTORY@,
            Some(home) => r matches Ok(plan) && {
                &&& plan.directory@ == (LocationView { base: home, segments: seq![SPARKLE_DIR@] })
                &&& file_views(plan.files@) == setup_files(params.name@)
                &&& plan.message@ == setup_message(params.name@)
            },
        },
{
    let home = match home_dir {
        None => {
            return Err(
                ToolError { kind: ToolErrorKind::Internal, message: NO_HOME_DIRECTORY.to_owned() },
            );
        },
        Some(home) => home,
    };
    let name = params.name.as_str();
    let mut names: Vec<String> = Vec::new();
    names.push(SPARKLE_DIR.to_owned());
    assert(texts(names@) =~= seq![SPARKLE_DIR@]);

    let mut config = "[human]\nname = \"".to_owned();
    config.append(name);
    config.append("\"\n\n[ai]\nname = \"Sparkle\"\n");

    let mut profile = "# ".to_owned();
    profile.append(name);
    profile.append(PROFILE_BODY);
    profile.append(name);
    profile.append(PROFILE_TAIL);

    let mut files: Vec<StarterFile> = Vec::new();
    files.push(StarterFile { name: CONFIG_FILE.to_owned(), content: config });
    files.push(StarterFile { name: PROFILE_FILE.to_owned(), content: profile });
    files.push(
        StarterFile {
            name: EVOLUTION_FILE.to_owned(),
            content: COLLABORATION_EVOLUTION_STARTER.to_owned(),
        },
    );
    files.push(
        StarterFile { name: ANCHORS_FILE.to_owned(), content: PATTERN_ANCHORS_STARTER.to_owned() },
    );
    assert(file_views(files@) =~= setup_files(params.name@));

    let mut message = "Created ~/".to_owned();
    message.append(SPARKLE_DIR);
    message.append("/ with profile for ");
    message.append(name);
    message.append(". Now use the sparkle tool to complete embodiment.");
    Ok(SetupPlan { directory: Location { base: home.to_owned(), segments: names }, files, message })
}

} // verus!
