//! Renaming a persona: in the configuration, and its directory with it.

use vstd::prelude::*;
use vstd::string::*;
use crate::constants::{FALLBACK_NAME, SPARKLERS_DIR};
use crate::context_loader::{Location, LocationView};
use crate::embodiment::WORKING_MEMORY_FILE;
use crate::sparkle_loader::opt_str;
use crate::text::{texts, trim, trimmed};
use crate::tools::setup_sparkle::CONFIG_FILE;
use crate::tools::{
    below_sparkle_dir, one_name, sparkle_path, two_names, ToolError, ToolErrorKind,
    NO_HOME_DIRECTORY,
};
use crate::types::{
    copy_personas, find_flagged, find_named, first_flagged, first_named,
    lemma_named_is_found, opt_text, persona_views, AiConfig,
    Config, ConfigView, HumanConfig, SparklerConfig, SparklerView,
};

verus! {

pub const EMPTY_NAME: &'static str = "Character name cannot be empty";

pub const NO_DEFAULT: &'static str = "No default sparkler found";

/// What starts the report of a directory that could not be renamed.
pub const RENAME_DIR_FAILED: &'static str = "Failed to rename sparkler directory: ";

/// What starts the report of a configuration that could not be written out.
pub const SERIALIZE_FAILED: &'static str = "Failed to serialize config: ";

/// What starts the report of a configuration that could not be written.
pub const CONFIG_SAVE_FAILED: &'static str = "Failed to write config: ";

pub const WORKING_MEMORY_WARNING: &'static str =
    "\u{26a0}\u{fe0f}  Active working memory detected - consider creating a checkpoint before renaming";

pub const RENAMED_TAIL: &'static str =
    "The change will take effect on your next embodiment. Your Sparkle framework and all patterns remain the same - only your character name has changed.";

/// A persona's new name, and the persona to rename where several are
/// configured; without the latter the one flagged as default is renamed.
#[derive(Debug, Clone)]
pub struct RenameSparklerParams {
    pub new_name: String,
    pub old_name: Option<String>,
}

/// The directory that moves with a persona's name.
#[derive(Debug, Clone)]
pub struct DirectoryRename {
    pub from: Location,
    pub to: Location,
    /// The working memory that the directory may hold.
    pub working_memory: Location,
}

/// What renaming a persona does.
#[derive(Debug, Clone)]
pub struct RenamePlan {
    /// The configuration to write.
    pub config: Config,
    /// Where the configuration is written.
    pub config_path: Location,
    pub old_name: String,
    pub new_name: String,
    /// The directory to rename if it exists, where each persona has its own.
    pub directories: Option<DirectoryRename>,
}

/// Why a request to rename is refused.
pub enum RenameRefusal {
    EmptyName,
    NoHome,
    NotFound { name: Seq<char> },
    NoDefault,
    Taken { name: Seq<char> },
}

/// The failure that reports a refusal.
pub open spec fn refusal_kind(refusal: RenameRefusal) -> ToolErrorKind {
    match refusal {
        RenameRefusal::EmptyName => ToolErrorKind::InvalidParams,
        RenameRefusal::NoHome => ToolErrorKind::Internal,
        RenameRefusal::NotFound { .. } => ToolErrorKind::InvalidParams,
        RenameRefusal::NoDefault => ToolErrorKind::Internal,
        RenameRefusal::Taken { .. } => ToolErrorKind::InvalidParams,
    }
}

/// The text that reports a refusal.
pub open spec fn refusal_text(refusal: RenameRefusal) -> Seq<char> {
    match refusal {
        RenameRefusal::EmptyName => EMPTY_NAME@,
        RenameRefusal::NoHome => NO_HOME_DIRECTORY@,
        RenameRefusal::NotFound { name } => "Sparkler '"@ + name + "' not found"@,
        RenameRefusal::NoDefault => NO_DEFAULT@,
        RenameRefusal::Taken { name } => "A sparkler named '"@ + name + "' already exists"@,
    }
}

/// The name of the persona to rename among several: the one asked for, which
/// must be listed, or the first one flagged as default.
pub open spec fn rename_target(list: Seq<SparklerConfig>, old_name: Option<Seq<char>>) -> Result<
    Seq<char>,
    RenameRefusal,
> {
    match old_name {
        Some(name) => if first_named(list, name) is Some {
            Ok(name)
        } else {
            Err(RenameRefusal::NotFound { name })
        },
        None => match first_flagged(list) {
            Some(i) => Ok(list[i].name@),
            None => Err(RenameRefusal::NoDefault),
        },
    }
}

/// The personas with the first one of the name `old` renamed to `new`.
pub open spec fn renamed_personas(list: Seq<SparklerConfig>, old: Seq<char>, new: Seq<char>) -> Seq<
    SparklerView,
> {
    match first_named(list, old) {
        Some(i) => persona_views(list).update(
            i,
            SparklerView { name: new, default: list[i].default },
        ),
        None => persona_views(list),
    }
}

/// The model of a plan.
pub struct RenamePlanView {
    pub config: ConfigView,
    pub config_path: LocationView,
    pub old_name: Seq<char>,
    pub new_name: Seq<char>,
    pub directories: Option<(LocationView, LocationView, LocationView)>,
}

impl View for RenamePlan {
    type V = RenamePlanView;

    open spec fn view(&self) -> RenamePlanView {
        RenamePlanView {
            config: self.config@,
            config_path: self.config_path@,
            old_name: self.old_name@,
            new_name: self.new_name@,
            directories: match self.directories {
                Some(d) => Some((d.from@, d.to@, d.working_memory@)),
                None => None,
            },
        }
    }
}

/// What renaming a persona to `new` does, or why it is refused. A name that
/// another persona has is refused; the persona's own name is not.
pub open spec fn rename_plan(config: Config, old_name: Option<Seq<char>>, new: Seq<char>, home: Seq<
    char,
>) -> Result<RenamePlanView, RenameRefusal> {
    match config.sparklers {
        Some(list) => match rename_target(list@, old_name) {
            Err(refusal) => Err(refusal),
            Ok(old) => if new != old && first_named(list@, new) is Some {
                Err(RenameRefusal::Taken { name: new })
            } else {
                Ok(
                    RenamePlanView {
                        config: ConfigView {
                            sparklers: Some(renamed_personas(list@, old, new)),
                            ..config@
                        },
                        config_path: below_sparkle_dir(home, seq![CONFIG_FILE@]),
                        old_name: old,
                        new_name: new,
                        directories: Some(
                            (
                                below_sparkle_dir(home, seq![SPARKLERS_DIR@, old]),
                                below_sparkle_dir(home, seq![SPARKLERS_DIR@, new]),
                                below_sparkle_dir(
                                    home,
                                    seq![SPARKLERS_DIR@, old, WORKING_MEMORY_FILE@],
                                ),
                            ),
                        ),
                    },
                )
            },
        },
        None => Ok(
            RenamePlanView {
                config: ConfigView {
                    ai: match config.single_name() {
                        Some(_) => Some(new),
                        None => None,
                    },
                    ..config@
                },
                config_path: below_sparkle_dir(home, seq![CONFIG_FILE@]),
                old_name: match config.single_name() {
                    Some(name) => name,
                    None => FALLBACK_NAME@,
                },
                new_name: new,
                directories: None,
            },
        ),
    }
}

/// What a request to rename does, or why it is refused: the new name is
/// taken without the white space around it and must not be empty, and the
/// home directory must be known.
pub open spec fn rename_outcome(config: Config, params: RenameSparklerParams, home_dir: Option<
    Seq<char>,
>) -> Result<RenamePlanView, RenameRefusal> {
    if trimmed(params.new_name@).len() == 0 {
        Err(RenameRefusal::EmptyName)
    } else {
        match home_dir {
            None => Err(RenameRefusal::NoHome),
            Some(home) => rename_plan(
                config,
                opt_text(params.old_name),
                trimmed(params.new_name@),
                home,
            ),
        }
    }
}

/// A failure of the given kind and text.
fn refuse(kind: ToolErrorKind, message: String) -> (r: Result<RenamePlan, ToolError>)
    ensures
        r matches Err(e) && e.kind == kind && e.message == message,
{
    Err(ToolError { kind, message })
}

/// What renaming a persona does, or why it is refused.
pub fn rename_sparkler(config: &Config, params: &RenameSparklerParams, home_dir: Option<&str>) -> (r:
    Result<RenamePlan, ToolError>)
    ensures
        match rename_outcome(*config, *params, opt_str(home_dir)) {
            Ok(plan) => r matches Ok(p) && p@ == plan,
            Err(refusal) => r matches Err(e) && e.kind == refusal_kind(refusal) && e.message@
                == refusal_text(refusal),
        },
{
    let new_name = trim(params.new_name.as_str());
    if new_name.as_str().is_empty() {
        return refuse(ToolErrorKind::InvalidParams, EMPTY_NAME.to_owned());
    }
    let home = match home_dir {
        None => {
            return refuse(ToolErrorKind::Internal, NO_HOME_DIRECTORY.to_owned());
        },
        Some(home) => home,
    };
    let config_path = sparkle_path(home, one_name(CONFIG_FILE));
    let human = HumanConfig { name: config.human.name.clone() };

    match &config.sparklers {
        Some(list) => {
            let target = match &params.old_name {
                Some(old) => match find_named(list, old.as_str()) {
                    Some(i) => i,
                    None => {
                        let mut message = "Sparkler '".to_owned();
                        message.append(old.as_str());
                        message.append("' not found");
                        return refuse(ToolErrorKind::InvalidParams, message);
                    },
                },
                None => match find_flagged(list) {
                    Some(i) => i,
                    None => {
                        return refuse(ToolErrorKind::Internal, NO_DEFAULT.to_owned());
                    },
                },
            };
            let old_name = list[target].name.clone();
            assert(rename_target(list@, opt_text(params.old_name)) == Ok::<
                Seq<char>,
                RenameRefusal,
            >(old_name@));
            if !crate::text::same_text(new_name.as_str(), old_name.as_str()) {
                match find_named(list, new_name.as_str()) {
                    Some(_) => {
                        let mut message = "A sparkler named '".to_owned();
                        message.append(new_name.as_str());
                        message.append("' already exists");
                        return refuse(ToolErrorKind::InvalidParams, message);
                    },
                    None => {},
                }
            }
            let mut personas = copy_personas(list);
            proof {
                lemma_named_is_found(list@, old_name@, target as int);
            }
            let first = match find_named(list, old_name.as_str()) {
                Some(i) => i,
                None => target,
            };
            let ghost before = personas@;
            assert(persona_views(before).len() == list.len());
            assert(before.len() == persona_views(before).len());
            personas.set(
                first,
                SparklerConfig { name: new_name.clone(), default: list[first].default },
            );
            assert(persona_views(personas@) =~= renamed_personas(list@, old_name@, new_name@)) by {
                assert forall|j: int| 0 <= j < list.len() && j != first implies personas@[j]@
                    == persona_views(list@)[j] by {
                    assert(persona_views(before)[j] == before[j]@);
                }
            }
            let directories = DirectoryRename {
                from: sparkle_path(home, two_names(SPARKLERS_DIR, old_name.as_str())),
                to: sparkle_path(home, two_names(SPARKLERS_DIR, new_name.as_str())),
                working_memory: {
                    let mut names = two_names(SPARKLERS_DIR, old_name.as_str());
                    let ghost two = names@;
                    names.push(WORKING_MEMORY_FILE.to_owned());
                    assert(texts(names@) =~= seq![
                        SPARKLERS_DIR@,
                        old_name@,
                        WORKING_MEMORY_FILE@,
                    ]) by {
                        assert(texts(two)[0] == two[0]@);
                        assert(texts(two)[1] == two[1]@);
                    }
                    sparkle_path(home, names)
                },
            };
            Ok(
                RenamePlan {
                    config: Config {
                        human,
                        ai: match &config.ai {
                            Some(ai) => Some(AiConfig { name: ai.name.clone() }),
                            None => None,
                        },
                        sparklers: Some(personas),
                    },
                    config_path,
                    old_name,
                    new_name,
                    directories: Some(directories),
                },
            )
        },
        None => {
            let old_name = match config.get_single_sparkler_name() {
                Some(name) => name,
                None => FALLBACK_NAME.to_owned(),
            };
            Ok(
                RenamePlan {
                    config: Config {
                        human,
                        ai: match &config.ai {
                            Some(_) => Some(AiConfig { name: new_name.clone() }),
                            None => None,
                        },
                        sparklers: None,
                    },
                    config_path,
                    old_name,
                    new_name,
                    directories: None,
                },
            )
        },
    }
}

/// What the answer says of the working memory and of the directory.
pub open spec fn rename_notes(
    old_name: Seq<char>,
    new_name: Seq<char>,
    working_memory_found: bool,
    directory_renamed: bool,
) -> Seq<char> {
    let warning = WORKING_MEMORY_WARNING@;
    let moved = "\u{1f4c1} Renamed directory: sparklers/"@ + old_name + " \u{2192} sparklers/"@
        + new_name;
    if working_memory_found && directory_renamed {
        warning + "\n"@ + moved + "\n\n"@
    } else if working_memory_found {
        warning + "\n\n"@
    } else if directory_renamed {
        moved + "\n\n"@
    } else {
        Seq::empty()
    }
}

/// The answer to a persona that was renamed.
pub open spec fn rename_response_text(
    old_name: Seq<char>,
    new_name: Seq<char>,
    working_memory_found: bool,
    directory_renamed: bool,
) -> Seq<char> {
    "\u{2728} Sparkler renamed!\n\nPrevious name: "@ + old_name + "\nNew name: "@ + new_name
        + "\n\n"@ + rename_notes(old_name, new_name, working_memory_found, directory_renamed)
        + RENAMED_TAIL@
}

/// The answer to a persona that was renamed. It warns of working memory
/// that was found in the persona's directory, and says so if the directory
/// was renamed.
pub fn rename_response(
    old_name: &str,
    new_name: &str,
    working_memory_found: bool,
    directory_renamed: bool,
) -> (r: String)
    ensures
        r@ == rename_response_text(
            old_name@,
            new_name@,
            working_memory_found,
            directory_renamed,
        ),
{
    let mut response = "\u{2728} Sparkler renamed!\n\nPrevious name: ".to_owned();
    response.append(old_name);
    response.append("\nNew name: ");
    response.append(new_name);
    response.append("\n\n");
    let ghost head = response@;
    if working_memory_found {
        response.append(WORKING_MEMORY_WARNING);
        if directory_renamed {
            response.append("\n");
        }
    }
    if directory_renamed {
        response.append("\u{1f4c1} Renamed directory: sparklers/");
        response.append(old_name);
        response.append(" \u{2192} sparklers/");
        response.append(new_name);
    }
    if working_memory_found || directory_renamed {
        response.append("\n\n");
    }
    assert(response@ =~= head + rename_notes(
        old_name@,
        new_name@,
        working_memory_found,
        directory_renamed,
    ));
    response.append(RENAMED_TAIL);
    response
}

} // verus!
