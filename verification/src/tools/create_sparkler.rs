//! Creating a persona: a directory with starter documents and an entry in
//! the configuration. The first persona that is added turns a configuration
//! of one persona into a list of personas.

use vstd::prelude::*;
use vstd::string::*;
use crate::constants::{FALLBACK_NAME, SPARKLERS_DIR};
use crate::context_loader::{
    create_starter_files, file_views, starter_files, Location, StarterFile, ANCHORS_FILE,
    EVOLUTION_FILE,
};
use crate::sparkle_loader::opt_str;
use crate::text::{join, joined, texts, trim, trimmed};
use crate::tools::setup_sparkle::CONFIG_FILE;
use crate::tools::{
    below_sparkle_dir, one_name, sparkle_path, two_names, ToolError, ToolErrorKind,
    NO_HOME_DIRECTORY,
};
use crate::types::{
    copy_personas, find_named, persona_views, AiConfig, Config, ConfigView, HumanConfig,
    SparklerConfig, SparklerView,
};

verus! {

pub const EMPTY_SPARKLER_NAME: &'static str = "Sparkler name cannot be empty";

pub const MIGRATING: &'static str = "\u{1f504} Migrating to multi-sparkler setup...";

/// The name of a document that older installations hold.
pub const CONTEXT_FILE: &'static str = "collaboration-context.md";

/// What starts the report of the directory of personas that could not be
/// created.
pub const SPARKLERS_DIR_FAILED: &'static str = "Failed to create sparklers directory: ";

/// What starts the report of a persona's directory that could not be created.
pub const NEW_DIR_FAILED: &'static str = "Failed to create sparkler directory: ";

/// The name of the persona to create.
#[derive(Debug, Clone)]
pub struct CreateSparklerParams {
    pub name: String,
}

/// What turns a configuration of one persona into a list: the persona gets a
/// directory of its own, and its documents move there.
#[derive(Debug, Clone)]
pub struct Migration {
    /// The name of the persona that was the only one.
    pub current_name: String,
    /// The directory of personas, to create.
    pub sparklers_dir: Location,
    /// The persona's directory, to create.
    pub directory: Location,
    /// The names of the documents that move from the installation's directory
    /// into the persona's, each one if it exists.
    pub moves: Vec<String>,
}

/// What adds the new persona.
#[derive(Debug, Clone)]
pub struct Creation {
    /// The persona's directory, to create.
    pub directory: Location,
    /// The documents to write into it, in order.
    pub files: Vec<StarterFile>,
    /// The configuration to write.
    pub config: Config,
    /// Where the configuration is written.
    pub config_path: Location,
    /// The answer once all is written.
    pub message: String,
}

/// What creating a persona does: the migration first, where one is due, then
/// the creation, unless the name is taken.
#[derive(Debug)]
pub struct CreatePlan {
    pub migration: Option<Migration>,
    pub outcome: Result<Creation, ToolError>,
}

/// The name of the only persona of a configuration.
pub open spec fn current_name(config: Config) -> Seq<char> {
    match config.single_name() {
        Some(name) => name,
        None => FALLBACK_NAME@,
    }
}

/// The documents that move into the directory of the persona that was the
/// only one.
pub open spec fn moved_files() -> Seq<Seq<char>> {
    seq![CONTEXT_FILE@, EVOLUTION_FILE@, ANCHORS_FILE@]
}

/// The personas before the new one is added: those listed, or the only one
/// as the default.
pub open spec fn personas_before(config: Config) -> Seq<SparklerView> {
    match config.sparklers {
        Some(list) => persona_views(list@),
        None => seq![SparklerView { name: current_name(config), default: true }],
    }
}

/// Whether a persona of the given name is among the given ones.
pub open spec fn is_taken(personas: Seq<SparklerView>, name: Seq<char>) -> bool {
    exists|i: int| 0 <= i < personas.len() && personas[i].name == name
}

/// The configuration with the new persona added.
pub open spec fn config_with(config: Config, name: Seq<char>) -> ConfigView {
    ConfigView {
        human: config.human.name@,
        ai: if config.multi() {
            config.single_name()
        } else {
            None
        },
        sparklers: Some(personas_before(config).push(SparklerView { name, default: false })),
    }
}

/// The lines of the answer.
pub open spec fn creation_lines(config: Config, name: Seq<char>) -> Seq<Seq<char>> {
    let created = seq![
        "\u{2728} Created "@ + name + "!"@,
        "Use embody_sparkle(sparkler='"@ + name + "') to activate."@,
    ];
    if config.multi() {
        created
    } else {
        seq![
            MIGRATING@,
            "\u{2705} Moved "@ + current_name(config) + " to sparklers/ (default)"@,
        ] + created
    }
}

/// Whether a migration is the one that a configuration of one persona needs.
pub open spec fn is_migration(m: Migration, config: Config, home: Seq<char>) -> bool {
    &&& m.current_name@ == current_name(config)
    &&& m.sparklers_dir@ == below_sparkle_dir(home, seq![SPARKLERS_DIR@])
    &&& m.directory@ == below_sparkle_dir(home, seq![SPARKLERS_DIR@, current_name(config)])
    &&& texts(m.moves@) == moved_files()
}

/// Whether a creation is that of a persona of the given name.
pub open spec fn is_creation(c: Creation, config: Config, name: Seq<char>, home: Seq<char>) -> bool {
    &&& c.directory@ == below_sparkle_dir(home, seq![SPARKLERS_DIR@, name])
    &&& file_views(c.files@) == starter_files(name)
    &&& c.config@ == config_with(config, name)
    &&& c.config_path@ == below_sparkle_dir(home, seq![CONFIG_FILE@])
    &&& c.message@ == joined(creation_lines(config, name), "\n"@)
}

/// Whether a plan is that of creating a persona of the given name.
pub open spec fn is_create_plan(plan: CreatePlan, config: Config, name: Seq<char>, home: Seq<char>) -> bool {
    &&& plan.migration is Some <==> !config.multi()
    &&& plan.migration matches Some(m) ==> is_migration(m, config, home)
    &&& if is_taken(personas_before(config), name) {
        plan.outcome matches Err(e) && e.kind == ToolErrorKind::InvalidParams && e.message@
            == "Sparkler '"@ + name + "' already exists"@
    } else {
        plan.outcome matches Ok(c) && is_creation(c, config, name, home)
    }
}

/// What creating a persona does. The name is taken without the white space
/// around it; an empty name is refused, and so is a request where the home
/// directory is not known.
pub fn create_sparkler(config: &Config, params: &CreateSparklerParams, home_dir: Option<&str>) -> (r:
    Result<CreatePlan, ToolError>)
    ensures
        if trimmed(params.name@).len() == 0 {
            r matches Err(e) && e.kind == ToolErrorKind::InvalidParams && e.message@
                == EMPTY_SPARKLER_NAME@
        } else {
            match opt_str(home_dir) {
                None => r matches Err(e) && e.kind == ToolErrorKind::Internal && e.message@
                    == NO_HOME_DIRECTORY@,
                Some(home) => r matches Ok(plan) && is_create_plan(
                    plan,
                    *config,
                    trimmed(params.name@),
                    home,
                ),
            }
        },
{
    let name = trim(params.name.as_str());
    if name.as_str().is_empty() {
        return Err(
            ToolError { kind: ToolErrorKind::InvalidParams, message: EMPTY_SPARKLER_NAME.to_owned() },
        );
    }
    let home = match home_dir {
        None => {
            return Err(
                ToolError { kind: ToolErrorKind::Internal, message: NO_HOME_DIRECTORY.to_owned() },
            );
        },
        Some(home) => home,
    };
    let mut lines: Vec<String> = Vec::new();
    let (migration, mut personas, ai) = match &config.sparklers {
        Some(list) => {
            let ai = match &config.ai {
                Some(ai) => Some(AiConfig { name: ai.name.clone() }),
                None => None,
            };
            (None, copy_personas(list), ai)
        },
        None => {
            let current = match config.get_single_sparkler_name() {
                Some(current) => current,
                None => FALLBACK_NAME.to_owned(),
            };
            lines.push(MIGRATING.to_owned());
            let mut moved = "\u{2705} Moved ".to_owned();
            moved.append(current.as_str());
            moved.append(" to sparklers/ (default)");
            lines.push(moved);
            let mut moves: Vec<String> = Vec::new();
            moves.push(CONTEXT_FILE.to_owned());
            moves.push(EVOLUTION_FILE.to_owned());
            moves.push(ANCHORS_FILE.to_owned());
            assert(texts(moves@) =~= moved_files());
            let mut personas: Vec<SparklerConfig> = Vec::new();
            personas.push(SparklerConfig { name: current.clone(), default: true });
            assert(persona_views(personas@) =~= personas_before(*config));
            (
                Some(
                    Migration {
                        current_name: current.clone(),
                        sparklers_dir: sparkle_path(home, one_name(SPARKLERS_DIR)),
                        directory: sparkle_path(home, two_names(SPARKLERS_DIR, current.as_str())),
                        moves,
                    },
                ),
                personas,
                None,
            )
        },
    };
    assert(persona_views(personas@) == personas_before(*config));
    let ghost before_lines = texts(lines@);
    assert(before_lines =~= if config.multi() {
        Seq::<Seq<char>>::empty()
    } else {
        seq![MIGRATING@, "\u{2705} Moved "@ + current_name(*config) + " to sparklers/ (default)"@]
    });

    match find_named(&personas, name.as_str()) {
        Some(i) => {
            proof {
                assert(persona_views(personas@)[i as int].name == name@);
            }
            let mut message = "Sparkler '".to_owned();
            message.append(name.as_str());
            message.append("' already exists");
            return Ok(
                CreatePlan {
                    migration,
                    outcome: Err(ToolError { kind: ToolErrorKind::InvalidParams, message }),
                },
            );
        },
        None => {
            proof {
                if is_taken(persona_views(personas@), name@) {
                    let k = choose|k: int|
                        0 <= k < persona_views(personas@).len() && persona_views(
                            personas@,
                        )[k].name == name@;
                    crate::types::lemma_named_is_found(personas@, name@, k);
                }
            }
        },
    }
    let ghost listed = personas@;
    personas.push(SparklerConfig { name: name.clone(), default: false });
    assert(persona_views(personas@) =~= persona_views(listed).push(
        SparklerView { name: name@, default: false },
    ));

    let mut created = "\u{2728} Created ".to_owned();
    created.append(name.as_str());
    created.append("!");
    let ghost lines_a = lines@;
    lines.push(created);
    let mut activate = "Use embody_sparkle(sparkler='".to_owned();
    activate.append(name.as_str());
    activate.append("') to activate.");
    let ghost lines_b = lines@;
    lines.push(activate);
    assert(texts(lines@) =~= creation_lines(*config, name@)) by {
        assert(texts(lines_b) =~= texts(lines_a).push(lines_b.last()@));
        assert(texts(lines@) =~= texts(lines_b).push(lines@.last()@));
    }

    Ok(
        CreatePlan {
            migration,
            outcome: Ok(
                Creation {
                    directory: sparkle_path(home, two_names(SPARKLERS_DIR, name.as_str())),
                    files: create_starter_files(name.as_str()),
                    config: Config {
                        human: HumanConfig { name: config.human.name.clone() },
                        ai,
                        sparklers: Some(personas),
                    },
                    config_path: sparkle_path(home, one_name(CONFIG_FILE)),
                    message: join(&lines, "\n"),
                },
            ),
        },
    )
}

/// The text of the failure to move a document of the given name, where
/// `detail` says what went wrong.
pub fn move_failure(file: &str, detail: &str) -> (e: ToolError)
    ensures
        e.kind == ToolErrorKind::Internal,
        e.message@ == "Failed to move "@ + file@ + ": "@ + detail@,
{
    let mut message = "Failed to move ".to_owned();
    message.append(file);
    message.append(": ");
    message.append(detail);
    ToolError { kind: ToolErrorKind::Internal, message }
}

} // verus!
