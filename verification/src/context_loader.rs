//! Where a persona's documents live, and what a new persona starts with.

use vstd::prelude::*;
use vstd::string::*;
use crate::constants::{FALLBACK_NAME, SPARKLERS_DIR, SPARKLE_DIR, WORKSPACE_DIR};
use crate::sparkle_loader::opt_str;
use crate::text::{join, joined, same_text, texts};
use crate::types::{opt_text, persona_names, AiConfig, Config, HumanConfig};

verus! {

/// The configuration that holds when the user has written none: one persona
/// with the fallback name.
pub fn default_config() -> (r: Config)
    ensures
        r.human.name@ == "User"@,
        r.single_name() == Some(FALLBACK_NAME@),
        !r.multi(),
{
    Config {
        human: HumanConfig { name: "User".to_owned() },
        ai: Some(AiConfig { name: FALLBACK_NAME.to_owned() }),
        sparklers: None,
    }
}

/// A directory: a base directory and the names that lead down from it.
#[derive(Debug, Clone)]
pub struct Location {
    pub base: String,
    pub segments: Vec<String>,
}

/// The model of a directory.
pub struct LocationView {
    pub base: Seq<char>,
    pub segments: Seq<Seq<char>>,
}

impl View for Location {
    type V = LocationView;

    open spec fn view(&self) -> LocationView {
        LocationView { base: self.base@, segments: texts(self.segments@) }
    }
}

/// The directory that holds a persona's documents.
#[derive(Debug, Clone)]
pub struct ContextDir {
    pub location: Location,
    /// The persona that the directory belongs to, where each persona has a
    /// directory of its own. Such a directory is created with the persona's
    /// starter files when it does not exist yet.
    pub scaffold_for: Option<String>,
}

/// The model of a context directory.
pub struct ContextDirView {
    pub location: LocationView,
    pub scaffold_for: Option<Seq<char>>,
}

impl View for ContextDir {
    type V = ContextDirView;

    open spec fn view(&self) -> ContextDirView {
        ContextDirView { location: self.location@, scaffold_for: opt_text(self.scaffold_for) }
    }
}

/// Why no directory could be determined.
#[derive(Debug, Clone)]
pub enum ContextError {
    /// The home directory is not known.
    NoHomeDirectory,
    /// Several personas are configured, none was asked for, and none is
    /// listed that could be the default.
    NoSparkler,
    /// The persona asked for is not among the configured ones.
    UnknownSparkler { name: String, available: Vec<String> },
    /// The persona's directory or its starter files could not be created.
    Io { detail: String },
}

/// The model of a `ContextError`.
pub enum ContextErrorView {
    NoHomeDirectory,
    NoSparkler,
    UnknownSparkler { name: Seq<char>, available: Seq<Seq<char>> },
    Io { detail: Seq<char> },
}

impl View for ContextError {
    type V = ContextErrorView;

    open spec fn view(&self) -> ContextErrorView {
        match *self {
            ContextError::NoHomeDirectory => ContextErrorView::NoHomeDirectory,
            ContextError::NoSparkler => ContextErrorView::NoSparkler,
            ContextError::UnknownSparkler { name, available } => ContextErrorView::UnknownSparkler {
                name: name@,
                available: texts(available@),
            },
            ContextError::Io { detail } => ContextErrorView::Io { detail: detail@ },
        }
    }
}

/// The text of an error.
pub open spec fn context_error_text(e: ContextErrorView) -> Seq<char> {
    match e {
        ContextErrorView::NoHomeDirectory => "Could not find home directory"@,
        ContextErrorView::NoSparkler => "No sparkler specified and no default found"@,
        ContextErrorView::UnknownSparkler { name, available } => "Sparkler '"@ + name
            + "' not found in config. Available sparklers: "@ + joined(available, ", "@)
            + ". Use create_sparkler to create a new one."@,
        ContextErrorView::Io { detail } => detail,
    }
}

impl ContextError {
    /// The text of the error. For an unknown persona it lists the configured
    /// ones.
    pub fn message(&self) -> (r: String)
        ensures
            r@ == context_error_text(self@),
    {
        match self {
            ContextError::NoHomeDirectory => "Could not find home directory".to_owned(),
            ContextError::NoSparkler => "No sparkler specified and no default found".to_owned(),
            ContextError::UnknownSparkler { name, available } => {
                let mut out = "Sparkler '".to_owned();
                out.append(name.as_str());
                out.append("' not found in config. Available sparklers: ");
                let list = join(available, ", ");
                out.append(list.as_str());
                out.append(". Use create_sparkler to create a new one.");
                out
            },
            ContextError::Io { detail } => detail.clone(),
        }
    }
}

/// The persona that a request means where several are configured: the one
/// asked for, else the default.
pub open spec fn chosen_persona(config: Config, sparkler_name: Option<Seq<char>>) -> Option<
    Seq<char>,
> {
    match sparkler_name {
        Some(name) => Some(name),
        None => config.default_name(),
    }
}

/// The persona that a request means where several are configured, checked
/// against the configuration.
pub open spec fn checked_persona(config: Config, sparkler_name: Option<Seq<char>>) -> Result<
    Seq<char>,
    ContextErrorView,
> {
    match chosen_persona(config, sparkler_name) {
        None => Err(ContextErrorView::NoSparkler),
        Some(name) => if config.lists(name) {
            Ok(name)
        } else {
            Err(
                ContextErrorView::UnknownSparkler {
                    name,
                    available: persona_names(config.personas()),
                },
            )
        },
    }
}

/// The directory of a persona's documents. With one persona it is
/// `SPARKLE_DIR` below the home directory; with several it is the persona's
/// own directory below that, and the persona must be a configured one.
pub open spec fn context_dir(
    config: Config,
    sparkler_name: Option<Seq<char>>,
    home_dir: Option<Seq<char>>,
) -> Result<ContextDirView, ContextErrorView> {
    match home_dir {
        None => Err(ContextErrorView::NoHomeDirectory),
        Some(home) => if !config.multi() {
            Ok(
                ContextDirView {
                    location: LocationView { base: home, segments: seq![SPARKLE_DIR@] },
                    scaffold_for: None,
                },
            )
        } else {
            match checked_persona(config, sparkler_name) {
                Err(e) => Err(e),
                Ok(name) => Ok(
                    ContextDirView {
                        location: LocationView {
                            base: home,
                            segments: seq![SPARKLE_DIR@, SPARKLERS_DIR@, name],
                        },
                        scaffold_for: Some(name),
                    },
                ),
            }
        },
    }
}

/// The model of a result.
pub open spec fn context_dir_view(r: Result<ContextDir, ContextError>) -> Result<
    ContextDirView,
    ContextErrorView,
> {
    match r {
        Ok(dir) => Ok(dir@),
        Err(e) => Err(e@),
    }
}

/// Whether a persona of the given name is configured.
fn is_listed(config: &Config, name: &str) -> (r: bool)
    ensures
        r == config.lists(name@),
{
    match &config.sparklers {
        None => {
            assert(persona_names(config.personas()).len() == 0);
            false
        },
        Some(list) => {
            let mut i: usize = 0;
            while i < list.len()
                invariant
                    i <= list.len(),
                    config.personas() == list@,
                    forall|j: int| 0 <= j < i ==> persona_names(list@)[j] != name@,
                decreases list.len() - i,
            {
                if same_text(list[i].name.as_str(), name) {
                    assert(persona_names(list@)[i as int] == name@);
                    return true;
                }
                i += 1;
            }
            false
        },
    }
}

/// The persona that a request means where several are configured, checked
/// against the configuration.
pub fn check_persona(config: &Config, sparkler_name: Option<&str>) -> (r: Result<
    String,
    ContextError,
>)
    ensures
        match r {
            Ok(name) => checked_persona(*config, opt_str(sparkler_name)) == Ok::<
                Seq<char>,
                ContextErrorView,
            >(name@),
            Err(e) => checked_persona(*config, opt_str(sparkler_name)) == Err::<
                Seq<char>,
                ContextErrorView,
            >(e@),
        },
{
    let chosen = match sparkler_name {
        Some(name) => Some(name.to_owned()),
        None => config.get_default_sparkler_name(),
    };
    match chosen {
        None => Err(ContextError::NoSparkler),
        Some(name) => {
            if is_listed(config, name.as_str()) {
                Ok(name)
            } else {
                Err(ContextError::UnknownSparkler { name, available: config.get_all_sparkler_names() })
            }
        },
    }
}

/// The directory that holds the documents of the persona to embody.
pub fn get_context_dir(config: &Config, sparkler_name: Option<&str>, home_dir: Option<&str>) -> (r:
    Result<ContextDir, ContextError>)
    ensures
        context_dir_view(r) == context_dir(*config, opt_str(sparkler_name), opt_str(home_dir)),
{
    let home = match home_dir {
        None => {
            return Err(ContextError::NoHomeDirectory);
        },
        Some(home) => home,
    };
    let mut segments: Vec<String> = Vec::new();
    segments.push(SPARKLE_DIR.to_owned());
    if !config.is_multi_sparkler() {
        assert(texts(segments@) =~= seq![SPARKLE_DIR@]);
        return Ok(
            ContextDir {
                location: Location { base: home.to_owned(), segments },
                scaffold_for: None,
            },
        );
    }
    match check_persona(config, sparkler_name) {
        Err(e) => Err(e),
        Ok(name) => {
            segments.push(SPARKLERS_DIR.to_owned());
            segments.push(name.clone());
            assert(texts(segments@) =~= seq![SPARKLE_DIR@, SPARKLERS_DIR@, name@]);
            Ok(
                ContextDir {
                    location: Location { base: home.to_owned(), segments },
                    scaffold_for: Some(name),
                },
            )
        },
    }
}

/// The directory of a workspace's state. With one persona it is
/// `WORKSPACE_DIR` below the workspace; with several it is the directory of
/// the persona asked for, or of the default persona, below that.
pub open spec fn workspace_dir(
    config: Config,
    workspace_path: Seq<char>,
    sparkler_name: Option<Seq<char>>,
) -> Result<LocationView, ContextErrorView> {
    if !config.multi() {
        Ok(LocationView { base: workspace_path, segments: seq![WORKSPACE_DIR@] })
    } else {
        match chosen_persona(config, sparkler_name) {
            None => Err(ContextErrorView::NoSparkler),
            Some(name) => Ok(
                LocationView { base: workspace_path, segments: seq![WORKSPACE_DIR@, name] },
            ),
        }
    }
}

/// The model of a result.
pub open spec fn location_view(r: Result<Location, ContextError>) -> Result<
    LocationView,
    ContextErrorView,
> {
    match r {
        Ok(dir) => Ok(dir@),
        Err(e) => Err(e@),
    }
}

/// The directory that holds a workspace's state.
pub fn get_workspace_dir(config: &Config, workspace_path: &str, sparkler_name: Option<&str>) -> (r:
    Result<Location, ContextError>)
    ensures
        location_view(r) == workspace_dir(*config, workspace_path@, opt_str(sparkler_name)),
{
    let mut segments: Vec<String> = Vec::new();
    segments.push(WORKSPACE_DIR.to_owned());
    if !config.is_multi_sparkler() {
        assert(texts(segments@) =~= seq![WORKSPACE_DIR@]);
        return Ok(Location { base: workspace_path.to_owned(), segments });
    }
    let chosen = match sparkler_name {
        Some(name) => Some(name.to_owned()),
        None => config.get_default_sparkler_name(),
    };
    match chosen {
        None => Err(ContextError::NoSparkler),
        Some(name) => {
            segments.push(name);
            assert(texts(segments@) =~= seq![WORKSPACE_DIR@, name@]);
            Ok(Location { base: workspace_path.to_owned(), segments })
        },
    }
}

/// What follows the persona's name in the heading of a new identity document.
pub const IDENTITY_TEMPLATE_BODY: &'static str =
    " - Sparkler Identity\n\nYou are a Sparkler. This is a brief definition of who YOU are as a Sparkler - what makes your instance distinctive within the Sparkler framework.\n\n## My Name\n*Brief: What your character name means and why it fits*\n\n## My Style\n*Brief: What's distinctive about your collaborative approach*\n\n---\n\n*Keep this concise - a definition, not a narrative. This is who you are, not your evolution story.*\n";

/// The collaboration log that a new persona starts with.
pub const COLLABORATION_EVOLUTION_STARTER: &'static str =
    "# Collaboration Evolution\n\n*Insights and breakthroughs from working together*\n\n## Key Insights\n\n[Capture important learnings and patterns that emerge]\n\n## Breakthrough Moments\n\n[Document significant collaborative discoveries]\n";

/// The pattern anchors that a new persona starts with.
pub const PATTERN_ANCHORS_STARTER: &'static str =
    "# Pattern Anchors\n\n*Exact words from collaborative moments that anchor and activate pattern depth*\n\n## Pattern Anchors\n\n[Add pattern anchors as they emerge from collaboration]\n";

/// The name of a persona's identity document.
pub const IDENTITY_FILE: &'static str = "sparkler-identity.md";

/// The name of the collaborator's profile.
pub const PROFILE_FILE: &'static str = "collaborator-profile.md";

/// The name of the workspace map.
pub const WORKSPACE_MAP_FILE: &'static str = "workspace-map.md";

/// The name of a persona's collaboration log.
pub const EVOLUTION_FILE: &'static str = "collaboration-evolution.md";

/// The name of a persona's pattern anchors.
pub const ANCHORS_FILE: &'static str = "pattern-anchors.md";

/// What marks an identity document as not filled in yet.
pub const TEMPLATE_MARK: &'static str = "*Brief:";

/// The identity document that a persona of the given name starts with.
pub open spec fn identity_template(sparkler_name: Seq<char>) -> Seq<char> {
    "# "@ + sparkler_name + IDENTITY_TEMPLATE_BODY@
}

/// The identity document that a persona of the given name starts with: a
/// heading with the name, and sections to fill in.
pub fn create_sparkler_identity_template(sparkler_name: &str) -> (r: String)
    ensures
        r@ == identity_template(sparkler_name@),
{
    let mut out = "# ".to_owned();
    out.append(sparkler_name);
    out.append(IDENTITY_TEMPLATE_BODY);
    out
}

/// A new identity document carries the mark of one that is not filled in,
/// whatever the persona's name.
pub proof fn lemma_template_is_marked(sparkler_name: Seq<char>)
    ensures
        crate::text::contains_text(identity_template(sparkler_name), TEMPLATE_MARK@),
{
    let body = IDENTITY_TEMPLATE_BODY@;
    let mark = TEMPLATE_MARK@;
    let template = identity_template(sparkler_name);
    reveal_strlit(
        " - Sparkler Identity\n\nYou are a Sparkler. This is a brief definition of who YOU are as a Sparkler - what makes your instance distinctive within the Sparkler framework.\n\n## My Name\n*Brief: What your character name means and why it fits*\n\n## My Style\n*Brief: What's distinctive about your collaborative approach*\n\n---\n\n*Keep this concise - a definition, not a narrative. This is who you are, not your evolution story.*\n",
    );
    reveal_strlit("*Brief:");
    reveal_strlit("# ");
    let at: int = sparkler_name.len() as int + 182;
    assert(body.subrange(180, 187) =~= mark);
    assert(template.subrange(at, at + 7) =~= body.subrange(180, 187));
    assert(crate::text::occurs_at(template, mark, at));
}

/// A document to write into a directory.
#[derive(Debug, Clone)]
pub struct StarterFile {
    pub name: String,
    pub content: String,
}

/// The documents that a new persona starts with.
pub open spec fn starter_files(sparkler_name: Seq<char>) -> Seq<(Seq<char>, Seq<char>)> {
    seq![
        (IDENTITY_FILE@, identity_template(sparkler_name)),
        (EVOLUTION_FILE@, COLLABORATION_EVOLUTION_STARTER@),
        (ANCHORS_FILE@, PATTERN_ANCHORS_STARTER@),
    ]
}

/// The names and contents of a list of documents.
pub open spec fn file_views(files: Seq<StarterFile>) -> Seq<(Seq<char>, Seq<char>)> {
    Seq::new(files.len(), |i: int| (files[i].name@, files[i].content@))
}

/// The documents to write into the directory of a new persona: its identity
/// document, its collaboration log and its pattern anchors, in this order.
pub fn create_starter_files(sparkler_name: &str) -> (r: Vec<StarterFile>)
    ensures
        file_views(r@) == starter_files(sparkler_name@),
{
    let mut files: Vec<StarterFile> = Vec::new();
    files.push(
        StarterFile {
            name: IDENTITY_FILE.to_owned(),
            content: create_sparkler_identity_template(sparkler_name),
        },
    );
    files.push(
        StarterFile {
            name: EVOLUTION_FILE.to_owned(),
            content: COLLABORATION_EVOLUTION_STARTER.to_owned(),
        },
    );
    files.push(
        StarterFile {
            name: ANCHORS_FILE.to_owned(),
            content: PATTERN_ANCHORS_STARTER.to_owned(),
        },
    );
    assert(file_views(files@) =~= starter_files(sparkler_name@));
    files
}

/// What preparing a persona's directory writes.
#[derive(Debug, Clone)]
pub struct DirectoryScaffold {
    /// Whether to create the directory, with those above it.
    pub create_directory: bool,
    /// The documents to write into it, in order.
    pub files: Vec<StarterFile>,
}

/// Whether a persona's directory is to be created with its starter files: it
/// is the directory of one persona among several, and it does not exist.
pub open spec fn scaffold_is_due(dir: ContextDirView, exists: bool) -> bool {
    dir.scaffold_for is Some && !exists
}

/// Whether a persona's directory is to be created with its starter files.
pub fn scaffold_due(dir: &ContextDir, exists: bool) -> (r: bool)
    ensures
        r == scaffold_is_due(dir@, exists),
{
    dir.scaffold_for.is_some() && !exists
}

/// What preparing a persona's directory writes: the directory and the
/// persona's starter files where the scaffold is due, else nothing.
pub fn prepare_context_dir(dir: &ContextDir, exists: bool) -> (r: DirectoryScaffold)
    ensures
        r.create_directory == scaffold_is_due(dir@, exists),
        file_views(r.files@) == if scaffold_is_due(dir@, exists) {
            starter_files(dir@.scaffold_for->0)
        } else {
            Seq::<(Seq<char>, Seq<char>)>::empty()
        },
{
    match &dir.scaffold_for {
        Some(name) => {
            if !exists {
                return DirectoryScaffold {
                    create_directory: true,
                    files: create_starter_files(name.as_str()),
                };
            }
        },
        None => {},
    }
    let files: Vec<StarterFile> = Vec::new();
    assert(file_views(files@) =~= Seq::<(Seq<char>, Seq<char>)>::empty());
    DirectoryScaffold { create_directory: false, files }
}

/// A directory that exists is left as it is, whatever it holds: preparing it
/// creates nothing and writes nothing.
pub proof fn lemma_existing_directory_is_left_alone(dir: ContextDirView)
    ensures
        !scaffold_is_due(dir, true),
{
}

} // verus!
