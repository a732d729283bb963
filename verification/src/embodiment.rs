//! The embodiment document: the text that is injected into a new session.
//!
//! The document is assembled from the universal identity document, the
//! persona's own documents and the state of the workspace. Whoever calls
//! reads the documents; a document that is missing is replaced by a
//! placeholder and never an error.

use vstd::prelude::*;
use vstd::string::*;
use crate::context_loader::{
    check_persona, checked_persona, context_error_text, create_sparkler_identity_template,
    create_starter_files, file_views, identity_template, lemma_template_is_marked, starter_files,
    ContextError, ContextErrorView, StarterFile, IDENTITY_FILE, TEMPLATE_MARK,
};
use crate::sparkle_loader::{
    as_opt_str, load_sparkle_definition, opt_str, persona_name, personalized,
    resolve_persona_name, SparkleDefinition,
};
use crate::text::{contains, contains_text, occurs_at, same_text};
use crate::types::{opt_text, Config, FullEmbodimentParams};

verus! {

pub const IDENTITY_PLACEHOLDER: &'static str = "*Sparkler identity would be loaded dynamically*";

pub const PROFILE_PLACEHOLDER: &'static str = "*Collaborator profile would be loaded dynamically*";

pub const WORKSPACE_MAP_PLACEHOLDER: &'static str = "*Workspace map would be loaded dynamically*";

pub const EVOLUTION_PLACEHOLDER: &'static str =
    "*Collaboration evolution would be loaded dynamically*";

pub const ANCHORS_PLACEHOLDER: &'static str = "*Pattern anchors would be loaded dynamically*";

/// What follows an identity document that is new or not filled in yet.
pub const GUIDANCE_NOTE: &'static str =
    "\n\n\u{f0}\u{178}\u{2019}\u{a1} **Note**: Define the essence of your Sparkler identity - use the `sparkler_identity` prompt for guidance, then the `update_sparkler_identity` tool to save it.\n\n";

/// What closes the persona's documents, and a checkpoint.
pub const SECTION_RULE: &'static str = "\n\n---\n\n";

pub const WORKSPACE_HEADING: &'static str = "# Workspace Context\n\n";

/// What explains, where several personas are configured, that they share a
/// workspace's state.
pub const SHARING_NOTE: &'static str =
    "**Multi-Sparkler Workspace Sharing**: The `.sparkle-space/working-memory.json` tracks workspace-specific context (current focus, achievements, next steps) that's shared across all Sparklers. Different Sparklers can work on the same project - each brings their own collaborative identity while continuing the same work. The sparkler field in checkpoints shows who worked most recently, not ownership.\n\n";

pub const WORKING_MEMORY_OPEN: &'static str = "## Working Memory\n\n```json\n";

pub const WORKING_MEMORY_CLOSE: &'static str = "\n```\n\n";

pub const CHECKPOINTS_HEADING: &'static str = "## Checkpoints\n\n";

pub const NO_WORKSPACE_OPEN: &'static str = "*No .sparkle-space found at ";

pub const NO_WORKSPACE_CLOSE: &'static str = "*\n\n";

pub const WORKSPACE_UNSPECIFIED: &'static str =
    "*Workspace path not specified - use workspace_path parameter to load workspace-specific context*\n\n";

/// The workspace path that stands for none.
pub const CURRENT_WORKSPACE: &'static str = "current";

/// The name of the working memory document in a workspace's state directory.
pub const WORKING_MEMORY_FILE: &'static str = "working-memory.json";

/// The name of the directory of checkpoints in a workspace's state directory.
pub const CHECKPOINTS_DIR: &'static str = "checkpoints";

/// An entry of a workspace's directory of checkpoints.
#[derive(Debug, Clone)]
pub struct CheckpointFile {
    /// The entry's file name.
    pub name: String,
    /// Whether the entry is a regular file.
    pub is_file: bool,
    /// When the entry was last modified, in nanoseconds since the start of
    /// 1970; `None` when that is not known.
    pub modified: Option<i128>,
    /// The entry's text. Only that of the latest checkpoint is ever looked
    /// at; `None` when it was not or could not be read.
    pub content: Option<String>,
}

/// Whether a file name is that of a markdown document: it ends in `.md`, and
/// something stands before that.
pub open spec fn is_markdown_name(name: Seq<char>) -> bool {
    &&& name.len() > 3
    &&& name.subrange(name.len() - 3, name.len() as int) == ".md"@
}

/// Whether a file name is that of a markdown document.
pub fn has_markdown_name(name: &str) -> (r: bool)
    ensures
        r == is_markdown_name(name@),
{
    let chars = crate::text::chars_of(name);
    let n = chars.len();
    if n <= 3 {
        return false;
    }
    proof {
        reveal_strlit(".md");
        if is_markdown_name(name@) {
            assert(name@.subrange(n - 3, n as int)[0] == '.');
            assert(name@.subrange(n - 3, n as int)[1] == 'm');
            assert(name@.subrange(n - 3, n as int)[2] == 'd');
        }
    }
    let r = chars[n - 3] == '.' && chars[n - 2] == 'm' && chars[n - 1] == 'd';
    proof {
        if r {
            assert(name@.subrange(n - 3, n as int) =~= ".md"@);
        }
    }
    r
}

/// Whether an entry counts as a checkpoint: a regular markdown file whose
/// time of modification is known.
pub open spec fn is_checkpoint(f: CheckpointFile) -> bool {
    f.is_file && is_markdown_name(f.name@) && f.modified is Some
}

/// Whether position `i` holds the latest checkpoint: no checkpoint was
/// modified later, and of those modified at the same time it stands last.
pub open spec fn is_latest(files: Seq<CheckpointFile>, i: int) -> bool {
    &&& 0 <= i < files.len()
    &&& is_checkpoint(files[i])
    &&& forall|j: int|
        0 <= j < files.len() && is_checkpoint(files[j]) ==> files[j].modified->0
            <= files[i].modified->0
    &&& forall|j: int|
        i < j < files.len() && is_checkpoint(files[j]) ==> files[j].modified->0
            < files[i].modified->0
}

/// The entries hold at most one latest checkpoint.
pub proof fn lemma_latest_unique(files: Seq<CheckpointFile>, i: int, k: int)
    requires
        is_latest(files, i),
        is_latest(files, k),
    ensures
        i == k,
{
}

/// The text of the latest checkpoint, if there is one and it was read.
pub open spec fn latest_text(files: Seq<CheckpointFile>) -> Option<Seq<char>> {
    if exists|i: int| is_latest(files, i) {
        opt_text(files[choose|i: int| is_latest(files, i)].content)
    } else {
        None
    }
}

/// The position of the latest checkpoint among the entries of a directory:
/// the checkpoint that was modified last, and of several modified at the same
/// time the one that stands last. `None` when no entry is a checkpoint.
pub fn latest_checkpoint(files: &Vec<CheckpointFile>) -> (r: Option<usize>)
    ensures
        match r {
            Some(i) => is_latest(files@, i as int),
            None => forall|j: int| 0 <= j < files.len() ==> !is_checkpoint(files@[j]),
        },
{
    let mut best: Option<usize> = None;
    let mut best_time: i128 = 0;
    let mut i: usize = 0;
    while i < files.len()
        invariant
            i <= files.len(),
            match best {
                Some(b) => {
                    &&& b < i
                    &&& is_checkpoint(files@[b as int])
                    &&& files@[b as int].modified == Some(best_time)
                    &&& forall|j: int|
                        0 <= j < i && is_checkpoint(files@[j]) ==> files@[j].modified->0
                            <= best_time
                    &&& forall|j: int|
                        b < j < i && is_checkpoint(files@[j]) ==> files@[j].modified->0
                            < best_time
                },
                None => forall|j: int| 0 <= j < i ==> !is_checkpoint(files@[j]),
            },
        decreases files.len() - i,
    {
        let file = &files[i];
        if file.is_file && has_markdown_name(file.name.as_str()) {
            match file.modified {
                Some(time) => {
                    let newer = match best {
                        Some(_) => time >= best_time,
                        None => true,
                    };
                    if newer {
                        best = Some(i);
                        best_time = time;
                    }
                },
                None => {},
            }
        }
        i += 1;
    }
    best
}

/// How a workspace's state directory was found.
#[derive(Debug, Clone)]
pub enum WorkspaceState {
    /// The workspace has no state directory.
    Missing,
    /// The workspace has a state directory.
    Present {
        /// The working memory document, if there is one that could be read.
        working_memory: Option<String>,
        /// The entries of the directory of checkpoints; none if there is no
        /// such directory or it could not be listed.
        checkpoints: Vec<CheckpointFile>,
    },
}

/// The documents that a persona's embodiment is assembled from, each `None`
/// when it is missing or could not be read.
#[derive(Debug, Clone)]
pub struct EmbodimentSources {
    /// Whether the persona had an identity document before this assembly
    /// wrote one.
    pub identity_existed: bool,
    pub sparkler_identity: Option<String>,
    pub collaborator_profile: Option<String>,
    pub workspace_map: Option<String>,
    pub collaboration_evolution: Option<String>,
    pub pattern_anchors: Option<String>,
    /// The state of the workspace asked for; not looked at when none was.
    pub workspace: WorkspaceState,
}

/// A document, or its placeholder when it is missing.
pub open spec fn or_placeholder(document: Option<String>, placeholder: Seq<char>) -> Seq<char> {
    match document {
        Some(text) => text@,
        None => placeholder,
    }
}

/// The persona's identity document, followed by the guidance note when the
/// document is new or still carries the template's mark.
pub open spec fn identity_section(sources: EmbodimentSources) -> Seq<char> {
    let identity = or_placeholder(sources.sparkler_identity, IDENTITY_PLACEHOLDER@);
    if !sources.identity_existed || contains_text(identity, TEMPLATE_MARK@) {
        identity + GUIDANCE_NOTE@
    } else {
        identity
    }
}

/// The collaborator's profile, the workspace map, the collaboration log and
/// the pattern anchors, closed by a rule.
pub open spec fn documents_section(sources: EmbodimentSources) -> Seq<char> {
    or_placeholder(sources.collaborator_profile, PROFILE_PLACEHOLDER@) + or_placeholder(
        sources.workspace_map,
        WORKSPACE_MAP_PLACEHOLDER@,
    ) + or_placeholder(sources.collaboration_evolution, EVOLUTION_PLACEHOLDER@) + or_placeholder(
        sources.pattern_anchors,
        ANCHORS_PLACEHOLDER@,
    ) + SECTION_RULE@
}

/// The note on sharing, where several personas are configured.
pub open spec fn sharing_part(multi: bool) -> Seq<char> {
    if multi {
        SHARING_NOTE@
    } else {
        Seq::empty()
    }
}

/// The working memory document as it stands in the embodiment document.
pub open spec fn working_memory_part(working_memory: Option<String>) -> Seq<char> {
    match working_memory {
        Some(text) => WORKING_MEMORY_OPEN@ + text@ + WORKING_MEMORY_CLOSE@,
        None => Seq::empty(),
    }
}

/// The latest checkpoint as it stands in the embodiment document.
pub open spec fn checkpoint_part(files: Seq<CheckpointFile>) -> Seq<char> {
    match latest_text(files) {
        Some(text) => CHECKPOINTS_HEADING@ + text + SECTION_RULE@,
        None => Seq::empty(),
    }
}

/// What the embodiment document says of the workspace.
pub open spec fn workspace_section(
    multi: bool,
    workspace_path: Option<Seq<char>>,
    workspace: WorkspaceState,
) -> Seq<char> {
    match workspace_path {
        None => WORKSPACE_UNSPECIFIED@,
        Some(path) => if path == CURRENT_WORKSPACE@ {
            WORKSPACE_UNSPECIFIED@
        } else {
            match workspace {
                WorkspaceState::Missing => NO_WORKSPACE_OPEN@ + path + NO_WORKSPACE_CLOSE@,
                WorkspaceState::Present { working_memory, checkpoints } => WORKSPACE_HEADING@
                    + sharing_part(multi) + working_memory_part(working_memory) + checkpoint_part(
                    checkpoints@,
                ),
            }
        },
    }
}

/// The workspace whose state an assembly looks at: the one asked for, unless
/// none is asked for or the path is `CURRENT_WORKSPACE`.
pub open spec fn workspace_asked(workspace_path: Option<Seq<char>>) -> Option<Seq<char>> {
    match workspace_path {
        Some(path) => if path == CURRENT_WORKSPACE@ {
            None
        } else {
            Some(path)
        },
        None => None,
    }
}

/// The workspace whose state is to be read for an assembly, if any.
pub fn workspace_to_read(params: &FullEmbodimentParams) -> (r: Option<String>)
    ensures
        opt_text(r) == workspace_asked(opt_text(params.workspace_path)),
{
    match &params.workspace_path {
        Some(path) => if same_text(path.as_str(), CURRENT_WORKSPACE) {
            None
        } else {
            Some(path.clone())
        },
        None => None,
    }
}

/// The embodiment document.
pub open spec fn embodiment_text(
    definition: SparkleDefinition,
    config: Config,
    params: FullEmbodimentParams,
    sources: EmbodimentSources,
) -> Seq<char> {
    personalized(
        definition.text(),
        config.human.name@,
        persona_name(config, opt_text(params.sparkler)),
    ) + identity_section(sources) + documents_section(sources) + workspace_section(
        config.multi(),
        opt_text(params.workspace_path),
        sources.workspace,
    )
}

/// Why no embodiment document could be assembled.
#[derive(Debug, Clone)]
pub enum EmbodimentError {
    /// The configuration could not be loaded.
    ConfigLoad { detail: String },
    /// The persona's directory could not be determined.
    ContextDir { cause: ContextError },
}

/// The text of an error.
pub open spec fn embodiment_error_text(e: EmbodimentError) -> Seq<char> {
    match e {
        EmbodimentError::ConfigLoad { detail } => "Failed to load user config: "@ + detail@,
        EmbodimentError::ContextDir { cause } => "Failed to determine context directory: "@
            + context_error_text(cause@),
    }
}

impl EmbodimentError {
    /// The text of the error.
    pub fn message(&self) -> (r: String)
        ensures
            r@ == embodiment_error_text(*self),
    {
        match self {
            EmbodimentError::ConfigLoad { detail } => {
                let mut out = "Failed to load user config: ".to_owned();
                out.append(detail.as_str());
                out
            },
            EmbodimentError::ContextDir { cause } => {
                let mut out = "Failed to determine context directory: ".to_owned();
                let inner = cause.message();
                out.append(inner.as_str());
                out
            },
        }
    }
}

/// Whether the persona of a request can be embodied under a configuration:
/// always where one persona is configured; where several are, the persona
/// asked for, or the default, must be a configured one.
pub open spec fn persona_accepted(config: Config, sparkler: Option<Seq<char>>) -> bool {
    !config.multi() || checked_persona(config, sparkler) is Ok
}

/// Appends a document, or its placeholder when it is missing.
fn append_or_placeholder(out: &mut String, document: &Option<String>, placeholder: &str)
    ensures
        final(out)@ == old(out)@ + or_placeholder(*document, placeholder@),
{
    match document {
        Some(text) => out.append(text.as_str()),
        None => out.append(placeholder),
    }
}

/// Appends what the embodiment document says of the workspace.
fn append_workspace_section(
    out: &mut String,
    multi: bool,
    workspace_path: &Option<String>,
    workspace: &WorkspaceState,
)
    ensures
        final(out)@ == old(out)@ + workspace_section(multi, opt_text(*workspace_path), *workspace),
{
    let path = match workspace_path {
        Some(path) => path,
        None => {
            out.append(WORKSPACE_UNSPECIFIED);
            return ;
        },
    };
    if same_text(path.as_str(), CURRENT_WORKSPACE) {
        out.append(WORKSPACE_UNSPECIFIED);
        return ;
    }
    let ghost start = out@;
    match workspace {
        WorkspaceState::Missing => {
            out.append(NO_WORKSPACE_OPEN);
            out.append(path.as_str());
            out.append(NO_WORKSPACE_CLOSE);
            assert(out@ =~= start + (NO_WORKSPACE_OPEN@ + path@ + NO_WORKSPACE_CLOSE@));
        },
        WorkspaceState::Present { working_memory, checkpoints } => {
            out.append(WORKSPACE_HEADING);
            if multi {
                out.append(SHARING_NOTE);
            }
            match working_memory {
                Some(text) => {
                    out.append(WORKING_MEMORY_OPEN);
                    out.append(text.as_str());
                    out.append(WORKING_MEMORY_CLOSE);
                },
                None => {},
            }
            assert(out@ =~= start + (WORKSPACE_HEADING@ + sharing_part(multi)
                + working_memory_part(*working_memory)));
            let ghost before = out@;
            match latest_checkpoint(checkpoints) {
                Some(i) => {
                    proof {
                        lemma_latest_unique(
                            checkpoints@,
                            i as int,
                            choose|k: int| is_latest(checkpoints@, k),
                        );
                    }
                    match &checkpoints[i].content {
                        Some(text) => {
                            out.append(CHECKPOINTS_HEADING);
                            out.append(text.as_str());
                            out.append(SECTION_RULE);
                        },
                        None => {},
                    }
                },
                None => {
                    assert(!exists|k: int| is_latest(checkpoints@, k));
                },
            }
            assert(out@ =~= before + checkpoint_part(checkpoints@));
            assert(out@ =~= start + (WORKSPACE_HEADING@ + sharing_part(multi)
                + working_memory_part(*working_memory) + checkpoint_part(checkpoints@)));
        },
    }
}

/// Assembles the embodiment document of a persona.
///
/// Fails only where several personas are configured and the one asked for,
/// or the default, is not among them. Missing documents never fail it.
pub fn generate_embodiment_content(
    definition: &SparkleDefinition,
    config: &Config,
    params: &FullEmbodimentParams,
    sources: &EmbodimentSources,
) -> (r: Result<String, EmbodimentError>)
    ensures
        r is Ok <==> persona_accepted(*config, opt_text(params.sparkler)),
        r matches Ok(document) ==> document@ == embodiment_text(
            *definition,
            *config,
            *params,
            *sources,
        ),
        r matches Err(e) ==> e matches EmbodimentError::ContextDir { cause } && Err::<
            Seq<char>,
            ContextErrorView,
        >(cause@) == checked_persona(*config, opt_text(params.sparkler)),
{
    let sparkler_name = as_opt_str(&params.sparkler);
    if config.is_multi_sparkler() {
        match check_persona(config, sparkler_name) {
            Err(cause) => {
                return Err(EmbodimentError::ContextDir { cause });
            },
            Ok(_) => {},
        }
    }
    let mut out = load_sparkle_definition(definition, config, sparkler_name);
    let ghost head = out@;

    append_or_placeholder(&mut out, &sources.sparkler_identity, IDENTITY_PLACEHOLDER);
    let marked = match &sources.sparkler_identity {
        Some(text) => contains(text.as_str(), TEMPLATE_MARK),
        None => contains(IDENTITY_PLACEHOLDER, TEMPLATE_MARK),
    };
    if !sources.identity_existed || marked {
        out.append(GUIDANCE_NOTE);
    }
    assert(out@ =~= head + identity_section(*sources));
    let ghost after_identity = out@;

    append_or_placeholder(&mut out, &sources.collaborator_profile, PROFILE_PLACEHOLDER);
    append_or_placeholder(&mut out, &sources.workspace_map, WORKSPACE_MAP_PLACEHOLDER);
    append_or_placeholder(&mut out, &sources.collaboration_evolution, EVOLUTION_PLACEHOLDER);
    append_or_placeholder(&mut out, &sources.pattern_anchors, ANCHORS_PLACEHOLDER);
    out.append(SECTION_RULE);
    assert(out@ =~= after_identity + documents_section(*sources));

    append_workspace_section(
        &mut out,
        config.is_multi_sparkler(),
        &params.workspace_path,
        &sources.workspace,
    );
    Ok(out)
}

/// What a persona's directory holds before an assembly writes anything.
#[derive(Debug, Clone, Copy, PartialEq, Eq, Structural)]
pub struct PersonaDirectory {
    /// Whether the directory exists.
    pub exists: bool,
    /// Whether it holds an identity document.
    pub has_identity: bool,
}

/// What an assembly writes before it reads the persona's documents.
#[derive(Debug, Clone)]
pub struct Scaffold {
    /// Whether to create the persona's directory first.
    pub create_directory: bool,
    /// The documents to write into the directory, in order.
    pub files: Vec<StarterFile>,
    /// Whether the persona had an identity document before the assembly: one
    /// that the assembly writes itself, alone or with the directory, is new.
    pub identity_existed: bool,
}

/// Whether an assembly creates the persona's directory: where each persona
/// has its own and this one's is missing.
pub open spec fn creates_directory(config: Config, dir: PersonaDirectory) -> bool {
    config.multi() && !dir.exists
}

/// The documents that an assembly writes: the starter files into a directory
/// that it creates, else an identity document where there is none, else
/// nothing. The identity document is written for the persona that is
/// embodied, under the name that the universal identity document gets too.
pub open spec fn scaffold_files(
    config: Config,
    sparkler: Option<Seq<char>>,
    dir: PersonaDirectory,
) -> Seq<(Seq<char>, Seq<char>)> {
    if creates_directory(config, dir) {
        starter_files(checked_persona(config, sparkler)->Ok_0)
    } else if !dir.has_identity {
        seq![(IDENTITY_FILE@, identity_template(persona_name(config, sparkler)))]
    } else {
        Seq::empty()
    }
}

/// The persona's directory once the scaffold is written. Nothing can be
/// written into a directory that does not exist and is not created.
pub open spec fn directory_after(config: Config, dir: PersonaDirectory) -> PersonaDirectory {
    if creates_directory(config, dir) || dir.exists {
        PersonaDirectory { exists: true, has_identity: true }
    } else {
        dir
    }
}

/// What to write before the persona's documents are read.
///
/// Fails, as the assembly itself does, where several personas are configured
/// and the one asked for, or the default, is not among them.
pub fn plan_scaffold(config: &Config, sparkler_name: Option<&str>, dir: PersonaDirectory) -> (r:
    Result<Scaffold, ContextError>)
    ensures
        r is Ok <==> persona_accepted(*config, opt_str(sparkler_name)),
        r matches Ok(plan) ==> {
            &&& plan.create_directory == creates_directory(*config, dir)
            &&& file_views(plan.files@) == scaffold_files(*config, opt_str(sparkler_name), dir)
            &&& plan.identity_existed == (!creates_directory(*config, dir) && dir.has_identity)
        },
        r matches Err(e) ==> Err::<Seq<char>, ContextErrorView>(e@) == checked_persona(
            *config,
            opt_str(sparkler_name),
        ),
{
    if config.is_multi_sparkler() {
        let name = match check_persona(config, sparkler_name) {
            Err(e) => {
                return Err(e);
            },
            Ok(name) => name,
        };
        if !dir.exists {
            return Ok(
                Scaffold {
                    create_directory: true,
                    files: create_starter_files(name.as_str()),
                    identity_existed: false,
                },
            );
        }
    }
    let mut files: Vec<StarterFile> = Vec::new();
    if !dir.has_identity {
        let heading_name = resolve_persona_name(config, sparkler_name);
        files.push(
            StarterFile {
                name: IDENTITY_FILE.to_owned(),
                content: create_sparkler_identity_template(heading_name.as_str()),
            },
        );
    }
    assert(file_views(files@) =~= scaffold_files(*config, opt_str(sparkler_name), dir));
    Ok(Scaffold { create_directory: false, files, identity_existed: dir.has_identity })
}

/// A new persona's directory is created with the three starter files.
pub proof fn lemma_scaffold_creates_starter_files(
    config: Config,
    sparkler: Option<Seq<char>>,
    dir: PersonaDirectory,
)
    requires
        config.multi(),
        persona_accepted(config, sparkler),
        !dir.exists,
    ensures
        creates_directory(config, dir),
        scaffold_files(config, sparkler, dir) == starter_files(
            checked_persona(config, sparkler)->Ok_0,
        ),
        scaffold_files(config, sparkler, dir).len() == 3,
{
}

/// Once the scaffold is written, a second assembly writes nothing: it
/// creates no directory and overwrites no document.
pub proof fn lemma_scaffold_settles(
    config: Config,
    sparkler: Option<Seq<char>>,
    dir: PersonaDirectory,
)
    requires
        dir.exists || config.multi(),
    ensures
        !creates_directory(config, directory_after(config, dir)),
        scaffold_files(config, sparkler, directory_after(config, dir)).len() == 0,
        directory_after(config, directory_after(config, dir)) == directory_after(config, dir),
{
}

/// An identity document that the assembly has just written is followed by
/// the guidance note, whatever is read back of it.
pub proof fn lemma_new_identity_gets_note(sources: EmbodimentSources)
    requires
        !sources.identity_existed,
    ensures
        identity_section(sources) == or_placeholder(
            sources.sparkler_identity,
            IDENTITY_PLACEHOLDER@,
        ) + GUIDANCE_NOTE@,
{
}

/// An identity document that is still the template is followed by the
/// guidance note in every assembly, whether or not it existed before.
pub proof fn lemma_template_keeps_note(sources: EmbodimentSources, sparkler_name: Seq<char>)
    requires
        sources.sparkler_identity matches Some(text) && text@ == identity_template(sparkler_name),
    ensures
        identity_section(sources) == identity_template(sparkler_name) + GUIDANCE_NOTE@,
{
    lemma_template_is_marked(sparkler_name);
}

/// A part of a text stands in the text.
pub proof fn lemma_part_occurs(before: Seq<char>, part: Seq<char>, after: Seq<char>)
    ensures
        contains_text(before + part + after, part),
{
    let whole = before + part + after;
    assert(whole.subrange(before.len() as int, (before.len() + part.len()) as int) =~= part);
    assert(occurs_at(whole, part, before.len() as int));
}

/// Where the workspace map is missing, its placeholder stands in the
/// embodiment document; the assembly does not fail for it.
pub proof fn lemma_missing_workspace_map_uses_placeholder(
    definition: SparkleDefinition,
    config: Config,
    params: FullEmbodimentParams,
    sources: EmbodimentSources,
)
    requires
        sources.workspace_map is None,
    ensures
        contains_text(
            embodiment_text(definition, config, params, sources),
            WORKSPACE_MAP_PLACEHOLDER@,
        ),
{
    let before = personalized(
        definition.text(),
        config.human.name@,
        persona_name(config, opt_text(params.sparkler)),
    ) + identity_section(sources) + or_placeholder(
        sources.collaborator_profile,
        PROFILE_PLACEHOLDER@,
    );
    let after = or_placeholder(sources.collaboration_evolution, EVOLUTION_PLACEHOLDER@)
        + or_placeholder(sources.pattern_anchors, ANCHORS_PLACEHOLDER@) + SECTION_RULE@
        + workspace_section(config.multi(), opt_text(params.workspace_path), sources.workspace);
    lemma_part_occurs(before, WORKSPACE_MAP_PLACEHOLDER@, after);
    assert(embodiment_text(definition, config, params, sources) =~= before
        + WORKSPACE_MAP_PLACEHOLDER@ + after);
}

/// Where several personas are configured, a persona that is not among them
/// is refused, and the error's text lists the configured ones.
pub proof fn lemma_unknown_persona_is_refused(config: Config, name: Seq<char>)
    requires
        config.multi(),
        !config.lists(name),
    ensures
        !persona_accepted(config, Some(name)),
        checked_persona(config, Some(name)) matches Err(e) && context_error_text(e)
            == "Sparkler '"@ + name + "' not found in config. Available sparklers: "@
            + crate::text::joined(crate::types::persona_names(config.personas()), ", "@)
            + ". Use create_sparkler to create a new one."@,
{
}

/// Where several personas are configured and none is asked for, the default
/// persona is the one embodied.
pub proof fn lemma_default_persona_is_accepted(config: Config)
    requires
        config.multi(),
        config.personas().len() > 0,
    ensures
        persona_accepted(config, None),
        checked_persona(config, None) == Ok::<Seq<char>, ContextErrorView>(
            config.default_name()->0,
        ),
{
    let list = config.personas();
    if forall|j: int| 0 <= j < list.len() ==> !list[j].default {
        assert(crate::types::is_default_at(list, 0));
    } else {
        let flagged = choose|j: int| 0 <= j < list.len() && list[j].default;
        lemma_first_flagged(list, flagged);
    }
    let i = crate::types::default_index(list);
    assert(crate::types::is_default_at(list, i));
    assert(crate::types::persona_names(list)[i] == list[i].name@);
}

/// A list with a flagged persona has an effective default.
proof fn lemma_first_flagged(list: Seq<crate::types::SparklerConfig>, flagged: int)
    requires
        0 <= flagged < list.len(),
        list[flagged].default,
    ensures
        exists|i: int| crate::types::is_default_at(list, i),
    decreases flagged,
{
    if forall|j: int| 0 <= j < flagged ==> !list[j].default {
        assert(crate::types::is_default_at(list, flagged));
    } else {
        let earlier = choose|j: int| 0 <= j < flagged && list[j].default;
        lemma_first_flagged(list, earlier);
    }
}

} // verus!
