use sparkle_mcp::context_loader::{create_sparkler_identity_template, ContextError};
use sparkle_mcp::embodiment::{
    generate_embodiment_content, has_markdown_name, latest_checkpoint, plan_scaffold,
    CheckpointFile, EmbodimentError, EmbodimentSources, PersonaDirectory, WorkspaceState,
};
use sparkle_mcp::sparkle_loader::SparkleDefinition;
use sparkle_mcp::types::{AiConfig, Config, FullEmbodimentParams, HumanConfig, SparklerConfig};

const NOTE: &str = "\n\n\u{f0}\u{178}\u{2019}\u{a1} **Note**: Define the essence of your Sparkler identity - use the `sparkler_identity` prompt for guidance, then the `update_sparkler_identity` tool to save it.\n\n";

const SHARING: &str = "**Multi-Sparkler Workspace Sharing**: The `.sparkle-space/working-memory.json` tracks workspace-specific context (current focus, achievements, next steps) that's shared across all Sparklers. Different Sparklers can work on the same project - each brings their own collaborative identity while continuing the same work. The sparkler field in checkpoints shows who worked most recently, not ownership.\n\n";

const UNSPECIFIED: &str = "*Workspace path not specified - use workspace_path parameter to load workspace-specific context*\n\n";

fn definition() -> SparkleDefinition {
    SparkleDefinition {
        embodiment_methodology: "M:[ai.name]".to_string(),
        core_identity: "C:[human.name]".to_string(),
        partnership: "P".to_string(),
    }
}

fn single() -> Config {
    Config {
        human: HumanConfig { name: "Ada".to_string() },
        ai: Some(AiConfig { name: "Nova".to_string() }),
        sparklers: None,
    }
}

fn multi() -> Config {
    Config {
        human: HumanConfig { name: "Ada".to_string() },
        ai: None,
        sparklers: Some(vec![
            SparklerConfig { name: "Sage".to_string(), default: false },
            SparklerConfig { name: "Nova".to_string(), default: true },
        ]),
    }
}

fn params(workspace: Option<&str>, sparkler: Option<&str>) -> FullEmbodimentParams {
    FullEmbodimentParams {
        mode: Some("complete".to_string()),
        workspace_path: workspace.map(|w| w.to_string()),
        sparkler: sparkler.map(|s| s.to_string()),
    }
}

fn full_sources() -> EmbodimentSources {
    EmbodimentSources {
        identity_existed: true,
        sparkler_identity: Some("[identity]".to_string()),
        collaborator_profile: Some("[profile]".to_string()),
        workspace_map: Some("[map]".to_string()),
        collaboration_evolution: Some("[evolution]".to_string()),
        pattern_anchors: Some("[anchors]".to_string()),
        workspace: WorkspaceState::Missing,
    }
}

fn checkpoint(name: &str, modified: i128, content: &str) -> CheckpointFile {
    CheckpointFile {
        name: name.to_string(),
        is_file: true,
        modified: Some(modified),
        content: Some(content.to_string()),
    }
}

#[test]
fn document_without_a_workspace() {
    let text =
        generate_embodiment_content(&definition(), &single(), &params(None, None), &full_sources())
            .unwrap();
    assert_eq!(
        text,
        format!(
            "M:Nova\n\nC:Ada\n\nP[identity][profile][map][evolution][anchors]\n\n---\n\n{}",
            UNSPECIFIED
        )
    );
}

#[test]
fn workspace_named_current_counts_as_none() {
    let text = generate_embodiment_content(
        &definition(),
        &single(),
        &params(Some("current"), None),
        &full_sources(),
    )
    .unwrap();
    assert!(text.ends_with(&format!("[anchors]\n\n---\n\n{}", UNSPECIFIED)));
}

#[test]
fn workspace_without_state_is_reported() {
    let text = generate_embodiment_content(
        &definition(),
        &single(),
        &params(Some("/ws"), None),
        &full_sources(),
    )
    .unwrap();
    assert!(text.ends_with("[anchors]\n\n---\n\n*No .sparkle-space found at /ws*\n\n"));
}

#[test]
fn missing_workspace_map_gets_its_placeholder() {
    let mut sources = full_sources();
    sources.workspace_map = None;
    let text =
        generate_embodiment_content(&definition(), &single(), &params(None, None), &sources)
            .unwrap();
    assert!(text.contains("*Workspace map would be loaded dynamically*"));
    assert_eq!(
        text,
        format!(
            "M:Nova\n\nC:Ada\n\nP[identity][profile]*Workspace map would be loaded dynamically*[evolution][anchors]\n\n---\n\n{}",
            UNSPECIFIED
        )
    );
}

#[test]
fn every_missing_document_gets_its_placeholder() {
    let sources = EmbodimentSources {
        identity_existed: true,
        sparkler_identity: None,
        collaborator_profile: None,
        workspace_map: None,
        collaboration_evolution: None,
        pattern_anchors: None,
        workspace: WorkspaceState::Missing,
    };
    let text =
        generate_embodiment_content(&definition(), &single(), &params(None, None), &sources)
            .unwrap();
    assert_eq!(
        text,
        format!(
            "M:Nova\n\nC:Ada\n\nP*Sparkler identity would be loaded dynamically**Collaborator profile would be loaded dynamically**Workspace map would be loaded dynamically**Collaboration evolution would be loaded dynamically**Pattern anchors would be loaded dynamically*\n\n---\n\n{}",
            UNSPECIFIED
        )
    );
}

#[test]
fn new_identity_document_is_followed_by_the_note() {
    let mut sources = full_sources();
    sources.identity_existed = false;
    let text =
        generate_embodiment_content(&definition(), &single(), &params(None, None), &sources)
            .unwrap();
    assert!(text.contains(&format!("P[identity]{}[profile]", NOTE)));
}

#[test]
fn template_identity_keeps_the_note_until_edited() {
    let mut sources = full_sources();
    sources.sparkler_identity = Some(create_sparkler_identity_template("Nova"));
    let first =
        generate_embodiment_content(&definition(), &single(), &params(None, None), &sources)
            .unwrap();
    let second =
        generate_embodiment_content(&definition(), &single(), &params(None, None), &sources)
            .unwrap();
    assert!(first.contains(NOTE));
    assert_eq!(first, second);
    sources.sparkler_identity = Some("# Nova\nI am precise.".to_string());
    let edited =
        generate_embodiment_content(&definition(), &single(), &params(None, None), &sources)
            .unwrap();
    assert!(!edited.contains(NOTE));
}

#[test]
fn workspace_state_of_a_single_persona() {
    let mut sources = full_sources();
    sources.workspace = WorkspaceState::Present {
        working_memory: Some("{\"focus\":1}".to_string()),
        checkpoints: vec![checkpoint("checkpoint-1.md", 5, "# Checkpoint one")],
    };
    let text = generate_embodiment_content(
        &definition(),
        &single(),
        &params(Some("/ws"), None),
        &sources,
    )
    .unwrap();
    assert!(text.ends_with(
        "[anchors]\n\n---\n\n# Workspace Context\n\n## Working Memory\n\n```json\n{\"focus\":1}\n```\n\n## Checkpoints\n\n# Checkpoint one\n\n---\n\n"
    ));
    assert!(!text.contains("Multi-Sparkler"));
}

#[test]
fn workspace_state_of_several_personas_explains_sharing() {
    let mut sources = full_sources();
    sources.workspace = WorkspaceState::Present { working_memory: None, checkpoints: Vec::new() };
    let text = generate_embodiment_content(
        &definition(),
        &multi(),
        &params(Some("/ws"), Some("Sage")),
        &sources,
    )
    .unwrap();
    assert!(text.starts_with("M:Sage\n\nC:Ada\n\nP[identity]"));
    assert!(text.ends_with(&format!("[anchors]\n\n---\n\n# Workspace Context\n\n{}", SHARING)));
}

#[test]
fn only_the_latest_checkpoint_is_included() {
    let mut sources = full_sources();
    sources.workspace = WorkspaceState::Present {
        working_memory: None,
        checkpoints: vec![
            checkpoint("checkpoint-b.md", 200, "middle"),
            checkpoint("checkpoint-c.md", 300, "latest"),
            checkpoint("checkpoint-a.md", 100, "oldest"),
        ],
    };
    let text = generate_embodiment_content(
        &definition(),
        &single(),
        &params(Some("/ws"), None),
        &sources,
    )
    .unwrap();
    assert!(text.ends_with("# Workspace Context\n\n## Checkpoints\n\nlatest\n\n---\n\n"));
    assert!(!text.contains("middle"));
    assert!(!text.contains("oldest"));
}

#[test]
fn latest_checkpoint_that_cannot_be_read_adds_nothing() {
    let mut sources = full_sources();
    let mut unread = checkpoint("checkpoint-c.md", 300, "");
    unread.content = None;
    sources.workspace = WorkspaceState::Present {
        working_memory: None,
        checkpoints: vec![checkpoint("checkpoint-b.md", 200, "middle"), unread],
    };
    let text = generate_embodiment_content(
        &definition(),
        &single(),
        &params(Some("/ws"), None),
        &sources,
    )
    .unwrap();
    assert!(text.ends_with("[anchors]\n\n---\n\n# Workspace Context\n\n"));
}

#[test]
fn latest_checkpoint_selection() {
    let files = vec![
        checkpoint("a.md", 100, "a"),
        checkpoint("b.md", 300, "b"),
        checkpoint("c.md", 200, "c"),
    ];
    assert_eq!(latest_checkpoint(&files), Some(1));
    assert_eq!(latest_checkpoint(&Vec::new()), None);

    // Of checkpoints modified at the same time the last one wins.
    let ties = vec![checkpoint("a.md", 7, "a"), checkpoint("b.md", 7, "b"), checkpoint("c.md", 1, "c")];
    assert_eq!(latest_checkpoint(&ties), Some(1));

    // Times before 1970 are ordered too.
    let old = vec![checkpoint("a.md", -5, "a"), checkpoint("b.md", -9, "b")];
    assert_eq!(latest_checkpoint(&old), Some(0));
}

#[test]
fn entries_that_are_no_checkpoints_are_passed_over() {
    let mut directory = checkpoint("dir.md", 900, "x");
    directory.is_file = false;
    let mut undated = checkpoint("undated.md", 0, "x");
    undated.modified = None;
    let files = vec![
        checkpoint("notes.txt", 800, "x"),
        directory,
        undated,
        checkpoint(".md", 700, "x"),
        checkpoint("real.md", 1, "x"),
        checkpoint("md", 600, "x"),
    ];
    assert_eq!(latest_checkpoint(&files), Some(4));
    assert_eq!(latest_checkpoint(&files[..4].to_vec()), None);
}

#[test]
fn markdown_names() {
    assert!(has_markdown_name("checkpoint-2024-01-01-120000.md"));
    assert!(has_markdown_name("a.md"));
    assert!(has_markdown_name("..md"));
    assert!(!has_markdown_name(".md"));
    assert!(!has_markdown_name("md"));
    assert!(!has_markdown_name("a.MD"));
    assert!(!has_markdown_name("a.md.bak"));
    assert!(!has_markdown_name(""));
    for name in ["x.md", ".md", "a.b.md", "amd", "..md", "a.md "] {
        let by_path = std::path::Path::new(name).extension().map_or(false, |ext| ext == "md");
        assert_eq!(has_markdown_name(name), by_path);
    }
}

#[test]
fn unknown_persona_fails_the_assembly() {
    let error = generate_embodiment_content(
        &definition(),
        &multi(),
        &params(None, Some("Ghost")),
        &full_sources(),
    )
    .unwrap_err();
    assert_eq!(
        error.message(),
        "Failed to determine context directory: Sparkler 'Ghost' not found in config. Available sparklers: Sage, Nova. Use create_sparkler to create a new one."
    );
    match error {
        EmbodimentError::ContextDir { cause: ContextError::UnknownSparkler { name, available } } => {
            assert_eq!(name, "Ghost");
            assert_eq!(available, vec!["Sage".to_string(), "Nova".to_string()]);
        }
        other => panic!("unexpected error {:?}", other),
    }
}

#[test]
fn no_override_embodies_the_default_persona() {
    let text =
        generate_embodiment_content(&definition(), &multi(), &params(None, None), &full_sources())
            .unwrap();
    assert!(text.starts_with("M:Nova\n\nC:Ada\n\nP"));
}

#[test]
fn single_persona_accepts_any_name() {
    let text = generate_embodiment_content(
        &definition(),
        &single(),
        &params(None, Some("Ghost")),
        &full_sources(),
    )
    .unwrap();
    assert!(text.starts_with("M:Ghost\n\nC:Ada\n\nP"));
}

#[test]
fn error_texts() {
    let error = EmbodimentError::ConfigLoad { detail: "bad toml".to_string() };
    assert_eq!(error.message(), "Failed to load user config: bad toml");
    let error = EmbodimentError::ContextDir { cause: ContextError::NoSparkler };
    assert_eq!(
        error.message(),
        "Failed to determine context directory: No sparkler specified and no default found"
    );
}

#[test]
fn scaffold_of_a_new_persona_directory() {
    let missing = PersonaDirectory { exists: false, has_identity: false };
    let plan = plan_scaffold(&multi(), Some("Sage"), missing).unwrap();
    assert!(plan.create_directory);
    assert!(!plan.identity_existed);
    let names: Vec<&str> = plan.files.iter().map(|f| f.name.as_str()).collect();
    assert_eq!(names, vec!["sparkler-identity.md", "collaboration-evolution.md", "pattern-anchors.md"]);
    assert_eq!(plan.files[0].content, create_sparkler_identity_template("Sage"));

    // The second assembly finds what the first one wrote and writes nothing.
    let written = PersonaDirectory { exists: true, has_identity: true };
    let again = plan_scaffold(&multi(), Some("Sage"), written).unwrap();
    assert!(!again.create_directory);
    assert!(again.files.is_empty());
    assert!(again.identity_existed);
}

#[test]
fn scaffold_writes_a_missing_identity_document() {
    let dir = PersonaDirectory { exists: true, has_identity: false };
    let plan = plan_scaffold(&single(), None, dir).unwrap();
    assert!(!plan.create_directory);
    assert!(!plan.identity_existed);
    assert_eq!(plan.files.len(), 1);
    assert_eq!(plan.files[0].name, "sparkler-identity.md");
    // The heading takes the name that the persona is embodied under.
    assert_eq!(plan.files[0].content, create_sparkler_identity_template("Nova"));
    let unnamed = Config { human: HumanConfig { name: "Ada".to_string() }, ai: None, sparklers: None };
    let plan = plan_scaffold(&unnamed, None, dir).unwrap();
    assert_eq!(plan.files[0].content, create_sparkler_identity_template("Sparkle"));

    let plan = plan_scaffold(&single(), Some("Sage"), dir).unwrap();
    assert_eq!(plan.files[0].content, create_sparkler_identity_template("Sage"));

    let plan = plan_scaffold(&multi(), None, dir).unwrap();
    assert_eq!(plan.files[0].content, create_sparkler_identity_template("Nova"));
}

#[test]
fn scaffold_refuses_an_unknown_persona() {
    let dir = PersonaDirectory { exists: false, has_identity: false };
    let error = plan_scaffold(&multi(), Some("Ghost"), dir).unwrap_err();
    assert!(matches!(error, ContextError::UnknownSparkler { .. }));
}
