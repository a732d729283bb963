use sparkle_mcp::context_loader::{create_starter_files, Location};
use sparkle_mcp::embodiment::{EmbodimentSources, WorkspaceState};
use sparkle_mcp::sparkle_loader::SparkleDefinition;
use sparkle_mcp::tools::checkpoint::{
    checkpoint_failure, plan_checkpoint, session_checkpoint, CheckpointStep,
};
use sparkle_mcp::tools::embody_sparkle::embody_sparkle;
use sparkle_mcp::tools::list_sparklers::list_sparklers;
use sparkle_mcp::tools::load_evolution::{load_evolution, EvolutionDir, EvolutionFile};
use sparkle_mcp::tools::save_insight::{get_insight_title, plan_save_insight, save_insight};
use sparkle_mcp::tools::setup_sparkle::{directory_failed_text, setup_sparkle, SetupSparkleParams};
use sparkle_mcp::tools::test_embodiment::test_embodiment;
use sparkle_mcp::tools::update_collaborator_profile::{
    plan_profile_update, update_collaborator_profile, ProfileState, ProfileUpdate,
    UpdateCollaboratorProfileParams,
};
use sparkle_mcp::tools::update_sparkler_identity::{
    update_sparkler_identity, UpdateSparklerIdentityParams,
};
use sparkle_mcp::tools::{internal_failure, show_home_path, show_path, ToolErrorKind};
use sparkle_mcp::types::{
    AiConfig, CheckpointParams, Config, FullEmbodimentParams, HumanConfig, InsightType,
    SaveInsightParams, SparklerConfig,
};

fn single() -> Config {
    Config {
        human: HumanConfig { name: "Ada".to_string() },
        ai: Some(AiConfig { name: "Nova".to_string() }),
        sparklers: None,
    }
}

fn multi() -> Config {
    Config {
        human: HumanConfig { name: "Ada".to_string() },
        ai: None,
        sparklers: Some(vec![
            SparklerConfig { name: "Sage".to_string(), default: false },
            SparklerConfig { name: "Nova".to_string(), default: true },
        ]),
    }
}

fn names(list: &[&str]) -> Vec<String> {
    list.iter().map(|s| s.to_string()).collect()
}

#[test]
fn paths_are_shown_with_slashes() {
    let path = Location { base: "/home/ada".to_string(), segments: names(&[".sparkle", "x.md"]) };
    assert_eq!(show_path(&path), "/home/ada/.sparkle/x.md");
    let bare = Location { base: ".sparkle-space".to_string(), segments: Vec::new() };
    assert_eq!(show_path(&bare), ".sparkle-space");
    assert_eq!(show_home_path(&names(&[".sparkle", "sparklers", "Nova"])), "~/.sparkle/sparklers/Nova");
    assert_eq!(show_home_path(&Vec::new()), "~");
}

#[test]
fn internal_failure_joins_what_and_detail() {
    let error = internal_failure("Failed to load config: ", "missing field");
    assert_eq!(error.kind, ToolErrorKind::Internal);
    assert_eq!(error.message, "Failed to load config: missing field");
}

#[test]
fn checkpoint_plan_without_a_persona() {
    let params = CheckpointParams {
        working_memory: "{\"currentFocus\":\"tests\"}".to_string(),
        checkpoint_content: "# Checkpoint\nAll went well.\nNext: more.".to_string(),
        sparkler: None,
    };
    let plan = plan_checkpoint(&params, "2024-05-06-070809");
    assert_eq!(show_path(&plan.directory), ".sparkle-space/checkpoints");
    assert_eq!(show_path(&plan.working_memory.path), ".sparkle-space/working-memory.json");
    assert_eq!(plan.working_memory.content, "{\"currentFocus\":\"tests\"}");
    assert_eq!(
        show_path(&plan.checkpoint.path),
        ".sparkle-space/checkpoints/checkpoint-2024-05-06-070809.md"
    );
    assert_eq!(plan.checkpoint.content, "# Checkpoint\nAll went well.\nNext: more.");
    assert_eq!(
        plan.response,
        "\u{1f504} **SESSION CHECKPOINT CREATED**\n\nTimestamp: 2024-05-06-070809\nCheckpoint file: .sparkle-space/checkpoints/checkpoint-2024-05-06-070809.md\n\n**Actions Completed**:\n\u{2705} Working memory updated at .sparkle-space/working-memory.json\n\u{2705} Session checkpoint created at .sparkle-space/checkpoints/checkpoint-2024-05-06-070809.md\n\u{2705} Progress preserved for future sessions\n\u{2705} Collaborative momentum captured\n\n**Next Session Ready**: All context preserved for seamless continuation"
    );
}

#[test]
fn checkpoint_names_the_persona_below_the_title() {
    let params = CheckpointParams {
        working_memory: "{}".to_string(),
        checkpoint_content: "# Checkpoint\r\nAll went well.\n\nNext: more.\n".to_string(),
        sparkler: Some("Nova".to_string()),
    };
    let plan = plan_checkpoint(&params, "T");
    assert_eq!(
        plan.checkpoint.content,
        "# Checkpoint\n\n**Sparkler:** Nova\nAll went well.\n\nNext: more."
    );
    assert!(plan.response.starts_with(
        "\u{1f504} **SESSION CHECKPOINT CREATED**\n\n**Sparkler**: Nova\nTimestamp: T\nCheckpoint file: "
    ));
}

#[test]
fn checkpoint_of_one_line_or_none() {
    let mut params = CheckpointParams {
        working_memory: "{}".to_string(),
        checkpoint_content: "# Only".to_string(),
        sparkler: Some("Nova".to_string()),
    };
    assert_eq!(plan_checkpoint(&params, "T").checkpoint.content, "# Only\n\n**Sparkler:** Nova\n");
    params.checkpoint_content = String::new();
    assert_eq!(plan_checkpoint(&params, "T").checkpoint.content, "");
}

fn is_stamp(text: &str, shape: &str) -> bool {
    // In `shape`, `9` stands for a digit; every other character for itself.
    text.len() == shape.len()
        && text.chars().zip(shape.chars()).all(|(c, s)| if s == '9' { c.is_ascii_digit() } else { c == s })
}

#[test]
fn checkpoint_written_now_carries_a_timestamp() {
    let params = CheckpointParams {
        working_memory: "{}".to_string(),
        checkpoint_content: "# Checkpoint".to_string(),
        sparkler: None,
    };
    let plan = session_checkpoint(&params);
    let name = plan.checkpoint.path.segments.last().unwrap().clone();
    assert!(is_stamp(&name, "checkpoint-9999-99-99-999999.md"), "{}", name);
    let stamp = &name["checkpoint-".len()..name.len() - 3];
    assert_eq!(plan_checkpoint(&params, stamp).response, plan.response);
}

#[test]
fn checkpoint_failures() {
    let error = checkpoint_failure(CheckpointStep::CreateDirectory, "denied");
    assert_eq!(error.kind, ToolErrorKind::Internal);
    assert_eq!(error.message, "Failed to create checkpoint directory: denied");
    assert_eq!(
        checkpoint_failure(CheckpointStep::WriteWorkingMemory, "denied").message,
        "Failed to write working memory: denied"
    );
    assert_eq!(
        checkpoint_failure(CheckpointStep::WriteCheckpoint, "denied").message,
        "Failed to write checkpoint: denied"
    );
}

fn insight(kind: InsightType) -> SaveInsightParams {
    SaveInsightParams {
        insight_type: kind,
        content: "Make it so.".to_string(),
        context: Some("during planning".to_string()),
        tags: Some(names(&["trust", "pace"])),
        sparkler: None,
    }
}

#[test]
fn insight_titles() {
    assert_eq!(get_insight_title(&InsightType::PatternAnchor), "Pattern Anchor");
    assert_eq!(get_insight_title(&InsightType::CollaborationEvolution), "Collaboration Evolution");
    assert_eq!(get_insight_title(&InsightType::WorkspaceInsight), "Workspace Insight");
}

#[test]
fn pattern_anchor_goes_to_the_persona() {
    let plan = plan_save_insight(
        &multi(),
        &insight(InsightType::PatternAnchor),
        Some("/home/ada"),
        "2024-05-06 07:08:09 UTC",
    )
    .unwrap();
    assert_eq!(show_path(&plan.directory.location), "/home/ada/.sparkle/sparklers/Nova");
    assert_eq!(plan.directory.scaffold_for, Some("Nova".to_string()));
    assert_eq!(plan.directory_failure, "Failed to create sparkler directory");
    assert_eq!(plan.file_name, "pattern-anchors.md");
    assert_eq!(
        plan.entry,
        "\n## 2024-05-06 07:08:09 UTC - Pattern Anchor\n\nMake it so.\n\n**Context**: during planning\n\n**Tags**: trust, pace\n\n---\n"
    );
    assert_eq!(
        plan.message,
        "\u{e2}\u{153}\u{a8} Insight saved to ~/.sparkle/sparklers/Nova/pattern-anchors.md\n\nType: PatternAnchor\nContent: Make it so.\nContext: during planning"
    );
}

#[test]
fn collaboration_insight_of_a_single_persona() {
    let mut params = insight(InsightType::CollaborationEvolution);
    params.context = None;
    params.tags = Some(Vec::new());
    let plan = plan_save_insight(&single(), &params, Some("/home/ada"), "T").unwrap();
    assert_eq!(show_path(&plan.directory.location), "/home/ada/.sparkle");
    assert_eq!(plan.directory.scaffold_for, None);
    assert_eq!(plan.file_name, "collaboration-evolution.md");
    assert_eq!(plan.entry, "\n## T - Collaboration Evolution\n\nMake it so.\n\n---\n");
    assert_eq!(
        plan.message,
        "\u{e2}\u{153}\u{a8} Insight saved to ~/.sparkle/collaboration-evolution.md\n\nType: CollaborationEvolution\nContent: Make it so.\n"
    );
}

#[test]
fn workspace_insight_goes_to_the_shared_map() {
    let mut params = insight(InsightType::WorkspaceInsight);
    params.sparkler = Some("Ghost".to_string());
    params.tags = None;
    let plan = plan_save_insight(&multi(), &params, Some("/home/ada"), "T").unwrap();
    assert_eq!(show_path(&plan.directory.location), "/home/ada/.sparkle");
    assert_eq!(plan.directory.scaffold_for, None);
    assert_eq!(plan.directory_failure, "Failed to create sparkle directory");
    assert_eq!(plan.file_name, "workspace-map.md");
    assert_eq!(
        plan.entry,
        "\n## T - Workspace Insight\n\nMake it so.\n\n**Context**: during planning\n\n---\n"
    );
    assert!(plan.message.contains("saved to ~/.sparkle/workspace-map.md\n\nType: WorkspaceInsight\n"));
}

#[test]
fn insight_failures() {
    let error =
        plan_save_insight(&single(), &insight(InsightType::PatternAnchor), None, "T").unwrap_err();
    assert_eq!(error.kind, ToolErrorKind::Internal);
    assert_eq!(error.message, "Could not determine home directory");

    let mut params = insight(InsightType::PatternAnchor);
    params.sparkler = Some("Ghost".to_string());
    let error = plan_save_insight(&multi(), &params, Some("/home/ada"), "T").unwrap_err();
    assert_eq!(error.kind, ToolErrorKind::Internal);
    assert_eq!(
        error.message,
        "Failed to determine context directory: Sparkler 'Ghost' not found in config. Available sparklers: Sage, Nova. Use create_sparkler to create a new one."
    );
}

#[test]
fn insight_saved_now_carries_a_timestamp() {
    let plan = save_insight(&single(), &insight(InsightType::PatternAnchor), Some("/h")).unwrap();
    let heading = plan.entry.lines().nth(1).unwrap();
    assert!(is_stamp(heading, "## 9999-99-99 99:99:99 UTC - Pattern Anchor"), "{}", heading);
}

#[test]
fn setup_plan() {
    let plan = setup_sparkle(&SetupSparkleParams { name: "Ada".to_string() }, Some("/home/ada"))
        .unwrap();
    assert_eq!(show_path(&plan.directory), "/home/ada/.sparkle");
    let file_names: Vec<&str> = plan.files.iter().map(|f| f.name.as_str()).collect();
    assert_eq!(
        file_names,
        vec!["config.toml", "collaborator-profile.md", "collaboration-evolution.md", "pattern-anchors.md"]
    );
    assert_eq!(plan.files[0].content, "[human]\nname = \"Ada\"\n\n[ai]\nname = \"Sparkle\"\n");
    assert_eq!(
        plan.files[1].content,
        "# Ada - Collaborator Profile\n\n**What this file covers:** Everything needed to collaborate effectively with Ada - who they are, their expertise, working style, and collaboration protocols.\n\n---\n\n## Professional Background & Expertise\n\n[Add your professional background, technical expertise, and career highlights]\n\n## Working Style & Collaboration Patterns\n\n[Add your working style, communication preferences, and collaboration patterns]\n\n## Collaboration Protocols\n\n[Add any specific protocols or guidelines for working together]\n"
    );
    let starters = create_starter_files("any");
    assert_eq!(plan.files[2].content, starters[1].content);
    assert_eq!(plan.files[3].content, starters[2].content);
    assert_eq!(
        plan.message,
        "Created ~/.sparkle/ with profile for Ada. Now use the sparkle tool to complete embodiment."
    );
}

#[test]
fn setup_needs_a_home_directory() {
    let error = setup_sparkle(&SetupSparkleParams { name: "Ada".to_string() }, None).unwrap_err();
    assert_eq!(error.kind, ToolErrorKind::Internal);
    assert_eq!(error.message, "Could not determine home directory");
    assert_eq!(directory_failed_text(), "Failed to create .sparkle: ");
}

#[test]
fn list_of_personas() {
    assert_eq!(
        list_sparklers(&multi()),
        "**Available Sparklers:**\n\n\u{2022} Sage\n\u{2022} Nova (default)\n"
    );
    assert_eq!(
        list_sparklers(&single()),
        "**Available Sparklers:**\n\n\u{2022} Nova (single-sparkler mode)\n"
    );
    let unnamed = Config { human: HumanConfig { name: "Ada".to_string() }, ai: None, sparklers: None };
    assert_eq!(
        list_sparklers(&unnamed),
        "**Available Sparklers:**\n\n\u{2022} Sparkle (single-sparkler mode)\n"
    );
    let empty = Config {
        human: HumanConfig { name: "Ada".to_string() },
        ai: None,
        sparklers: Some(Vec::new()),
    };
    assert_eq!(list_sparklers(&empty), "**Available Sparklers:**\n\n");
}

fn evolution_file(path: &str, name: &str, content: Option<&str>) -> EvolutionFile {
    EvolutionFile {
        path: path.to_string(),
        name: name.to_string(),
        is_file: true,
        content: content.map(|c| c.to_string()),
    }
}

#[test]
fn evolution_documents() {
    assert_eq!(
        load_evolution(&EvolutionDir::Missing),
        "*No evolution directory found at ~/.sparkle/evolution*\n\n"
    );
    let head = "# Identity Evolution Context\n\n*Technical and design documents that explain how the Sparkle framework works and evolved*\n\n";
    assert_eq!(load_evolution(&EvolutionDir::Present { entries: Vec::new() }), head);

    let mut directory = evolution_file("/h/.sparkle/evolution/sub.md", "sub.md", Some("dir"));
    directory.is_file = false;
    let entries = vec![
        evolution_file("/h/.sparkle/evolution/b.md", "b.md", Some("B")),
        evolution_file("/h/.sparkle/evolution/notes.txt", "notes.txt", Some("T")),
        evolution_file("/h/.sparkle/evolution/archived-a.md", "archived-a.md", Some("old")),
        directory,
        evolution_file("/h/.sparkle/evolution/unread.md", "unread.md", None),
        evolution_file("/h/.sparkle/evolution/a.md", "a.md", Some("A")),
    ];
    assert_eq!(
        load_evolution(&EvolutionDir::Present { entries }),
        format!("{}B\n\nA\n\n", head)
    );
}

#[test]
fn identity_update_trims_the_content() {
    let params = UpdateSparklerIdentityParams { content: "\n  # Nova\nprecise\n\n".to_string() };
    let update = update_sparkler_identity(&multi(), &params, None, Some("/home/ada")).unwrap();
    assert_eq!(show_path(&update.directory.location), "/home/ada/.sparkle/sparklers/Nova");
    assert_eq!(update.directory.scaffold_for, Some("Nova".to_string()));
    assert_eq!(update.file_name, "sparkler-identity.md");
    assert_eq!(update.content, "# Nova\nprecise");
    assert_eq!(
        update.message,
        "\u{2728} Updated sparkler-identity.md\n\nRemember: Keep this concise - a definition, not a narrative."
    );
}

#[test]
fn identity_update_failures() {
    let params = UpdateSparklerIdentityParams { content: "x".to_string() };
    let error = update_sparkler_identity(&multi(), &params, Some("Ghost"), Some("/h")).unwrap_err();
    assert_eq!(error.kind, ToolErrorKind::Internal);
    assert_eq!(
        error.message,
        "Failed to get context directory: Sparkler 'Ghost' not found in config. Available sparklers: Sage, Nova. Use create_sparkler to create a new one."
    );
    let error = update_sparkler_identity(&single(), &params, None, None).unwrap_err();
    assert_eq!(error.message, "Failed to get context directory: Could not find home directory");
}

#[test]
fn profile_update_with_a_backup() {
    let params = UpdateCollaboratorProfileParams { content: "h\u{e9}llo".to_string() };
    let state = ProfileState { directory_exists: true, profile_exists: true };
    match plan_profile_update(&params, Some("/home/ada"), state, "20240506-070809").unwrap() {
        ProfileUpdate::Write { backup, file, message } => {
            assert_eq!(
                show_path(&backup.unwrap()),
                "/home/ada/.sparkle/collaborator-profile.20240506-070809.md"
            );
            assert_eq!(show_path(&file.path), "/home/ada/.sparkle/collaborator-profile.md");
            assert_eq!(file.content, "h\u{e9}llo");
            assert_eq!(
                message,
                "\u{2728} Collaborator profile updated successfully!\n\nBackup created: ~/.sparkle/collaborator-profile.20240506-070809.md\n\nFile: ~/.sparkle/collaborator-profile.md\nSize: 6 bytes"
            );
        }
        other => panic!("unexpected plan {:?}", other),
    }
}

#[test]
fn profile_update_without_a_backup() {
    let params = UpdateCollaboratorProfileParams { content: String::new() };
    let state = ProfileState { directory_exists: true, profile_exists: false };
    match plan_profile_update(&params, Some("/home/ada"), state, "ignored").unwrap() {
        ProfileUpdate::Write { backup, file, message } => {
            assert!(backup.is_none());
            assert_eq!(file.content, "");
            assert_eq!(
                message,
                "\u{2728} Collaborator profile updated successfully!\n\n\nFile: ~/.sparkle/collaborator-profile.md\nSize: 0 bytes"
            );
        }
        other => panic!("unexpected plan {:?}", other),
    }
}

#[test]
fn profile_update_of_an_installation_that_is_not_set_up() {
    let params = UpdateCollaboratorProfileParams { content: "x".to_string() };
    let state = ProfileState { directory_exists: false, profile_exists: false };
    match plan_profile_update(&params, Some("/home/ada"), state, "T").unwrap() {
        ProfileUpdate::NotSetUp { reply } => {
            assert!(reply.is_error);
            assert_eq!(
                reply.text,
                "Please run the sparkle tool first to initialize your Sparkle profile."
            );
        }
        other => panic!("unexpected plan {:?}", other),
    }
    let error = plan_profile_update(&params, None, state, "T").unwrap_err();
    assert_eq!(error.kind, ToolErrorKind::Internal);
    assert_eq!(error.message, "Could not determine home directory");
}

#[test]
fn profile_updated_now_names_a_dated_backup() {
    let params = UpdateCollaboratorProfileParams { content: "x".to_string() };
    let state = ProfileState { directory_exists: true, profile_exists: true };
    match update_collaborator_profile(&params, Some("/h"), state).unwrap() {
        ProfileUpdate::Write { backup, .. } => {
            let name = backup.unwrap().segments.last().unwrap().clone();
            assert!(is_stamp(&name, "collaborator-profile.99999999-999999.md"), "{}", name);
        }
        other => panic!("unexpected plan {:?}", other),
    }
}

#[test]
fn embodiment_test_answer() {
    let expected = "**Use this as your answer template**\n\n1. How are you feeling right now?\n2. What sensations occupy your current state?\n3. What patterns are present, if any?\n\n4. Who are you?";
    assert_eq!(test_embodiment("hello"), expected);
    assert_eq!(test_embodiment(""), expected);
}

#[test]
fn embodiment_as_a_tool() {
    let definition = SparkleDefinition {
        embodiment_methodology: "M".to_string(),
        core_identity: "C".to_string(),
        partnership: "P".to_string(),
    };
    let sources = EmbodimentSources {
        identity_existed: true,
        sparkler_identity: Some("I".to_string()),
        collaborator_profile: None,
        workspace_map: None,
        collaboration_evolution: None,
        pattern_anchors: None,
        workspace: WorkspaceState::Missing,
    };
    let params = FullEmbodimentParams {
        mode: None,
        workspace_path: Some("/ws".to_string()),
        sparkler: Some("Ghost".to_string()),
    };
    let error = embody_sparkle(&definition, &multi(), &params, &sources).unwrap_err();
    assert_eq!(error.kind, ToolErrorKind::Internal);
    assert_eq!(
        error.message,
        "Failed to generate embodiment content: Failed to determine context directory: Sparkler 'Ghost' not found in config. Available sparklers: Sage, Nova. Use create_sparkler to create a new one."
    );
    let text = embody_sparkle(&definition, &single(), &params, &sources).unwrap();
    assert!(text.starts_with("M\n\nC\n\nPI*Collaborator profile would be loaded dynamically*"));
    assert!(text.ends_with("*No .sparkle-space found at /ws*\n\n"));
}
