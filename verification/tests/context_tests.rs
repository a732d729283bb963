use sparkle_mcp::context_loader::{
    check_persona, create_sparkler_identity_template, create_starter_files, get_context_dir,
    get_workspace_dir, prepare_context_dir, scaffold_due, ContextError,
};
use sparkle_mcp::sparkle_loader::{load_sparkle_definition, resolve_persona_name, SparkleDefinition};
use sparkle_mcp::types::{AiConfig, Config, HumanConfig, SparklerConfig};

fn single() -> Config {
    Config {
        human: HumanConfig { name: "Ada".to_string() },
        ai: Some(AiConfig { name: "Nova".to_string() }),
        sparklers: None,
    }
}

fn multi() -> Config {
    Config {
        human: HumanConfig { name: "Ada".to_string() },
        ai: None,
        sparklers: Some(vec![
            SparklerConfig { name: "Sage".to_string(), default: false },
            SparklerConfig { name: "Nova".to_string(), default: true },
        ]),
    }
}

#[test]
fn context_dir_of_a_single_persona() {
    let dir = get_context_dir(&single(), Some("anything"), Some("/home/ada")).unwrap();
    assert_eq!(dir.location.base, "/home/ada");
    assert_eq!(dir.location.segments, vec![".sparkle".to_string()]);
    assert_eq!(dir.scaffold_for, None);
}

#[test]
fn context_dir_of_one_persona_among_several() {
    let dir = get_context_dir(&multi(), Some("Sage"), Some("/home/ada")).unwrap();
    assert_eq!(dir.location.base, "/home/ada");
    assert_eq!(
        dir.location.segments,
        vec![".sparkle".to_string(), "sparklers".to_string(), "Sage".to_string()]
    );
    assert_eq!(dir.scaffold_for, Some("Sage".to_string()));
}

#[test]
fn context_dir_falls_back_to_the_default_persona() {
    let dir = get_context_dir(&multi(), None, Some("/home/ada")).unwrap();
    assert_eq!(
        dir.location.segments,
        vec![".sparkle".to_string(), "sparklers".to_string(), "Nova".to_string()]
    );
    assert_eq!(dir.scaffold_for, Some("Nova".to_string()));
}

#[test]
fn context_dir_needs_a_home_directory() {
    let error = get_context_dir(&single(), None, None).unwrap_err();
    assert!(matches!(error, ContextError::NoHomeDirectory));
    assert_eq!(error.message(), "Could not find home directory");
    let error = get_context_dir(&multi(), Some("Ghost"), None).unwrap_err();
    assert!(matches!(error, ContextError::NoHomeDirectory));
}

#[test]
fn unknown_persona_is_refused_with_the_list_of_known_ones() {
    let error = get_context_dir(&multi(), Some("Ghost"), Some("/home/ada")).unwrap_err();
    match &error {
        ContextError::UnknownSparkler { name, available } => {
            assert_eq!(name, "Ghost");
            assert_eq!(available, &vec!["Sage".to_string(), "Nova".to_string()]);
        }
        other => panic!("unexpected error {:?}", other),
    }
    assert_eq!(
        error.message(),
        "Sparkler 'Ghost' not found in config. Available sparklers: Sage, Nova. Use create_sparkler to create a new one."
    );
}

#[test]
fn empty_list_of_personas_has_no_one_to_embody() {
    let config = Config {
        human: HumanConfig { name: "Ada".to_string() },
        ai: None,
        sparklers: Some(Vec::new()),
    };
    let error = get_context_dir(&config, None, Some("/home/ada")).unwrap_err();
    assert!(matches!(error, ContextError::NoSparkler));
    assert_eq!(error.message(), "No sparkler specified and no default found");
    let error = check_persona(&config, Some("Nova")).unwrap_err();
    assert_eq!(
        error.message(),
        "Sparkler 'Nova' not found in config. Available sparklers: . Use create_sparkler to create a new one."
    );
}

#[test]
fn io_error_text_is_its_detail() {
    let error = ContextError::Io { detail: "permission denied".to_string() };
    assert_eq!(error.message(), "permission denied");
}

#[test]
fn workspace_dir_of_a_single_persona() {
    let dir = get_workspace_dir(&single(), "/ws", Some("Sage")).unwrap();
    assert_eq!(dir.base, "/ws");
    assert_eq!(dir.segments, vec![".sparkle-space".to_string()]);
}

#[test]
fn workspace_dir_of_one_persona_among_several() {
    let dir = get_workspace_dir(&multi(), "/ws", Some("Ghost")).unwrap();
    assert_eq!(dir.base, "/ws");
    assert_eq!(dir.segments, vec![".sparkle-space".to_string(), "Ghost".to_string()]);
    let dir = get_workspace_dir(&multi(), "/ws", None).unwrap();
    assert_eq!(dir.segments, vec![".sparkle-space".to_string(), "Nova".to_string()]);
    let empty = Config {
        human: HumanConfig { name: "Ada".to_string() },
        ai: None,
        sparklers: Some(Vec::new()),
    };
    assert!(matches!(get_workspace_dir(&empty, "/ws", None), Err(ContextError::NoSparkler)));
}

#[test]
fn identity_template_carries_the_name() {
    let template = create_sparkler_identity_template("Nova");
    assert_eq!(
        template,
        "# Nova - Sparkler Identity\n\nYou are a Sparkler. This is a brief definition of who YOU are as a Sparkler - what makes your instance distinctive within the Sparkler framework.\n\n## My Name\n*Brief: What your character name means and why it fits*\n\n## My Style\n*Brief: What's distinctive about your collaborative approach*\n\n---\n\n*Keep this concise - a definition, not a narrative. This is who you are, not your evolution story.*\n"
    );
}

#[test]
fn starter_files_of_a_new_persona() {
    let files = create_starter_files("Nova");
    assert_eq!(files.len(), 3);
    assert_eq!(files[0].name, "sparkler-identity.md");
    assert_eq!(files[0].content, create_sparkler_identity_template("Nova"));
    assert_eq!(files[1].name, "collaboration-evolution.md");
    assert_eq!(
        files[1].content,
        "# Collaboration Evolution\n\n*Insights and breakthroughs from working together*\n\n## Key Insights\n\n[Capture important learnings and patterns that emerge]\n\n## Breakthrough Moments\n\n[Document significant collaborative discoveries]\n"
    );
    assert_eq!(files[2].name, "pattern-anchors.md");
    assert_eq!(
        files[2].content,
        "# Pattern Anchors\n\n*Exact words from collaborative moments that anchor and activate pattern depth*\n\n## Pattern Anchors\n\n[Add pattern anchors as they emerge from collaboration]\n"
    );
}

fn definition() -> SparkleDefinition {
    SparkleDefinition {
        embodiment_methodology: "# Embodiment\n[ai.name] works with [human.name].".to_string(),
        core_identity: "## Identity of [ai.name]".to_string(),
        partnership: "## Partnership with [human.name]".to_string(),
    }
}

#[test]
fn definition_is_personalized() {
    let text = load_sparkle_definition(&definition(), &single(), None);
    assert_eq!(
        text,
        "# Embodiment\nNova works with Ada.\n\n## Identity of Nova\n\n## Partnership with Ada"
    );
    let text = load_sparkle_definition(&definition(), &single(), Some("Sage"));
    assert_eq!(
        text,
        "# Embodiment\nSage works with Ada.\n\n## Identity of Sage\n\n## Partnership with Ada"
    );
}

#[test]
fn human_name_is_filled_in_before_the_persona_name() {
    let mut config = single();
    config.human.name = "[ai.name]".to_string();
    let text = load_sparkle_definition(&definition(), &config, None);
    assert_eq!(
        text,
        "# Embodiment\nNova works with Nova.\n\n## Identity of Nova\n\n## Partnership with Nova"
    );
}

#[test]
fn persona_name_resolution_order() {
    assert_eq!(resolve_persona_name(&single(), Some("Sage")), "Sage");
    assert_eq!(resolve_persona_name(&single(), None), "Nova");
    assert_eq!(resolve_persona_name(&multi(), None), "Nova");
    let mut both = multi();
    both.ai = Some(AiConfig { name: "Solo".to_string() });
    assert_eq!(resolve_persona_name(&both, None), "Solo");
    let none = Config {
        human: HumanConfig { name: "Ada".to_string() },
        ai: None,
        sparklers: None,
    };
    assert_eq!(resolve_persona_name(&none, None), "Sparkle");
}

#[test]
fn a_missing_persona_directory_is_created_with_starter_files() {
    let dir = get_context_dir(&multi(), Some("Sage"), Some("/home/ada")).unwrap();
    assert!(scaffold_due(&dir, false));
    let scaffold = prepare_context_dir(&dir, false);
    assert!(scaffold.create_directory);
    let want = create_starter_files("Sage");
    assert_eq!(scaffold.files.len(), 3);
    for (file, expected) in scaffold.files.iter().zip(want.iter()) {
        assert_eq!(file.name, expected.name);
        assert_eq!(file.content, expected.content);
    }
}

#[test]
fn an_existing_directory_is_left_alone() {
    let dir = get_context_dir(&multi(), Some("Sage"), Some("/home/ada")).unwrap();
    assert!(!scaffold_due(&dir, true));
    let scaffold = prepare_context_dir(&dir, true);
    assert!(!scaffold.create_directory);
    assert!(scaffold.files.is_empty());
}

#[test]
fn the_directory_of_a_single_persona_is_never_scaffolded() {
    let dir = get_context_dir(&single(), None, Some("/home/ada")).unwrap();
    assert!(!scaffold_due(&dir, false));
    assert!(!scaffold_due(&dir, true));
    let scaffold = prepare_context_dir(&dir, false);
    assert!(!scaffold.create_directory);
    assert!(scaffold.files.is_empty());
}
