use sparkle_mcp::context_loader::create_starter_files;
use sparkle_mcp::tools::create_sparkler::{create_sparkler, move_failure, CreateSparklerParams};
use sparkle_mcp::tools::fetch_profile_data::{
    fetch_blog_rss, fetch_github_profile, fetch_profile_data, fetch_profile_source, fetched_from,
    github_user_not_found, top_three, url_fetch_failed, FetchProfileDataParams, FetchedContent,
    GithubProfile, ProfileSource, SourceFetch,
};
use sparkle_mcp::tools::rename_character::{rename_character, RenameCharacterParams};
use sparkle_mcp::tools::rename_sparkler::{rename_response, rename_sparkler, RenameSparklerParams};
use sparkle_mcp::tools::{show_path, ToolErrorKind};
use sparkle_mcp::types::{AiConfig, Config, HumanConfig, SparklerConfig};

fn single() -> Config {
    Config {
        human: HumanConfig { name: "Ada".to_string() },
        ai: Some(AiConfig { name: "Nova".to_string() }),
        sparklers: None,
    }
}

fn multi() -> Config {
    Config {
        human: HumanConfig { name: "Ada".to_string() },
        ai: None,
        sparklers: Some(vec![
            SparklerConfig { name: "Sage".to_string(), default: false },
            SparklerConfig { name: "Nova".to_string(), default: true },
        ]),
    }
}

fn personas(config: &Config) -> Vec<(String, bool)> {
    config.sparklers.as_ref().unwrap().iter().map(|s| (s.name.clone(), s.default)).collect()
}

fn rename(new_name: &str, old_name: Option<&str>) -> RenameSparklerParams {
    RenameSparklerParams { new_name: new_name.to_string(), old_name: old_name.map(|s| s.to_string()) }
}

#[test]
fn rename_the_default_persona() {
    let plan = rename_sparkler(&multi(), &rename("  Lumen ", None), Some("/home/ada")).unwrap();
    assert_eq!(plan.old_name, "Nova");
    assert_eq!(plan.new_name, "Lumen");
    assert_eq!(
        personas(&plan.config),
        vec![("Sage".to_string(), false), ("Lumen".to_string(), true)]
    );
    assert_eq!(plan.config.human.name, "Ada");
    assert!(plan.config.ai.is_none());
    assert_eq!(show_path(&plan.config_path), "/home/ada/.sparkle/config.toml");
    let dirs = plan.directories.unwrap();
    assert_eq!(show_path(&dirs.from), "/home/ada/.sparkle/sparklers/Nova");
    assert_eq!(show_path(&dirs.to), "/home/ada/.sparkle/sparklers/Lumen");
    assert_eq!(
        show_path(&dirs.working_memory),
        "/home/ada/.sparkle/sparklers/Nova/working-memory.json"
    );
}

#[test]
fn rename_a_persona_by_name() {
    let plan = rename_sparkler(&multi(), &rename("Oak", Some("Sage")), Some("/h")).unwrap();
    assert_eq!(plan.old_name, "Sage");
    assert_eq!(personas(&plan.config), vec![("Oak".to_string(), false), ("Nova".to_string(), true)]);
}

#[test]
fn rename_to_the_own_name_is_accepted() {
    let plan = rename_sparkler(&multi(), &rename("Nova", None), Some("/h")).unwrap();
    assert_eq!(plan.old_name, "Nova");
    assert_eq!(plan.new_name, "Nova");
    assert_eq!(personas(&plan.config), personas(&multi()));
}

#[test]
fn rename_the_single_persona() {
    let plan = rename_sparkler(&single(), &rename("Lumen", Some("ignored")), Some("/h")).unwrap();
    assert_eq!(plan.old_name, "Nova");
    assert_eq!(plan.new_name, "Lumen");
    assert_eq!(plan.config.ai.as_ref().unwrap().name, "Lumen");
    assert!(plan.config.sparklers.is_none());
    assert!(plan.directories.is_none());

    let unnamed = Config { human: HumanConfig { name: "Ada".to_string() }, ai: None, sparklers: None };
    let plan = rename_sparkler(&unnamed, &rename("Lumen", None), Some("/h")).unwrap();
    assert_eq!(plan.old_name, "Sparkle");
    assert!(plan.config.ai.is_none());
}

#[test]
fn rename_refusals() {
    let error = rename_sparkler(&multi(), &rename(" \n", None), Some("/h")).unwrap_err();
    assert_eq!(error.kind, ToolErrorKind::InvalidParams);
    assert_eq!(error.message, "Character name cannot be empty");

    let error = rename_sparkler(&multi(), &rename("Lumen", None), None).unwrap_err();
    assert_eq!(error.kind, ToolErrorKind::Internal);
    assert_eq!(error.message, "Could not determine home directory");

    let error = rename_sparkler(&multi(), &rename("Lumen", Some("Ghost")), Some("/h")).unwrap_err();
    assert_eq!(error.kind, ToolErrorKind::InvalidParams);
    assert_eq!(error.message, "Sparkler 'Ghost' not found");

    let error = rename_sparkler(&multi(), &rename("Sage", None), Some("/h")).unwrap_err();
    assert_eq!(error.kind, ToolErrorKind::InvalidParams);
    assert_eq!(error.message, "A sparkler named 'Sage' already exists");

    let unflagged = Config {
        human: HumanConfig { name: "Ada".to_string() },
        ai: None,
        sparklers: Some(vec![SparklerConfig { name: "Sage".to_string(), default: false }]),
    };
    let error = rename_sparkler(&unflagged, &rename("Lumen", None), Some("/h")).unwrap_err();
    assert_eq!(error.kind, ToolErrorKind::Internal);
    assert_eq!(error.message, "No default sparkler found");
}

#[test]
fn rename_answers() {
    let tail = "The change will take effect on your next embodiment. Your Sparkle framework and all patterns remain the same - only your character name has changed.";
    assert_eq!(
        rename_response("Nova", "Lumen", false, false),
        format!("\u{2728} Sparkler renamed!\n\nPrevious name: Nova\nNew name: Lumen\n\n{}", tail)
    );
    assert_eq!(
        rename_response("Nova", "Lumen", true, true),
        format!(
            "\u{2728} Sparkler renamed!\n\nPrevious name: Nova\nNew name: Lumen\n\n\u{26a0}\u{fe0f}  Active working memory detected - consider creating a checkpoint before renaming\n\u{1f4c1} Renamed directory: sparklers/Nova \u{2192} sparklers/Lumen\n\n{}",
            tail
        )
    );
    assert_eq!(
        rename_response("Nova", "Lumen", true, false),
        format!(
            "\u{2728} Sparkler renamed!\n\nPrevious name: Nova\nNew name: Lumen\n\n\u{26a0}\u{fe0f}  Active working memory detected - consider creating a checkpoint before renaming\n\n{}",
            tail
        )
    );
    assert_eq!(
        rename_response("Nova", "Lumen", false, true),
        format!(
            "\u{2728} Sparkler renamed!\n\nPrevious name: Nova\nNew name: Lumen\n\n\u{1f4c1} Renamed directory: sparklers/Nova \u{2192} sparklers/Lumen\n\n{}",
            tail
        )
    );
}

#[test]
fn rename_character_of_a_single_persona() {
    let params = RenameCharacterParams { new_name: " Lumen\t".to_string() };
    let rename = rename_character(&single(), &params).unwrap();
    assert_eq!(rename.config.ai.as_ref().unwrap().name, "Lumen");
    assert_eq!(rename.config.human.name, "Ada");
    assert_eq!(
        rename.response,
        "\u{2728} Character name updated!\n\nPrevious name: Nova\nNew name: Lumen\n\nThe change will take effect on your next embodiment. Your Sparkle framework and all patterns remain the same - only your character name has changed."
    );
    let error =
        rename_character(&single(), &RenameCharacterParams { new_name: "  ".to_string() }).unwrap_err();
    assert_eq!(error.kind, ToolErrorKind::InvalidParams);
    assert_eq!(error.message, "Character name cannot be empty");
}

#[test]
fn create_a_persona_among_several() {
    let params = CreateSparklerParams { name: " Oak ".to_string() };
    let plan = create_sparkler(&multi(), &params, Some("/home/ada")).unwrap();
    assert!(plan.migration.is_none());
    let creation = plan.outcome.unwrap();
    assert_eq!(show_path(&creation.directory), "/home/ada/.sparkle/sparklers/Oak");
    assert_eq!(show_path(&creation.config_path), "/home/ada/.sparkle/config.toml");
    assert_eq!(
        personas(&creation.config),
        vec![("Sage".to_string(), false), ("Nova".to_string(), true), ("Oak".to_string(), false)]
    );
    let expected = create_starter_files("Oak");
    assert_eq!(creation.files.len(), 3);
    for (file, want) in creation.files.iter().zip(expected.iter()) {
        assert_eq!(file.name, want.name);
        assert_eq!(file.content, want.content);
    }
    assert_eq!(
        creation.message,
        "\u{2728} Created Oak!\nUse embody_sparkle(sparkler='Oak') to activate."
    );
}

#[test]
fn first_new_persona_migrates_the_single_one() {
    let params = CreateSparklerParams { name: "Oak".to_string() };
    let plan = create_sparkler(&single(), &params, Some("/home/ada")).unwrap();
    let migration = plan.migration.unwrap();
    assert_eq!(migration.current_name, "Nova");
    assert_eq!(show_path(&migration.sparklers_dir), "/home/ada/.sparkle/sparklers");
    assert_eq!(show_path(&migration.directory), "/home/ada/.sparkle/sparklers/Nova");
    assert_eq!(
        migration.moves,
        vec![
            "collaboration-context.md".to_string(),
            "collaboration-evolution.md".to_string(),
            "pattern-anchors.md".to_string()
        ]
    );
    let creation = plan.outcome.unwrap();
    assert!(creation.config.ai.is_none());
    assert_eq!(
        personas(&creation.config),
        vec![("Nova".to_string(), true), ("Oak".to_string(), false)]
    );
    assert_eq!(
        creation.message,
        "\u{1f504} Migrating to multi-sparkler setup...\n\u{2705} Moved Nova to sparklers/ (default)\n\u{2728} Created Oak!\nUse embody_sparkle(sparkler='Oak') to activate."
    );
}

#[test]
fn create_refusals() {
    let error = create_sparkler(&multi(), &CreateSparklerParams { name: " ".to_string() }, Some("/h"))
        .unwrap_err();
    assert_eq!(error.kind, ToolErrorKind::InvalidParams);
    assert_eq!(error.message, "Sparkler name cannot be empty");

    let error =
        create_sparkler(&multi(), &CreateSparklerParams { name: "Oak".to_string() }, None).unwrap_err();
    assert_eq!(error.kind, ToolErrorKind::Internal);
    assert_eq!(error.message, "Could not determine home directory");

    let plan =
        create_sparkler(&multi(), &CreateSparklerParams { name: "Sage".to_string() }, Some("/h")).unwrap();
    let error = plan.outcome.unwrap_err();
    assert_eq!(error.kind, ToolErrorKind::InvalidParams);
    assert_eq!(error.message, "Sparkler 'Sage' already exists");

    // The migration is due even where the new name is the one in use.
    let plan =
        create_sparkler(&single(), &CreateSparklerParams { name: "Nova".to_string() }, Some("/h")).unwrap();
    assert!(plan.migration.is_some());
    assert_eq!(plan.outcome.unwrap_err().message, "Sparkler 'Nova' already exists");

    let error = move_failure("pattern-anchors.md", "denied");
    assert_eq!(error.kind, ToolErrorKind::Internal);
    assert_eq!(error.message, "Failed to move pattern-anchors.md: denied");
}

fn source(kind: &str, value: &str) -> ProfileSource {
    ProfileSource { source_type: kind.to_string(), value: value.to_string() }
}

#[test]
fn sources_by_kind() {
    match fetch_profile_source(&source("github", "ada")) {
        SourceFetch::Github { user_url, repos_url } => {
            assert_eq!(user_url, "https://api.github.com/users/ada");
            assert_eq!(repos_url, "https://api.github.com/users/ada/repos?sort=updated&per_page=100");
        }
        other => panic!("unexpected fetch {:?}", other),
    }
    match fetch_profile_source(&source("blog", "https://a.example/feed")) {
        SourceFetch::Ready { content } => assert_eq!(content, "Blog content from https://a.example/feed"),
        other => panic!("unexpected fetch {:?}", other),
    }
    match fetch_profile_source(&source("url", "https://a.example")) {
        SourceFetch::Url { url } => assert_eq!(url, "https://a.example"),
        other => panic!("unexpected fetch {:?}", other),
    }
    match fetch_profile_source(&source("text", "I like tea.")) {
        SourceFetch::Ready { content } => assert_eq!(content, "I like tea."),
        other => panic!("unexpected fetch {:?}", other),
    }
    match fetch_profile_source(&source("rss", "x")) {
        SourceFetch::Unknown { message } => assert_eq!(message, "Unknown source type: rss"),
        other => panic!("unexpected fetch {:?}", other),
    }
    assert_eq!(fetch_blog_rss("u"), "Blog content from u");
    assert_eq!(github_user_not_found("ada"), "GitHub user 'ada' not found");
    assert_eq!(url_fetch_failed("404 Not Found"), "Failed to fetch URL: 404 Not Found");
}

fn languages(list: &[Option<&str>]) -> Vec<Option<String>> {
    list.iter().map(|l| l.map(|s| s.to_string())).collect()
}

#[test]
fn top_languages_by_count() {
    let repos = languages(&[
        Some("Go"),
        Some("Rust"),
        None,
        Some("Rust"),
        Some("C"),
        Some("Rust"),
        Some("C"),
        Some("Zig"),
    ]);
    assert_eq!(top_three(&repos), vec!["Rust".to_string(), "C".to_string(), "Go".to_string()]);
    // Of languages with equal counts the one met first comes first.
    let ties = languages(&[Some("B"), Some("A"), Some("C"), Some("D")]);
    assert_eq!(top_three(&ties), vec!["B".to_string(), "A".to_string(), "C".to_string()]);
    assert_eq!(top_three(&languages(&[Some("A"), None])), vec!["A".to_string()]);
    assert_eq!(top_three(&languages(&[None, None])), Vec::<String>::new());
    assert_eq!(top_three(&Vec::new()), Vec::<String>::new());
}

#[test]
fn github_summary_with_details() {
    let profile = GithubProfile {
        name: Some("Ada L.".to_string()),
        bio: Some("Numbers.".to_string()),
        company: Some("Engines".to_string()),
        location: None,
        blog: Some("https://ada.example".to_string()),
        repo_languages: languages(&[Some("Rust"), Some("Rust"), Some("C"), None]),
    };
    assert_eq!(
        fetch_github_profile("ada", &profile),
        "## GitHub Profile: Ada L.\n\nNumbers.\n\n**Details:**\n- Company: Engines\n- Website: https://ada.example\n\n**GitHub Activity:**\n- 4 public repositories\n- Primary languages: Rust, C\n"
    );
}

#[test]
fn github_summary_of_a_bare_profile() {
    let profile = GithubProfile {
        name: None,
        bio: Some(String::new()),
        company: None,
        location: None,
        blog: Some("https://ada.example".to_string()),
        repo_languages: Vec::new(),
    };
    assert_eq!(
        fetch_github_profile("ada", &profile),
        "## GitHub Profile: ada\n\n**GitHub Activity:**\n- 0 public repositories\n"
    );
    let located = GithubProfile { location: Some("London".to_string()), ..profile };
    assert_eq!(
        fetch_github_profile("ada", &located),
        "## GitHub Profile: ada\n\n**Details:**\n- Location: London\n- Website: https://ada.example\n\n**GitHub Activity:**\n- 0 public repositories\n"
    );
}

fn triple(piece: &FetchedContent) -> (String, String, String) {
    (piece.source_type.clone(), piece.source_value.clone(), piece.content.clone())
}

#[test]
fn gathered_material() {
    let params = FetchProfileDataParams {
        profile_sources: Some(vec![source("text", "I like tea.")]),
        content: Some("pasted".to_string()),
        working_style: Some("early".to_string()),
        collaboration_prefs: Some("brief".to_string()),
    };
    let fetched = vec![fetched_from(&source("text", "I like tea."), "I like tea.".to_string())];
    let result = fetch_profile_data(&params, fetched, Some("Ada"), Some("# Ada"));
    assert!(result.success);
    let got: Vec<(String, String, String)> = result.fetched_content.iter().map(triple).collect();
    let want = [
        ("text", "I like tea.", "I like tea."),
        ("text", "direct", "pasted"),
        ("working_style", "direct", "early"),
        ("collaboration_prefs", "direct", "brief"),
    ];
    assert_eq!(got.len(), want.len());
    for (g, w) in got.iter().zip(want.iter()) {
        assert_eq!((g.0.as_str(), g.1.as_str(), g.2.as_str()), *w);
    }
    assert_eq!(
        result.prompt,
        "Evaluate how this fetched data fits into Ada's collaborator profile.\n\n## Current Profile:\n# Ada\n\n## Fetched Data:\nReview the fetched_content below and decide what to add and where. Use the update_collaborator_profile tool to write your changes. Make sure to get their input and consent if they like it!"
    );
}

#[test]
fn gathered_material_with_nothing_given() {
    let params = FetchProfileDataParams {
        profile_sources: None,
        content: None,
        working_style: None,
        collaboration_prefs: None,
    };
    let result = fetch_profile_data(&params, Vec::new(), None, None);
    assert!(result.success);
    assert!(result.fetched_content.is_empty());
    assert!(result.prompt.starts_with(
        "Evaluate how this fetched data fits into the user's collaborator profile.\n\n## Current Profile:\n[No existing profile]\n\n## Fetched Data:\n"
    ));
}
