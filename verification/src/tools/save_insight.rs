//! Saving an insight: a dated entry at the end of one of the persona's
//! documents, or of the workspace map.

use vstd::prelude::*;
use vstd::string::*;
use crate::constants::SPARKLE_DIR;
use crate::context_loader::{
    context_dir, context_error_text, get_context_dir, ContextDir, ContextDirView, Location,
    LocationView, ANCHORS_FILE, EVOLUTION_FILE, WORKSPACE_MAP_FILE,
};
use crate::sparkle_loader::{as_opt_str, opt_str};
use crate::text::{join, joined, texts};
use crate::tools::{
    home_path_text, show_home_path, utc_now, ToolError, ToolErrorKind, INSIGHT_STAMP,
    NO_HOME_DIRECTORY,
};
use crate::types::{opt_text, Config, InsightType, SaveInsightParams};

verus! {

/// What starts the report of a directory that could not be determined.
pub const CONTEXT_DIR_FAILED: &'static str = "Failed to determine context directory: ";

/// What is reported where the persona's directory cannot be created.
pub const SPARKLER_DIR_FAILED: &'static str = "Failed to create sparkler directory";

/// What is reported where the installation's directory cannot be created.
pub const SPARKLE_DIR_FAILED: &'static str = "Failed to create sparkle directory";

/// What is reported where the document cannot be opened.
pub const OPEN_FAILED: &'static str = "Failed to open insight file";

/// What is reported where the entry cannot be written.
pub const WRITE_FAILED: &'static str = "Failed to write to insight file";

/// What starts the answer to a saved insight.
pub const SAVED_HEAD: &'static str = "\u{e2}\u{153}\u{a8} Insight saved to ";

/// The title of a kind of insight.
pub open spec fn insight_title(insight_type: InsightType) -> Seq<char> {
    match insight_type {
        InsightType::PatternAnchor => "Pattern Anchor"@,
        InsightType::CollaborationEvolution => "Collaboration Evolution"@,
        InsightType::WorkspaceInsight => "Workspace Insight"@,
    }
}

/// The title of a kind of insight, as it stands in an entry's heading.
pub fn get_insight_title(insight_type: &InsightType) -> (r: &'static str)
    ensures
        r@ == insight_title(*insight_type),
{
    match insight_type {
        InsightType::PatternAnchor => "Pattern Anchor",
        InsightType::CollaborationEvolution => "Collaboration Evolution",
        InsightType::WorkspaceInsight => "Workspace Insight",
    }
}

/// The name of a kind of insight.
pub open spec fn insight_type_name(insight_type: InsightType) -> Seq<char> {
    match insight_type {
        InsightType::PatternAnchor => "PatternAnchor"@,
        InsightType::CollaborationEvolution => "CollaborationEvolution"@,
        InsightType::WorkspaceInsight => "WorkspaceInsight"@,
    }
}

/// The name of the document that takes a kind of insight.
pub open spec fn insight_file(insight_type: InsightType) -> Seq<char> {
    match insight_type {
        InsightType::PatternAnchor => ANCHORS_FILE@,
        InsightType::CollaborationEvolution => EVOLUTION_FILE@,
        InsightType::WorkspaceInsight => WORKSPACE_MAP_FILE@,
    }
}

/// What is reported where the directory of the document that takes a kind
/// of insight cannot be created.
pub open spec fn directory_failure_text(insight_type: InsightType) -> Seq<char> {
    match insight_type {
        InsightType::WorkspaceInsight => SPARKLE_DIR_FAILED@,
        _ => SPARKLER_DIR_FAILED@,
    }
}

/// The part of an entry that gives the context, if one is given.
pub open spec fn context_part(context: Option<Seq<char>>) -> Seq<char> {
    match context {
        Some(text) => "**Context**: "@ + text + "\n\n"@,
        None => Seq::empty(),
    }
}

/// The part of an entry that gives the tags, if any are given.
pub open spec fn tags_part(tags: Option<Vec<String>>) -> Seq<char> {
    match tags {
        Some(list) => if list@.len() > 0 {
            "**Tags**: "@ + joined(texts(list@), ", "@) + "\n\n"@
        } else {
            Seq::empty()
        },
        None => Seq::empty(),
    }
}

/// The entry of an insight saved at the given time.
pub open spec fn insight_entry(params: SaveInsightParams, timestamp: Seq<char>) -> Seq<char> {
    "\n## "@ + timestamp + " - "@ + insight_title(params.insight_type) + "\n\n"@ + params.content@
        + "\n\n"@ + context_part(opt_text(params.context)) + tags_part(params.tags) + "---\n"@
}

/// The last line of the answer: the context, if one is given.
pub open spec fn context_line(context: Option<Seq<char>>) -> Seq<char> {
    match context {
        Some(text) => "Context: "@ + text,
        None => Seq::empty(),
    }
}

/// The answer to an insight saved in the document at `names` below the home
/// directory.
pub open spec fn insight_message(params: SaveInsightParams, names: Seq<Seq<char>>) -> Seq<char> {
    SAVED_HEAD@ + home_path_text(names) + "\n\nType: "@ + insight_type_name(params.insight_type)
        + "\nContent: "@ + params.content@ + "\n"@ + context_line(opt_text(params.context))
}

/// The directory of the document that takes an insight: the persona's for
/// pattern anchors and the collaboration log, the installation's for the
/// workspace map.
pub open spec fn insight_dir(config: Config, params: SaveInsightParams, home: Seq<char>) -> Result<
    ContextDirView,
    Seq<char>,
> {
    match params.insight_type {
        InsightType::WorkspaceInsight => Ok(
            ContextDirView {
                location: LocationView { base: home, segments: seq![SPARKLE_DIR@] },
                scaffold_for: None,
            },
        ),
        _ => match context_dir(config, opt_text(params.sparkler), Some(home)) {
            Ok(dir) => Ok(dir),
            Err(e) => Err(CONTEXT_DIR_FAILED@ + context_error_text(e)),
        },
    }
}

/// What saving an insight does.
#[derive(Debug, Clone)]
pub struct InsightPlan {
    /// The directory of the document. A persona's directory gets its starter
    /// files where it is missing; the directory is created in any case.
    pub directory: ContextDir,
    /// What is reported where the directory cannot be created.
    pub directory_failure: String,
    /// The name of the document.
    pub file_name: String,
    /// What to write at the end of the document.
    pub entry: String,
    /// The answer once the entry is written.
    pub message: String,
}

/// Whether a result is that of saving an insight at the given time.
pub open spec fn is_insight_result(
    r: Result<InsightPlan, ToolError>,
    config: Config,
    params: SaveInsightParams,
    home_dir: Option<Seq<char>>,
    timestamp: Seq<char>,
) -> bool {
    match home_dir {
        None => r matches Err(e) && e.kind == ToolErrorKind::Internal && e.message@
            == NO_HOME_DIRECTORY@,
        Some(home) => match insight_dir(config, params, home) {
            Err(text) => r matches Err(e) && e.kind == ToolErrorKind::Internal && e.message@
                == text,
            Ok(dir) => r matches Ok(plan) && {
                &&& plan.directory@ == dir
                &&& plan.directory_failure@ == directory_failure_text(params.insight_type)
                &&& plan.file_name@ == insight_file(params.insight_type)
                &&& plan.entry@ == insight_entry(params, timestamp)
                &&& plan.message@ == insight_message(
                    params,
                    dir.location.segments.push(insight_file(params.insight_type)),
                )
            },
        },
    }
}

/// The entry of an insight saved at the given time.
fn write_entry(params: &SaveInsightParams, timestamp: &str) -> (r: String)
    ensures
        r@ == insight_entry(*params, timestamp@),
{
    let mut entry = "\n## ".to_owned();
    entry.append(timestamp);
    entry.append(" - ");
    entry.append(get_insight_title(&params.insight_type));
    entry.append("\n\n");
    entry.append(params.content.as_str());
    entry.append("\n\n");
    let ghost head = entry@;
    match &params.context {
        Some(context) => {
            entry.append("**Context**: ");
            entry.append(context.as_str());
            entry.append("\n\n");
        },
        None => {},
    }
    assert(entry@ =~= head + context_part(opt_text(params.context)));
    let ghost with_context = entry@;
    match &params.tags {
        Some(tags) => {
            if tags.len() > 0 {
                let list = join(tags, ", ");
                entry.append("**Tags**: ");
                entry.append(list.as_str());
                entry.append("\n\n");
            }
        },
        None => {},
    }
    assert(entry@ =~= with_context + tags_part(params.tags));
    entry.append("---\n");
    entry
}

/// What saving an insight at the given time does.
pub fn plan_save_insight(
    config: &Config,
    params: &SaveInsightParams,
    home_dir: Option<&str>,
    timestamp: &str,
) -> (r: Result<InsightPlan, ToolError>)
    ensures
        is_insight_result(r, *config, *params, opt_str(home_dir), timestamp@),
{
    let home = match home_dir {
        None => {
            return Err(
                ToolError { kind: ToolErrorKind::Internal, message: NO_HOME_DIRECTORY.to_owned() },
            );
        },
        Some(home) => home,
    };
    let (directory, scaffold_for, file_name) = match params.insight_type {
        InsightType::WorkspaceInsight => {
            let mut names: Vec<String> = Vec::new();
            names.push(SPARKLE_DIR.to_owned());
            assert(texts(names@) =~= seq![SPARKLE_DIR@]);
            (
                Location { base: home.to_owned(), segments: names },
                None,
                WORKSPACE_MAP_FILE.to_owned(),
            )
        },
        _ => {
            let file_name = match params.insight_type {
                InsightType::PatternAnchor => ANCHORS_FILE.to_owned(),
                _ => EVOLUTION_FILE.to_owned(),
            };
            match get_context_dir(config, as_opt_str(&params.sparkler), Some(home)) {
                Ok(dir) => (dir.location, dir.scaffold_for, file_name),
                Err(e) => {
                    let mut message = CONTEXT_DIR_FAILED.to_owned();
                    let cause = e.message();
                    message.append(cause.as_str());
                    return Err(ToolError { kind: ToolErrorKind::Internal, message });
                },
            }
        },
    };
    let entry = write_entry(params, timestamp);

    let mut names: Vec<String> = Vec::new();
    let mut i: usize = 0;
    while i < directory.segments.len()
        invariant
            i <= directory.segments.len(),
            texts(names@) == texts(directory.segments@).take(i as int),
        decreases directory.segments.len() - i,
    {
        let ghost before = names@;
        names.push(directory.segments[i].clone());
        assert(texts(names@) =~= texts(before).push(directory.segments@[i as int]@));
        assert(texts(directory.segments@).take(i + 1) =~= texts(directory.segments@).take(
            i as int,
        ).push(directory.segments@[i as int]@));
        i += 1;
    }
    assert(texts(directory.segments@).take(directory.segments.len() as int) =~= texts(
        directory.segments@,
    ));
    let ghost dir_names = names@;
    names.push(file_name.clone());
    assert(texts(names@) =~= texts(dir_names).push(file_name@));
    let shown = show_home_path(&names);

    let mut message = SAVED_HEAD.to_owned();
    message.append(shown.as_str());
    message.append("\n\nType: ");
    match params.insight_type {
        InsightType::PatternAnchor => message.append("PatternAnchor"),
        InsightType::CollaborationEvolution => message.append("CollaborationEvolution"),
        InsightType::WorkspaceInsight => message.append("WorkspaceInsight"),
    }
    message.append("\nContent: ");
    message.append(params.content.as_str());
    message.append("\n");
    let ghost head = message@;
    match &params.context {
        Some(context) => {
            message.append("Context: ");
            message.append(context.as_str());
        },
        None => {},
    }
    assert(message@ =~= head + context_line(opt_text(params.context)));
    Ok(
        InsightPlan {
            directory: ContextDir { location: directory, scaffold_for },
            directory_failure: match params.insight_type {
                InsightType::WorkspaceInsight => SPARKLE_DIR_FAILED.to_owned(),
                _ => SPARKLER_DIR_FAILED.to_owned(),
            },
            file_name,
            entry,
            message,
        },
    )
}

/// What saving an insight now does: the entry's heading carries the present
/// time.
pub fn save_insight(config: &Config, params: &SaveInsightParams, home_dir: Option<&str>) -> (r:
    Result<InsightPlan, ToolError>)
    ensures
        exists|timestamp: Seq<char>|
            is_insight_result(r, *config, *params, opt_str(home_dir), timestamp),
{
    let timestamp = utc_now(INSIGHT_STAMP);
    let r = plan_save_insight(config, params, home_dir, timestamp.as_str());
    assert(is_insight_result(r, *config, *params, opt_str(home_dir), timestamp@));
    r
}

} // verus!
