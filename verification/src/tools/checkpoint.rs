//! The session checkpoint: new working memory and a dated narrative, both in
//! the workspace's state directory.

use vstd::prelude::*;
use vstd::string::*;
use crate::constants::WORKSPACE_DIR;
use crate::context_loader::{Location, LocationView};
use crate::embodiment::{CHECKPOINTS_DIR, WORKING_MEMORY_FILE};
use crate::text::{join, joined, lines, lines_of, texts};
use crate::tools::{
    path_text, show_path, utc_now, FileWrite, ToolError, ToolErrorKind, CHECKPOINT_STAMP,
};
use crate::types::{opt_text, CheckpointParams};

verus! {

pub const CHECKPOINT_HEAD: &'static str = "\u{1f504} **SESSION CHECKPOINT CREATED**\n\n";

pub const CHECKPOINT_ACTIONS: &'static str =
    "\n\n**Actions Completed**:\n\u{2705} Working memory updated at ";

pub const CHECKPOINT_CREATED_AT: &'static str = "\n\u{2705} Session checkpoint created at ";

pub const CHECKPOINT_TAIL: &'static str =
    "\n\u{2705} Progress preserved for future sessions\n\u{2705} Collaborative momentum captured\n\n**Next Session Ready**: All context preserved for seamless continuation";

/// A checkpoint's narrative with the persona that wrote it named below its
/// first line. A narrative without lines, and one of no named persona, stay
/// as they are.
pub open spec fn attributed(content: Seq<char>, sparkler: Option<Seq<char>>) -> Seq<char> {
    match sparkler {
        None => content,
        Some(name) => if lines_of(content).len() == 0 {
            content
        } else {
            lines_of(content)[0] + "\n\n"@ + "**Sparkler:** "@ + name + "\n"@ + joined(
                lines_of(content).skip(1),
                "\n"@,
            )
        },
    }
}

/// The name of the checkpoint written at the given time.
pub open spec fn checkpoint_name(timestamp: Seq<char>) -> Seq<char> {
    "checkpoint-"@ + timestamp + ".md"@
}

/// The directory of checkpoints, below the working directory.
pub open spec fn checkpoints_dir() -> LocationView {
    LocationView { base: WORKSPACE_DIR@, segments: seq![CHECKPOINTS_DIR@] }
}

/// Where the working memory is written.
pub open spec fn working_memory_path() -> LocationView {
    LocationView { base: WORKSPACE_DIR@, segments: seq![WORKING_MEMORY_FILE@] }
}

/// Where the checkpoint of the given time is written.
pub open spec fn checkpoint_path(timestamp: Seq<char>) -> LocationView {
    LocationView {
        base: WORKSPACE_DIR@,
        segments: seq![CHECKPOINTS_DIR@, checkpoint_name(timestamp)],
    }
}

/// The line of the answer that names the persona, if one is named.
pub open spec fn sparkler_line(sparkler: Option<Seq<char>>) -> Seq<char> {
    match sparkler {
        Some(name) => "**Sparkler**: "@ + name + "\n"@,
        None => Seq::empty(),
    }
}

/// The answer to a checkpoint written at the given time.
pub open spec fn checkpoint_response(sparkler: Option<Seq<char>>, timestamp: Seq<char>) -> Seq<
    char,
> {
    CHECKPOINT_HEAD@ + sparkler_line(sparkler) + "Timestamp: "@ + timestamp
        + "\nCheckpoint file: "@ + path_text(checkpoint_path(timestamp)) + CHECKPOINT_ACTIONS@
        + path_text(working_memory_path()) + CHECKPOINT_CREATED_AT@ + path_text(
        checkpoint_path(timestamp),
    ) + CHECKPOINT_TAIL@
}

/// What a session checkpoint does.
#[derive(Debug, Clone)]
pub struct CheckpointPlan {
    /// The directory to create first, with those above it.
    pub directory: Location,
    /// The working memory to write.
    pub working_memory: FileWrite,
    /// The checkpoint to write.
    pub checkpoint: FileWrite,
    /// The answer once all is written.
    pub response: String,
}

/// Whether a plan is that of a checkpoint written at the given time.
pub open spec fn is_checkpoint_plan(
    plan: CheckpointPlan,
    params: CheckpointParams,
    timestamp: Seq<char>,
) -> bool {
    &&& plan.directory@ == checkpoints_dir()
    &&& plan.working_memory.path@ == working_memory_path()
    &&& plan.working_memory.content@ == params.working_memory@
    &&& plan.checkpoint.path@ == checkpoint_path(timestamp)
    &&& plan.checkpoint.content@ == attributed(
        params.checkpoint_content@,
        opt_text(params.sparkler),
    )
    &&& plan.response@ == checkpoint_response(opt_text(params.sparkler), timestamp)
}

/// The narrative with the persona named below its first line.
fn attribute(content: &str, sparkler: &Option<String>) -> (r: String)
    ensures
        r@ == attributed(content@, opt_text(*sparkler)),
{
    let name = match sparkler {
        None => {
            return content.to_owned();
        },
        Some(name) => name,
    };
    let mut all = lines(content);
    if all.len() == 0 {
        return content.to_owned();
    }
    let ghost before = all@;
    let first = all.remove(0);
    assert(texts(all@) =~= lines_of(content@).skip(1));
    assert(first@ == texts(before)[0]);
    let mut out = first;
    out.append("\n\n");
    out.append("**Sparkler:** ");
    out.append(name.as_str());
    out.append("\n");
    let rest = join(&all, "\n");
    out.append(rest.as_str());
    out
}

/// A path below the workspace's state directory.
fn state_path(names: Vec<String>) -> (r: Location)
    ensures
        r@ == (LocationView { base: WORKSPACE_DIR@, segments: texts(names@) }),
{
    Location { base: WORKSPACE_DIR.to_owned(), segments: names }
}

/// The checkpoint that is written at the given time.
pub fn plan_checkpoint(params: &CheckpointParams, timestamp: &str) -> (plan: CheckpointPlan)
    ensures
        is_checkpoint_plan(plan, *params, timestamp@),
{
    let mut dir_names: Vec<String> = Vec::new();
    dir_names.push(CHECKPOINTS_DIR.to_owned());
    assert(texts(dir_names@) =~= seq![CHECKPOINTS_DIR@]);
    let directory = state_path(dir_names);

    let mut memory_names: Vec<String> = Vec::new();
    memory_names.push(WORKING_MEMORY_FILE.to_owned());
    assert(texts(memory_names@) =~= seq![WORKING_MEMORY_FILE@]);
    let memory_path = state_path(memory_names);

    let mut name = "checkpoint-".to_owned();
    name.append(timestamp);
    name.append(".md");
    let mut file_names: Vec<String> = Vec::new();
    file_names.push(CHECKPOINTS_DIR.to_owned());
    file_names.push(name);
    assert(texts(file_names@) =~= seq![CHECKPOINTS_DIR@, checkpoint_name(timestamp@)]);
    let file_path = state_path(file_names);

    let shown_file = show_path(&file_path);
    let shown_memory = show_path(&memory_path);
    let mut response = CHECKPOINT_HEAD.to_owned();
    match &params.sparkler {
        Some(sparkler) => {
            response.append("**Sparkler**: ");
            response.append(sparkler.as_str());
            response.append("\n");
        },
        None => {},
    }
    assert(response@ =~= CHECKPOINT_HEAD@ + sparkler_line(opt_text(params.sparkler)));
    response.append("Timestamp: ");
    response.append(timestamp);
    response.append("\nCheckpoint file: ");
    response.append(shown_file.as_str());
    response.append(CHECKPOINT_ACTIONS);
    response.append(shown_memory.as_str());
    response.append(CHECKPOINT_CREATED_AT);
    response.append(shown_file.as_str());
    response.append(CHECKPOINT_TAIL);

    CheckpointPlan {
        directory,
        working_memory: FileWrite { path: memory_path, content: params.working_memory.clone() },
        checkpoint: FileWrite {
            path: file_path,
            content: attribute(params.checkpoint_content.as_str(), &params.sparkler),
        },
        response,
    }
}

/// The checkpoint that is written now: its name carries the present time.
pub fn session_checkpoint(params: &CheckpointParams) -> (plan: CheckpointPlan)
    ensures
        exists|timestamp: Seq<char>| is_checkpoint_plan(plan, *params, timestamp),
{
    let timestamp = utc_now(CHECKPOINT_STAMP);
    let plan = plan_checkpoint(params, timestamp.as_str());
    assert(is_checkpoint_plan(plan, *params, timestamp@));
    plan
}

/// What a session checkpoint does step by step.
#[derive(Debug, Clone, Copy, PartialEq, Eq, Structural)]
pub enum CheckpointStep {
    CreateDirectory,
    WriteWorkingMemory,
    WriteCheckpoint,
}

/// The text of the failure of a step, where `detail` says what went wrong.
pub open spec fn checkpoint_failure_text(step: CheckpointStep, detail: Seq<char>) -> Seq<char> {
    match step {
        CheckpointStep::CreateDirectory => "Failed to create checkpoint directory: "@ + detail,
        CheckpointStep::WriteWorkingMemory => "Failed to write working memory: "@ + detail,
        CheckpointStep::WriteCheckpoint => "Failed to write checkpoint: "@ + detail,
    }
}

/// The failure to report when a step of a checkpoint fails.
pub fn checkpoint_failure(step: CheckpointStep, detail: &str) -> (e: ToolError)
    ensures
        e.kind == ToolErrorKind::Internal,
        e.message@ == checkpoint_failure_text(step, detail@),
{
    let mut message = match step {
        CheckpointStep::CreateDirectory => "Failed to create checkpoint directory: ".to_owned(),
        CheckpointStep::WriteWorkingMemory => "Failed to write working memory: ".to_owned(),
        CheckpointStep::WriteCheckpoint => "Failed to write checkpoint: ".to_owned(),
    };
    message.append(detail);
    ToolError { kind: ToolErrorKind::Internal, message }
}

} // verus!
