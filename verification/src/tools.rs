//! The tools that the server offers: what each one writes and answers.
//!
//! A tool plans here and nothing more: whoever calls it says what it found
//! on disk where the plan depends on that, and carries the plan out. The
//! tools that date what they write read the clock themselves; each of them
//! has a twin that takes the timestamp instead.

pub mod checkpoint;
pub mod create_sparkler;
pub mod embody_sparkle;
pub mod fetch_profile_data;
pub mod list_sparklers;
pub mod load_evolution;
pub mod rename_character;
pub mod rename_sparkler;
pub mod save_insight;
pub mod setup_sparkle;
pub mod test_embodiment;
pub mod update_collaborator_profile;
pub mod update_sparkler_identity;

use vstd::prelude::*;
use vstd::string::*;
use crate::constants::SPARKLE_DIR;
use crate::context_loader::{Location, LocationView};
use crate::text::{join, joined, texts};

verus! {

/// The kind of a tool's failure.
#[derive(Debug, Clone, Copy, PartialEq, Eq, Structural)]
pub enum ToolErrorKind {
    /// The request's parameters are not acceptable.
    InvalidParams,
    /// The tool could not do its work.
    Internal,
}

/// A tool's failure.
#[derive(Debug, Clone)]
pub struct ToolError {
    pub kind: ToolErrorKind,
    pub message: String,
}

/// A tool's answer.
#[derive(Debug, Clone)]
pub struct ToolReply {
    /// Whether the answer reports that the tool could not do what was asked.
    pub is_error: bool,
    pub text: String,
}

/// A document to write.
#[derive(Debug, Clone)]
pub struct FileWrite {
    pub path: Location,
    pub content: String,
}

/// A path as it is shown: the base and the names below it, with `/` between
/// them.
pub open spec fn path_text(path: LocationView) -> Seq<char> {
    joined(seq![path.base] + path.segments, "/"@)
}

/// A path as it is shown.
pub fn show_path(path: &Location) -> (r: String)
    ensures
        r@ == path_text(path@),
{
    let mut parts: Vec<String> = Vec::new();
    parts.push(path.base.clone());
    let mut i: usize = 0;
    while i < path.segments.len()
        invariant
            i <= path.segments.len(),
            texts(parts@) == seq![path.base@] + texts(path.segments@).take(i as int),
        decreases path.segments.len() - i,
    {
        let ghost before = parts@;
        parts.push(path.segments[i].clone());
        assert(texts(parts@) =~= texts(before).push(path.segments@[i as int]@));
        assert(texts(path.segments@).take(i + 1) =~= texts(path.segments@).take(i as int).push(
            path.segments@[i as int]@,
        ));
        assert(texts(parts@) =~= seq![path.base@] + texts(path.segments@).take(i + 1));
        i += 1;
    }
    assert(texts(path.segments@).take(path.segments.len() as int) =~= texts(path.segments@));
    join(&parts, "/")
}

/// The shape of a timestamp in the name of a checkpoint.
pub const CHECKPOINT_STAMP: &'static str = "%Y-%m-%d-%H%M%S";

/// The shape of a timestamp in the heading of an insight.
pub const INSIGHT_STAMP: &'static str = "%Y-%m-%d %H:%M:%S UTC";

/// The shape of a timestamp in the name of a profile's backup.
pub const BACKUP_STAMP: &'static str = "%Y%m%d-%H%M%S";

/// Whether a pattern is one of the shapes of timestamps used here.
pub open spec fn is_stamp_pattern(pattern: Seq<char>) -> bool {
    pattern == CHECKPOINT_STAMP@ || pattern == INSIGHT_STAMP@ || pattern == BACKUP_STAMP@
}

/// The present time in UTC, written in the given shape.
///
/// Trusted: stands for `chrono::Utc::now`, which reads the clock, and for
/// `DateTime::format`, whose result is written out with `to_string`. That
/// panics on a pattern that chrono cannot parse; the three shapes accepted
/// here hold only the fields `%Y %m %d %H %M %S` and plain characters.
/// `Utc::now` itself panics where the clock stands before 1970. Nothing is
/// claimed of the text: it depends on the clock.
#[verifier::external_body]
pub(crate) fn utc_now(pattern: &str) -> (r: String)
    requires
        is_stamp_pattern(pattern@),
{
    chrono::Utc::now().format(pattern).to_string()
}

/// What is reported where the home directory is not known.
pub const NO_HOME_DIRECTORY: &'static str = "Could not determine home directory";

/// What starts the report of a configuration that could not be loaded.
pub const CONFIG_LOAD_FAILED: &'static str = "Failed to load config: ";

/// A failure of the tool itself, where `detail` says what went wrong.
pub fn internal_failure(what: &str, detail: &str) -> (e: ToolError)
    ensures
        e.kind == ToolErrorKind::Internal,
        e.message@ == what@ + detail@,
{
    let mut message = what.to_owned();
    message.append(detail);
    ToolError { kind: ToolErrorKind::Internal, message }
}

/// A path below the home directory as it is shown: `~` for the home
/// directory, and the names below it, with `/` between them.
pub open spec fn home_path_text(names: Seq<Seq<char>>) -> Seq<char> {
    joined(seq!["~"@] + names, "/"@)
}

/// A path below the home directory as it is shown.
pub fn show_home_path(names: &Vec<String>) -> (r: String)
    ensures
        r@ == home_path_text(texts(names@)),
{
    let shown = Location { base: "~".to_owned(), segments: names.clone() };
    assert(texts(shown.segments@) =~= texts(names@)) by {
        assert(shown.segments@ =~= names@);
    }
    show_path(&shown)
}

/// A path below the installation's directory.
pub open spec fn below_sparkle_dir(home: Seq<char>, names: Seq<Seq<char>>) -> LocationView {
    LocationView { base: home, segments: seq![SPARKLE_DIR@] + names }
}

/// A path below the installation's directory.
pub fn sparkle_path(home: &str, names: Vec<String>) -> (r: Location)
    ensures
        r@ == below_sparkle_dir(home@, texts(names@)),
{
    let mut segments: Vec<String> = Vec::new();
    segments.push(SPARKLE_DIR.to_owned());
    let mut names = names;
    let ghost tail = names@;
    segments.append(&mut names);
    assert(texts(segments@) =~= seq![SPARKLE_DIR@] + texts(tail));
    Location { base: home.to_owned(), segments }
}

/// The list of one name.
pub fn one_name(a: &str) -> (r: Vec<String>)
    ensures
        texts(r@) == seq![a@],
{
    let mut names: Vec<String> = Vec::new();
    names.push(a.to_owned());
    assert(texts(names@) =~= seq![a@]);
    names
}

/// The list of two names.
pub fn two_names(a: &str, b: &str) -> (r: Vec<String>)
    ensures
        texts(r@) == seq![a@, b@],
{
    let mut names: Vec<String> = Vec::new();
    names.push(a.to_owned());
    names.push(b.to_owned());
    assert(texts(names@) =~= seq![a@, b@]);
    names
}

} // verus!
