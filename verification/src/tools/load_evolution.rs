//! Loading the evolution documents: the markdown files of the evolution
//! directory, except those that are archived.

use vstd::prelude::*;
use vstd::string::*;
use crate::embodiment::{has_markdown_name, is_markdown_name};
use crate::text::{contains, contains_text};

verus! {

/// The name of the evolution directory, below the installation's directory.
pub const EVOLUTION_DIR: &'static str = "evolution";

pub const EVOLUTION_HEAD: &'static str = "# Identity Evolution Context\n\n";

pub const EVOLUTION_ABOUT: &'static str =
    "*Technical and design documents that explain how the Sparkle framework works and evolved*\n\n";

pub const NO_EVOLUTION_DIR: &'static str =
    "*No evolution directory found at ~/.sparkle/evolution*\n\n";

/// What marks a path as archived.
pub const ARCHIVE_MARK: &'static str = "archive";

/// An entry of the evolution directory.
#[derive(Debug, Clone)]
pub struct EvolutionFile {
    /// The entry's whole path.
    pub path: String,
    /// The entry's file name.
    pub name: String,
    /// Whether the entry is a regular file.
    pub is_file: bool,
    /// The entry's text; `None` when it was not or could not be read.
    pub content: Option<String>,
}

/// How the evolution directory was found.
#[derive(Debug, Clone)]
pub enum EvolutionDir {
    /// There is no such directory.
    Missing,
    /// The directory's entries, in the order in which it lists them; none if
    /// it could not be listed.
    Present { entries: Vec<EvolutionFile> },
}

/// Whether an entry is an evolution document: a regular markdown file whose
/// path does not say that it is archived.
pub open spec fn is_evolution_document(file: EvolutionFile) -> bool {
    file.is_file && is_markdown_name(file.name@) && !contains_text(file.path@, ARCHIVE_MARK@)
}

/// What an entry adds to the answer: its text and an empty line, if it is an
/// evolution document that was read.
pub open spec fn evolution_part(file: EvolutionFile) -> Seq<char> {
    match file.content {
        Some(text) => if is_evolution_document(file) {
            text@ + "\n\n"@
        } else {
            Seq::empty()
        },
        None => Seq::empty(),
    }
}

/// What the entries add to the answer, one after the other.
pub open spec fn evolution_parts(entries: Seq<EvolutionFile>) -> Seq<char>
    decreases entries.len(),
{
    if entries.len() == 0 {
        Seq::empty()
    } else {
        evolution_parts(entries.drop_last()) + evolution_part(entries.last())
    }
}

/// The evolution documents, under one heading.
pub open spec fn evolution_text(found: EvolutionDir) -> Seq<char> {
    match found {
        EvolutionDir::Missing => NO_EVOLUTION_DIR@,
        EvolutionDir::Present { entries } => EVOLUTION_HEAD@ + EVOLUTION_ABOUT@ + evolution_parts(
            entries@,
        ),
    }
}

/// The evolution documents, under one heading; a notice where there is no
/// evolution directory.
pub fn load_evolution(found: &EvolutionDir) -> (r: String)
    ensures
        r@ == evolution_text(*found),
{
    match found {
        EvolutionDir::Missing => NO_EVOLUTION_DIR.to_owned(),
        EvolutionDir::Present { entries } => {
            let mut response = EVOLUTION_HEAD.to_owned();
            response.append(EVOLUTION_ABOUT);
            let mut i: usize = 0;
            assert(entries@.take(0) =~= Seq::empty());
            assert(response@ =~= EVOLUTION_HEAD@ + EVOLUTION_ABOUT@ + evolution_parts(
                entries@.take(0),
            ));
            while i < entries.len()
                invariant
                    i <= entries.len(),
                    response@ == EVOLUTION_HEAD@ + EVOLUTION_ABOUT@ + evolution_parts(
                        entries@.take(i as int),
                    ),
                decreases entries.len() - i,
            {
                let ghost before = response@;
                let file = &entries[i];
                if file.is_file && has_markdown_name(file.name.as_str()) && !contains(
                    file.path.as_str(),
                    ARCHIVE_MARK,
                ) {
                    match &file.content {
                        Some(text) => {
                            response.append(text.as_str());
                            response.append("\n\n");
                        },
                        None => {},
                    }
                }
                proof {
                    assert(entries@.take(i + 1).drop_last() =~= entries@.take(i as int));
                    assert(entries@.take(i + 1).last() == entries@[i as int]);
                    assert(response@ =~= before + evolution_part(entries@[i as int]));
                    assert(response@ =~= EVOLUTION_HEAD@ + EVOLUTION_ABOUT@ + (evolution_parts(
                        entries@.take(i as int),
                    ) + evolution_part(entries@[i as int])));
                }
                i += 1;
            }
            assert(entries@.take(entries.len() as int) =~= entries@);
            response
        },
    }
}

} // verus!
