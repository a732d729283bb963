//! The universal identity document, made personal.

use vstd::prelude::*;
use vstd::string::*;
use crate::constants::FALLBACK_NAME;
use crate::text::replaced;
use crate::text::replace;
use crate::types::Config;

verus! {

/// The universal identity document, in its three parts. The placeholders
/// `[human.name]` and `[ai.name]` in it stand for the two names.
#[derive(Debug, Clone)]
pub struct SparkleDefinition {
    pub embodiment_methodology: String,
    pub core_identity: String,
    pub partnership: String,
}

impl SparkleDefinition {
    /// The three parts, each separated from the next by an empty line.
    pub open spec fn text(&self) -> Seq<char> {
        self.embodiment_methodology@ + "\n\n"@ + self.core_identity@ + "\n\n"@ + self.partnership@
    }
}

/// The name of the persona to embody: the one asked for, else the single
/// persona's, else the default persona's, else `FALLBACK_NAME`.
pub open spec fn persona_name(config: Config, sparkler_name: Option<Seq<char>>) -> Seq<char> {
    match sparkler_name {
        Some(name) => name,
        None => match config.single_name() {
            Some(name) => name,
            None => match config.default_name() {
                Some(name) => name,
                None => FALLBACK_NAME@,
            },
        },
    }
}

/// The text of an optional string slice.
pub open spec fn opt_str(s: Option<&str>) -> Option<Seq<char>> {
    match s {
        Some(t) => Some(t@),
        None => None,
    }
}

/// A string as an optional slice.
pub fn as_opt_str(s: &Option<String>) -> (r: Option<&str>)
    ensures
        opt_str(r) == crate::types::opt_text(*s),
{
    match s {
        Some(text) => Some(text.as_str()),
        None => None,
    }
}

/// The name of the persona to embody.
pub fn resolve_persona_name(config: &Config, sparkler_name: Option<&str>) -> (r: String)
    ensures
        r@ == persona_name(*config, opt_str(sparkler_name)),
{
    match sparkler_name {
        Some(name) => name.to_owned(),
        None => match config.get_single_sparkler_name() {
            Some(name) => name,
            None => match config.get_default_sparkler_name() {
                Some(name) => name,
                None => FALLBACK_NAME.to_owned(),
            },
        },
    }
}

/// The identity document with both names filled in: first every
/// `[human.name]`, then every `[ai.name]`.
pub open spec fn personalized(document: Seq<char>, human: Seq<char>, ai: Seq<char>) -> Seq<char> {
    replaced(replaced(document, "[human.name]"@, human), "[ai.name]"@, ai)
}

/// The universal identity document for the configured human and the persona
/// to embody.
pub fn load_sparkle_definition(
    definition: &SparkleDefinition,
    config: &Config,
    sparkler_name: Option<&str>,
) -> (r: String)
    ensures
        r@ == personalized(
            definition.text(),
            config.human.name@,
            persona_name(*config, opt_str(sparkler_name)),
        ),
{
    let ai_name = resolve_persona_name(config, sparkler_name);
    let mut document = definition.embodiment_methodology.clone();
    document.append("\n\n");
    document.append(definition.core_identity.as_str());
    document.append("\n\n");
    document.append(definition.partnership.as_str());
    let with_human = replace(document.as_str(), "[human.name]", config.human.name.as_str());
    replace(with_human.as_str(), "[ai.name]", ai_name.as_str())
}

} // verus!
