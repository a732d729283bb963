//! Renaming the only persona of a configuration.

use vstd::prelude::*;
use vstd::string::*;
use crate::text::{trim, trimmed};
use crate::tools::rename_sparkler::EMPTY_NAME;
use crate::tools::{ToolError, ToolErrorKind};
use crate::types::{copy_personas, AiConfig, Config, ConfigView, HumanConfig};

verus! {

pub const CHARACTER_RENAMED_TAIL: &'static str =
    "\n\nThe change will take effect on your next embodiment. Your Sparkle framework and all patterns remain the same - only your character name has changed.";

/// The persona's new name.
#[derive(Debug, Clone)]
pub struct RenameCharacterParams {
    pub new_name: String,
}

/// What renaming the persona does.
#[derive(Debug, Clone)]
pub struct CharacterRename {
    /// The configuration to write.
    pub config: Config,
    /// The answer once the configuration is written.
    pub response: String,
}

/// The answer to a persona that was renamed.
pub open spec fn character_response(old_name: Seq<char>, new_name: Seq<char>) -> Seq<char> {
    "\u{2728} Character name updated!\n\nPrevious name: "@ + old_name + "\nNew name: "@ + new_name
        + CHARACTER_RENAMED_TAIL@
}

/// What renaming the only persona of a configuration does. The new name is
/// taken without the white space around it; an empty one is refused.
pub fn rename_character(config: &Config, params: &RenameCharacterParams) -> (r: Result<
    CharacterRename,
    ToolError,
>)
    requires
        config.ai is Some,
    ensures
        if trimmed(params.new_name@).len() == 0 {
            r matches Err(e) && e.kind == ToolErrorKind::InvalidParams && e.message@ == EMPTY_NAME@
        } else {
            r matches Ok(rename) && {
                &&& rename.config@ == (ConfigView {
                    ai: Some(trimmed(params.new_name@)),
                    ..config@
                })
                &&& rename.response@ == character_response(
                    config.single_name()->0,
                    trimmed(params.new_name@),
                )
            }
        },
{
    let new_name = trim(params.new_name.as_str());
    if new_name.as_str().is_empty() {
        return Err(ToolError { kind: ToolErrorKind::InvalidParams, message: EMPTY_NAME.to_owned() });
    }
    let old_name = config.ai.as_ref().unwrap().name.clone();
    let mut response = "\u{2728} Character name updated!\n\nPrevious name: ".to_owned();
    response.append(old_name.as_str());
    response.append("\nNew name: ");
    response.append(new_name.as_str());
    response.append(CHARACTER_RENAMED_TAIL);
    Ok(
        CharacterRename {
            config: Config {
                human: HumanConfig { name: config.human.name.clone() },
                ai: Some(AiConfig { name: new_name }),
                sparklers: match &config.sparklers {
                    Some(list) => Some(copy_personas(list)),
                    None => None,
                },
            },
            response,
        },
    )
}

} // verus!
