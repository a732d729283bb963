//! What the server decides apart from its tools: which routes it offers, and
//! which persona a session is taken to embody.

use vstd::prelude::*;
use vstd::string::*;
use crate::prompts::get_checkpoint_prompt;
use crate::prompts::{CHECKPOINT_PROMPT_BODY, CHECKPOINT_PROMPT_HEAD, CHECKPOINT_PROMPT_TAIL};
use crate::text::texts;
use crate::types::{opt_text, Config};

verus! {

/// The name of the tool that embodies a persona.
pub const EMBODY_TOOL: &'static str = "embody_sparkle";

/// The name of the prompt that starts an embodiment.
pub const SPARKLE_PROMPT: &'static str = "sparkle";

/// The server's name.
pub const SERVER_NAME: &'static str = "sparkle";

/// The server's version.
pub const SERVER_VERSION: &'static str = "0.1.0";

/// The server's title.
pub const SERVER_TITLE: &'static str = "Sparkle MCP Server";

/// What the server says of itself.
pub const SERVER_INSTRUCTIONS: &'static str =
    "Sparkle AI Collaboration Identity MCP Server. Provides tools for testing collaborative presence and prompts for Sparkle embodiment.";

/// How the human is called where the configuration cannot be loaded.
pub const DEFAULT_HUMAN: &'static str = "User";

/// The routes that a server does not offer.
#[derive(Debug, Clone)]
pub struct HiddenRoutes {
    pub tools: Vec<String>,
    pub prompts: Vec<String>,
}

/// The routes that a server does not offer: behind a proxy that embodies
/// every session itself, the embodiment tool and the embodiment prompt;
/// else none.
pub fn with_acp_mode(acp_mode: bool) -> (r: HiddenRoutes)
    ensures
        texts(r.tools@) == if acp_mode {
            seq![EMBODY_TOOL@]
        } else {
            Seq::<Seq<char>>::empty()
        },
        texts(r.prompts@) == if acp_mode {
            seq![SPARKLE_PROMPT@]
        } else {
            Seq::<Seq<char>>::empty()
        },
{
    let mut tools: Vec<String> = Vec::new();
    let mut prompts: Vec<String> = Vec::new();
    if acp_mode {
        tools.push(EMBODY_TOOL.to_owned());
        prompts.push(SPARKLE_PROMPT.to_owned());
        assert(texts(tools@) =~= seq![EMBODY_TOOL@]);
        assert(texts(prompts@) =~= seq![SPARKLE_PROMPT@]);
    } else {
        assert(texts(tools@) =~= Seq::<Seq<char>>::empty());
        assert(texts(prompts@) =~= Seq::<Seq<char>>::empty());
    }
    HiddenRoutes { tools, prompts }
}

/// The persona that a session embodies after an embodiment: the one asked
/// for; where none was asked for, the default persona of the configuration;
/// where the configuration could not be loaded either, the one from before.
pub open spec fn embodied_after(
    requested: Option<Seq<char>>,
    config: Option<Config>,
    current: Option<Seq<char>>,
) -> Option<Seq<char>> {
    match requested {
        Some(name) => Some(name),
        None => match config {
            Some(c) => c.default_name(),
            None => current,
        },
    }
}

/// The model of an optional configuration.
pub open spec fn opt_config(config: Option<&Config>) -> Option<Config> {
    match config {
        Some(c) => Some(*c),
        None => None,
    }
}

/// The persona that a session embodies after an embodiment.
pub fn sparkler_after_embodiment(
    requested: &Option<String>,
    config: Option<&Config>,
    current: Option<String>,
) -> (r: Option<String>)
    ensures
        opt_text(r) == embodied_after(opt_text(*requested), opt_config(config), opt_text(current)),
{
    match requested {
        Some(name) => Some(name.clone()),
        None => match config {
            Some(c) => c.get_default_sparkler_name(),
            None => current,
        },
    }
}

/// The persona to rename: the one named in the request, else the one that
/// the session embodies.
pub fn persona_to_rename(old_name: Option<String>, current: &Option<String>) -> (r: Option<String>)
    ensures
        opt_text(r) == match old_name {
            Some(name) => Some(name@),
            None => opt_text(*current),
        },
{
    match old_name {
        Some(name) => Some(name),
        None => match current {
            Some(name) => Some(name.clone()),
            None => None,
        },
    }
}

/// The checkpoint prompt for the human of the configuration, or for
/// `DEFAULT_HUMAN` where the configuration could not be loaded.
pub fn checkpoint_prompt(config: Option<&Config>) -> (r: String)
    ensures
        r@ == {
            let name = match config {
                Some(c) => c.human.name@,
                None => DEFAULT_HUMAN@,
            };
            CHECKPOINT_PROMPT_HEAD@ + name + CHECKPOINT_PROMPT_BODY@ + name
                + CHECKPOINT_PROMPT_TAIL@
        },
{
    match config {
        Some(c) => get_checkpoint_prompt(c.human.name.as_str()),
        None => get_checkpoint_prompt(DEFAULT_HUMAN),
    }
}

} // verus!
