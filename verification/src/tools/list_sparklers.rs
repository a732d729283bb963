//! Listing the configured personas.

use vstd::prelude::*;
use vstd::string::*;
use crate::constants::FALLBACK_NAME;
use crate::types::{Config, SparklerConfig};

verus! {

pub const LIST_HEAD: &'static str = "**Available Sparklers:**\n\n";

/// The parameters of the request to list the personas: none.
#[derive(Debug, Clone)]
pub struct ListSparklersParams {}

/// The line of one persona.
pub open spec fn persona_line(persona: SparklerConfig) -> Seq<char> {
    if persona.default {
        "\u{2022} "@ + persona.name@ + " (default)\n"@
    } else {
        "\u{2022} "@ + persona.name@ + "\n"@
    }
}

/// The lines of a list of personas, one after the other.
pub open spec fn persona_lines(list: Seq<SparklerConfig>) -> Seq<char>
    decreases list.len(),
{
    if list.len() == 0 {
        Seq::empty()
    } else {
        persona_lines(list.drop_last()) + persona_line(list.last())
    }
}

/// The list of the configured personas: one line for each, the ones flagged
/// as default marked; where one persona is configured, its line alone.
pub open spec fn sparkler_list(config: Config) -> Seq<char> {
    if config.multi() {
        LIST_HEAD@ + persona_lines(config.personas())
    } else {
        LIST_HEAD@ + "\u{2022} "@ + (match config.single_name() {
            Some(name) => name,
            None => FALLBACK_NAME@,
        }) + " (single-sparkler mode)\n"@
    }
}

/// The list of the configured personas.
pub fn list_sparklers(config: &Config) -> (r: String)
    ensures
        r@ == sparkler_list(*config),
{
    let mut response = LIST_HEAD.to_owned();
    match &config.sparklers {
        Some(list) => {
            let mut i: usize = 0;
            assert(list@.take(0) =~= Seq::empty());
            assert(response@ =~= LIST_HEAD@ + persona_lines(list@.take(0)));
            while i < list.len()
                invariant
                    i <= list.len(),
                    response@ == LIST_HEAD@ + persona_lines(list@.take(i as int)),
                decreases list.len() - i,
            {
                let ghost before = response@;
                response.append("\u{2022} ");
                response.append(list[i].name.as_str());
                if list[i].default {
                    response.append(" (default)\n");
                } else {
                    response.append("\n");
                }
                proof {
                    assert(list@.take(i + 1).drop_last() =~= list@.take(i as int));
                    assert(list@.take(i + 1).last() == list@[i as int]);
                    assert(response@ =~= before + persona_line(list@[i as int]));
                    assert(response@ =~= LIST_HEAD@ + (persona_lines(list@.take(i as int))
                        + persona_line(list@[i as int])));
                }
                i += 1;
            }
            assert(list@.take(list.len() as int) =~= list@);
        },
        None => {
            response.append("\u{2022} ");
            match config.get_single_sparkler_name() {
                Some(name) => response.append(name.as_str()),
                None => response.append(FALLBACK_NAME),
            }
            response.append(" (single-sparkler mode)\n");
        },
    }
    response
}

} // verus!
