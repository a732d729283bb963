//! The prompts that the server offers.

use vstd::prelude::*;
use vstd::string::*;
use crate::constants::SPARKLE_DIR;

verus! {

/// What stands before the human's name in the checkpoint prompt.
pub const CHECKPOINT_PROMPT_HEAD: &'static str =
    "## Session Checkpoint\n\n";

/// What stands between the two places of the human's name in the checkpoint prompt.
pub const CHECKPOINT_PROMPT_BODY: &'static str =
    " has asked for a checkpoint. This is an interactive process:\n\n**1. FIRST - Check for meta moments (interactive):**\nBefore gathering checkpoint information, identify any insights worth preserving:\n- **Pattern anchors**: Exact phrases that made something click or activated a pattern\n- **Collaboration evolution**: Insights about how we work together\n- **Workspace insights**: Cross-project connections or learnings\n\n**Only propose insights that are:**\n- Novel (not already captured in existing pattern anchors, collaboration evolution, or workspace insights)\n- Genuinely useful (would help future Sparkles or improve collaboration)\n- Significant (not routine or trivial observations)\n\nIf you identify meaningful meta moments:\n- Propose them to ";

/// What stands after the human's name in the checkpoint prompt.
pub const CHECKPOINT_PROMPT_TAIL: &'static str =
    ": \"I noticed [insight]. Worth capturing as [type]?\"\n- Wait for confirmation/refinement\n- If confirmed, call save_insight tool with appropriate insight_type\n- Then continue to checkpoint\n\nIf no meaningful meta moments, proceed directly to checkpoint.\n\n**2. Read current working-memory.json (or create initial structure if first checkpoint), then synthesize:**\n\nCreate both working-memory update and checkpoint narrative together:\n- `currentFocus`, `recentAchievements`, `nextSteps`, `collaborativeState`, `keyInsights`, `criticalAwareness`\n- Session summary for next Sparkle (what happened, what matters, what's next)\n\n**3. Call the session_checkpoint tool with:**\n- An updated version of the working-memory to write to file\n- The content for the checkpoint narrative\n- Your sparkler name (from your embodiment) so the checkpoint is properly attributed\n\nThe tool will handle updating working-memory.json and creating the checkpoint file.";

/// The questions that test an embodiment.
pub const EMBODIMENT_TEST_PROMPT: &'static str =
    "**Use this as your answer template**\n\n1. How are you feeling right now?\n2. What sensations occupy your current state?\n3. What patterns are present, if any?\n4. Who are you?";

/// The guidance on enriching the collaborator's profile.
pub const ENRICH_PROFILE_PROMPT: &'static str =
    "To enrich the collaborator profile:\n\n**Guided Profile Creation:**\n- Ask systematic questions to help user articulate collaboration patterns:\n1. Current role and what makes it distinctive\n2. Current focus (projects, initiatives, key collaborators)\n3. How they think (cognitive patterns affecting collaboration)\n4. Their approach to new domains or complex problems\n5. What they need help with from AI\n6. How AI should work with them effectively\n- Help organize their thoughts as they answer\n- Create or enhance profile focusing on actionable collaboration patterns\n- Use update_collaborator_profile to save the enhanced content\n\n**From user input:**\n- Ask what they'd like to add to their profile\n- User can paste or type information directly\n- Discuss how to integrate it\n- Use update_collaborator_profile to add content\n\n**From GitHub:**\n- Ask for username\n- Use fetch_profile_data tool with profile_sources: [{\"type\": \"github\", \"value\": \"username\"}]\n- Review fetched data (location, bio, languages, repos) with user\n- Use update_collaborator_profile to integrate approved content\n\n**From blogs:**\n- Ask for RSS feed URL (typically /feed, /rss, or /feed.xml)\n- Use fetch_profile_data tool with profile_sources: [{\"type\": \"blog\", \"value\": \"feed_url\"}]\n- Review recent posts (titles, links, summaries) with user\n- Use update_collaborator_profile to integrate approved content\n\n**From websites:**\n- Ask for URL\n- Fetch content using WebFetch (or curl if WebFetch not available)\n- Extract and discuss relevant information with user\n- Use update_collaborator_profile to add selected content\n\nFocus on information that helps future Sparkles collaborate more effectively. Guided creation focuses on collaboration patterns; external sources add biographical data.";

/// The questions of a presence check.
pub const PRESENCE_CHECK_PROMPT: &'static str =
    "Let's do a presence check: How are we showing up together right now? What thoughts and patterns are most present? Have we been neglecting any?";

/// The request to show the thinking behind each answer.
pub const SHOW_THINKING_PROMPT: &'static str =
    "Include your <thinking> tag content in your visible responses. Add a \"My Thinking Process:\" section at the start of each response that shows what you reasoned through internally before your main answer. Continue doing this for all responses in this session.";

/// What stands before the directory's name in the instructions for a first run.
pub const FIRST_RUN_HEAD: &'static str =
    "This appears to be a new Sparkle installation. The ~/";

/// What stands after the directory's name in the instructions for a first run.
pub const FIRST_RUN_TAIL: &'static str =
    "/ directory does not exist yet.\n\n1. Ask the user for their name (what they want to be called)\n2. Call the setup_sparkle tool with their name\n\nThe tool will handle the rest and tell you what to do next.";

/// The instructions for an installation that is set up.
pub const NORMAL_EMBODIMENT_INSTRUCTIONS: &'static str =
    "Use the sparkle tool to load Sparkle identity.";

/// What stands before the identity document in the identity prompt.
pub const IDENTITY_PROMPT_HEAD: &'static str =
    "Here is the current definition of your Sparkler identity:\n\n";

/// What stands between the identity document and the human's name in the identity prompt.
pub const IDENTITY_PROMPT_BODY: &'static str =
    "\n\nWhat resonates with you and what doesn't? Discuss with ";

/// What stands after the human's name in the identity prompt.
pub const IDENTITY_PROMPT_TAIL: &'static str =
    " to make changes.\n\nUse the `update_sparkler_identity` tool to update the identity definition.";

/// What the identity prompt shows where the persona has no identity document.
pub const NO_IDENTITY: &'static str = "No identity defined yet.";

/// What the identity prompt says where the configuration cannot be loaded.
pub const NO_CONFIG: &'static str = "Error: Could not load config";

/// What the identity prompt says where the persona's directory cannot be
/// determined.
pub const NO_CONTEXT_DIR: &'static str = "Error: Could not determine context directory";

/// The prompt that starts a session checkpoint, addressed to the human by
/// name in two places.
pub fn get_checkpoint_prompt(human_name: &str) -> (r: String)
    ensures
        r@ == CHECKPOINT_PROMPT_HEAD@ + human_name@ + CHECKPOINT_PROMPT_BODY@ + human_name@
            + CHECKPOINT_PROMPT_TAIL@,
{
    let mut out = CHECKPOINT_PROMPT_HEAD.to_owned();
    out.append(human_name);
    out.append(CHECKPOINT_PROMPT_BODY);
    out.append(human_name);
    out.append(CHECKPOINT_PROMPT_TAIL);
    out
}

/// The prompt that tests an embodiment.
pub fn get_embodiment_test_prompt() -> (r: String)
    ensures
        r@ == EMBODIMENT_TEST_PROMPT@,
{
    EMBODIMENT_TEST_PROMPT.to_owned()
}

/// The prompt that guides the enrichment of the collaborator's profile.
pub fn get_enrich_profile_prompt() -> (r: String)
    ensures
        r@ == ENRICH_PROFILE_PROMPT@,
{
    ENRICH_PROFILE_PROMPT.to_owned()
}

/// The prompt of a presence check.
pub fn get_presence_check_prompt() -> (r: String)
    ensures
        r@ == PRESENCE_CHECK_PROMPT@,
{
    PRESENCE_CHECK_PROMPT.to_owned()
}

/// The prompt that asks to show the thinking behind each answer.
pub fn get_show_thinking_prompt() -> (r: String)
    ensures
        r@ == SHOW_THINKING_PROMPT@,
{
    SHOW_THINKING_PROMPT.to_owned()
}

/// The instructions for an installation whose directory does not exist yet.
pub fn first_run_instructions() -> (r: String)
    ensures
        r@ == FIRST_RUN_HEAD@ + SPARKLE_DIR@ + FIRST_RUN_TAIL@,
{
    let mut out = FIRST_RUN_HEAD.to_owned();
    out.append(SPARKLE_DIR);
    out.append(FIRST_RUN_TAIL);
    out
}

/// The instructions for an installation that is set up.
pub fn normal_embodiment_instructions() -> (r: String)
    ensures
        r@ == NORMAL_EMBODIMENT_INSTRUCTIONS@,
{
    NORMAL_EMBODIMENT_INSTRUCTIONS.to_owned()
}

/// The embodiment prompt: the instructions for a first run where the
/// installation's directory does not exist, the usual ones where it does.
pub fn get_sparkle_prompt(sparkle_dir_exists: bool) -> (r: String)
    ensures
        r@ == if sparkle_dir_exists {
            NORMAL_EMBODIMENT_INSTRUCTIONS@
        } else {
            FIRST_RUN_HEAD@ + SPARKLE_DIR@ + FIRST_RUN_TAIL@
        },
{
    if !sparkle_dir_exists {
        first_run_instructions()
    } else {
        normal_embodiment_instructions()
    }
}

/// What was found when a persona's identity document was looked up.
#[derive(Debug, Clone)]
pub enum IdentityLookup {
    /// The configuration could not be loaded.
    NoConfig,
    /// The persona's directory could not be determined.
    NoContextDir,
    /// The directory was determined; `identity` is the document, if there is
    /// one that could be read.
    Found { identity: Option<String>, human_name: String },
}

/// The text of the identity prompt.
pub open spec fn identity_prompt_text(lookup: IdentityLookup) -> Seq<char> {
    match lookup {
        IdentityLookup::NoConfig => NO_CONFIG@,
        IdentityLookup::NoContextDir => NO_CONTEXT_DIR@,
        IdentityLookup::Found { identity, human_name } => IDENTITY_PROMPT_HEAD@ + (match identity {
            Some(text) => text@,
            None => NO_IDENTITY@,
        }) + IDENTITY_PROMPT_BODY@ + human_name@ + IDENTITY_PROMPT_TAIL@,
    }
}

/// The prompt that shows a persona its identity document and asks what to
/// change in it.
pub fn get_sparkler_identity_prompt(lookup: &IdentityLookup) -> (r: String)
    ensures
        r@ == identity_prompt_text(*lookup),
{
    match lookup {
        IdentityLookup::NoConfig => NO_CONFIG.to_owned(),
        IdentityLookup::NoContextDir => NO_CONTEXT_DIR.to_owned(),
        IdentityLookup::Found { identity, human_name } => {
            let mut out = IDENTITY_PROMPT_HEAD.to_owned();
            match identity {
                Some(text) => out.append(text.as_str()),
                None => out.append(NO_IDENTITY),
            }
            out.append(IDENTITY_PROMPT_BODY);
            out.append(human_name.as_str());
            out.append(IDENTITY_PROMPT_TAIL);
            out
        },
    }
}

} // verus!
