//! Configuration and parameter types.

use vstd::prelude::*;

verus! {

/// The person the assistant collaborates with.
#[derive(Debug, Clone)]
pub struct HumanConfig {
    pub name: String,
}

/// The single persona of a configuration that names just one.
#[derive(Debug, Clone)]
pub struct AiConfig {
    pub name: String,
}

/// One persona of a configuration that lists several.
#[derive(Debug, Clone)]
pub struct SparklerConfig {
    pub name: String,
    pub default: bool,
}

/// The user's configuration: a human name and either one persona (`ai`) or a
/// list of personas (`sparklers`).
#[derive(Debug, Clone)]
pub struct Config {
    pub human: HumanConfig,
    pub ai: Option<AiConfig>,
    pub sparklers: Option<Vec<SparklerConfig>>,
}

/// The model of a persona in a list.
pub struct SparklerView {
    pub name: Seq<char>,
    pub default: bool,
}

impl View for SparklerConfig {
    type V = SparklerView;

    open spec fn view(&self) -> SparklerView {
        SparklerView { name: self.name@, default: self.default }
    }
}

/// The models of a list of personas.
pub open spec fn persona_views(list: Seq<SparklerConfig>) -> Seq<SparklerView> {
    Seq::new(list.len(), |i: int| list[i]@)
}

/// The model of a configuration.
pub struct ConfigView {
    pub human: Seq<char>,
    pub ai: Option<Seq<char>>,
    pub sparklers: Option<Seq<SparklerView>>,
}

impl View for Config {
    type V = ConfigView;

    open spec fn view(&self) -> ConfigView {
        ConfigView {
            human: self.human.name@,
            ai: self.single_name(),
            sparklers: match self.sparklers {
                Some(list) => Some(persona_views(list@)),
                None => None,
            },
        }
    }
}

/// The text of an optional string.
pub open spec fn opt_text(s: Option<String>) -> Option<Seq<char>> {
    match s {
        Some(t) => Some(t@),
        None => None,
    }
}

/// The names of a list of personas, in order.
pub open spec fn persona_names(list: Seq<SparklerConfig>) -> Seq<Seq<char>> {
    Seq::new(list.len(), |i: int| list[i].name@)
}

/// Whether position `i` holds the effective default of `list`: the first
/// persona that is flagged as default, or the first persona when none is.
pub open spec fn is_default_at(list: Seq<SparklerConfig>, i: int) -> bool {
    &&& 0 <= i < list.len()
    &&& forall|j: int| 0 <= j < i ==> !list[j].default
    &&& (list[i].default || i == 0)
    &&& (!list[i].default ==> forall|j: int| 0 <= j < list.len() ==> !list[j].default)
}

/// The position of the effective default of a list of personas.
pub open spec fn default_index(list: Seq<SparklerConfig>) -> int {
    choose|i: int| is_default_at(list, i)
}

/// A list of personas has at most one effective default.
pub proof fn lemma_default_unique(list: Seq<SparklerConfig>, i: int, k: int)
    requires
        is_default_at(list, i),
        is_default_at(list, k),
    ensures
        i == k,
{
}

impl Config {
    /// Whether the configuration lists several personas.
    pub open spec fn multi(&self) -> bool {
        self.sparklers is Some
    }

    /// The personas listed, empty when the configuration names just one.
    pub open spec fn personas(&self) -> Seq<SparklerConfig> {
        match self.sparklers {
            Some(list) => list@,
            None => Seq::empty(),
        }
    }

    /// The name of the single persona, if the configuration has one.
    pub open spec fn single_name(&self) -> Option<Seq<char>> {
        match self.ai {
            Some(ai) => Some(ai.name@),
            None => None,
        }
    }

    /// The name of the effective default among the listed personas.
    pub open spec fn default_name(&self) -> Option<Seq<char>> {
        if self.personas().len() == 0 {
            None
        } else {
            Some(self.personas()[default_index(self.personas())].name@)
        }
    }

    /// Whether a persona of the given name is listed.
    pub open spec fn lists(&self, name: Seq<char>) -> bool {
        persona_names(self.personas()).contains(name)
    }

    /// Whether the configuration lists several personas rather than naming one.
    pub fn is_multi_sparkler(&self) -> (r: bool)
        ensures
            r == self.multi(),
    {
        self.sparklers.is_some()
    }

    /// The name of the single persona, if the configuration has one.
    pub fn get_single_sparkler_name(&self) -> (r: Option<String>)
        ensures
            opt_text(r) == self.single_name(),
    {
        match &self.ai {
            Some(ai) => Some(ai.name.clone()),
            None => None,
        }
    }

    /// The name of the default persona: the first one flagged as default, or
    /// the first one listed when none is flagged. `None` when no persona is
    /// listed.
    pub fn get_default_sparkler_name(&self) -> (r: Option<String>)
        ensures
            opt_text(r) == self.default_name(),
    {
        match &self.sparklers {
            None => None,
            Some(list) => {
                if list.len() == 0 {
                    return None;
                }
                let mut i: usize = 0;
                while i < list.len()
                    invariant
                        i <= list.len(),
                        self.personas() == list@,
                        forall|j: int| 0 <= j < i ==> !list@[j].default,
                    decreases list.len() - i,
                {
                    if list[i].default {
                        proof {
                            assert(is_default_at(list@, i as int));
                            lemma_default_unique(list@, i as int, default_index(list@));
                        }
                        return Some(list[i].name.clone());
                    }
                    i += 1;
                }
                proof {
                    assert(is_default_at(list@, 0));
                    lemma_default_unique(list@, 0, default_index(list@));
                }
                Some(list[0].name.clone())
            },
        }
    }

    /// The names of all listed personas, in order.
    pub fn get_all_sparkler_names(&self) -> (r: Vec<String>)
        ensures
            crate::text::texts(r@) == persona_names(self.personas()),
    {
        let mut names: Vec<String> = Vec::new();
        match &self.sparklers {
            None => {
                assert(crate::text::texts(names@) == persona_names(self.personas()));
            },
            Some(list) => {
                let mut i: usize = 0;
                while i < list.len()
                    invariant
                        i <= list.len(),
                        self.personas() == list@,
                        crate::text::texts(names@) == persona_names(list@).take(i as int),
                    decreases list.len() - i,
                {
                    let ghost before = names@;
                    assert(crate::text::texts(before).len() == before.len());
                    assert(persona_names(list@).take(i as int).len() == i);
                    names.push(list[i].name.clone());
                    assert(crate::text::texts(names@) =~= persona_names(list@).take(i + 1)) by {
                        assert forall|j: int| 0 <= j < i + 1 implies crate::text::texts(names@)[j]
                            == persona_names(list@).take(i + 1)[j] by {
                            if j < i {
                                assert(crate::text::texts(before)[j] == persona_names(list@).take(
                                    i as int,
                                )[j]);
                            }
                        }
                    }
                    i += 1;
                }
                assert(persona_names(list@).take(list.len() as int) == persona_names(list@));
            },
        }
        names
    }
}

/// What to embody: an assembly mode, the workspace to load state from, and
/// the persona to embody.
#[derive(Debug, Clone)]
pub struct FullEmbodimentParams {
    pub mode: Option<String>,
    pub workspace_path: Option<String>,
    pub sparkler: Option<String>,
}

/// Parameters of the request to load the evolution documents: none.
#[derive(Debug, Clone)]
pub struct LoadEvolutionParams {}

/// A session checkpoint to record.
#[derive(Debug, Clone)]
pub struct CheckpointParams {
    /// The new content of the working memory document.
    pub working_memory: String,
    /// The narrative of the checkpoint.
    pub checkpoint_content: String,
    /// The persona that records the checkpoint.
    pub sparkler: Option<String>,
}

/// The kind of an insight.
#[derive(Debug, Clone, Copy, PartialEq, Eq, Structural)]
pub enum InsightType {
    /// Exact words that recreate a collaborative pattern.
    PatternAnchor,
    /// An insight about how the collaboration works.
    CollaborationEvolution,
    /// Information about the workspace and connections across projects.
    WorkspaceInsight,
}

/// An insight to save.
#[derive(Debug, Clone)]
pub struct SaveInsightParams {
    pub insight_type: InsightType,
    /// The insight itself.
    pub content: String,
    /// When or why the insight came up.
    pub context: Option<String>,
    pub tags: Option<Vec<String>>,
    /// The persona that saves the insight.
    pub sparkler: Option<String>,
}

/// The position of the first persona flagged as default, if one is.
pub open spec fn first_flagged(list: Seq<SparklerConfig>) -> Option<int>
    decreases list.len(),
{
    if list.len() == 0 {
        None
    } else {
        match first_flagged(list.drop_last()) {
            Some(i) => Some(i),
            None => if list.last().default {
                Some(list.len() - 1)
            } else {
                None
            },
        }
    }
}

/// The position of the first persona of the given name, if there is one.
pub open spec fn first_named(list: Seq<SparklerConfig>, name: Seq<char>) -> Option<int>
    decreases list.len(),
{
    if list.len() == 0 {
        None
    } else {
        match first_named(list.drop_last(), name) {
            Some(i) => Some(i),
            None => if list.last().name@ == name {
                Some(list.len() - 1)
            } else {
                None
            },
        }
    }
}

/// A name that a persona of the list has is found in the list.
pub proof fn lemma_named_is_found(list: Seq<SparklerConfig>, name: Seq<char>, k: int)
    requires
        0 <= k < list.len(),
        list[k].name@ == name,
    ensures
        first_named(list, name) is Some,
    decreases list.len(),
{
    if k < list.len() - 1 {
        lemma_named_is_found(list.drop_last(), name, k);
    }
}

/// The position of the first persona flagged as default.
pub fn find_flagged(list: &Vec<SparklerConfig>) -> (r: Option<usize>)
    ensures
        match r {
            Some(i) => first_flagged(list@) == Some(i as int) && i < list.len()
                && list@[i as int].default,
            None => first_flagged(list@) is None,
        },
{
    let mut i: usize = 0;
    assert(list@.take(0) =~= Seq::empty());
    while i < list.len()
        invariant
            i <= list.len(),
            first_flagged(list@.take(i as int)) is None,
        decreases list.len() - i,
    {
        proof {
            assert(list@.take(i + 1).drop_last() =~= list@.take(i as int));
            assert(list@.take(i + 1).last() == list@[i as int]);
        }
        if list[i].default {
            proof {
                lemma_flagged_stays(list@, i + 1);
            }
            return Some(i);
        }
        i += 1;
    }
    assert(list@.take(list.len() as int) =~= list@);
    None
}

/// What is first among the first `n` personas is first among all.
proof fn lemma_flagged_stays(list: Seq<SparklerConfig>, n: int)
    requires
        0 <= n <= list.len(),
        first_flagged(list.take(n)) is Some,
    ensures
        first_flagged(list) == first_flagged(list.take(n)),
    decreases list.len() - n,
{
    if n < list.len() {
        assert(list.take(n + 1).drop_last() =~= list.take(n));
        lemma_flagged_stays(list, n + 1);
    } else {
        assert(list.take(n) =~= list);
    }
}

/// What is first among the first `n` personas is first among all.
proof fn lemma_named_stays(list: Seq<SparklerConfig>, name: Seq<char>, n: int)
    requires
        0 <= n <= list.len(),
        first_named(list.take(n), name) is Some,
    ensures
        first_named(list, name) == first_named(list.take(n), name),
    decreases list.len() - n,
{
    if n < list.len() {
        assert(list.take(n + 1).drop_last() =~= list.take(n));
        lemma_named_stays(list, name, n + 1);
    } else {
        assert(list.take(n) =~= list);
    }
}

/// The position of the first persona of the given name.
pub fn find_named(list: &Vec<SparklerConfig>, name: &str) -> (r: Option<usize>)
    ensures
        match r {
            Some(i) => first_named(list@, name@) == Some(i as int) && i < list.len()
                && list@[i as int].name@ == name@,
            None => first_named(list@, name@) is None,
        },
{
    let mut i: usize = 0;
    assert(list@.take(0) =~= Seq::empty());
    while i < list.len()
        invariant
            i <= list.len(),
            first_named(list@.take(i as int), name@) is None,
        decreases list.len() - i,
    {
        proof {
            assert(list@.take(i + 1).drop_last() =~= list@.take(i as int));
            assert(list@.take(i + 1).last() == list@[i as int]);
        }
        if crate::text::same_text(list[i].name.as_str(), name) {
            proof {
                lemma_named_stays(list@, name@, i + 1);
            }
            return Some(i);
        }
        i += 1;
    }
    assert(list@.take(list.len() as int) =~= list@);
    None
}

/// A copy of a list of personas.
pub fn copy_personas(list: &Vec<SparklerConfig>) -> (r: Vec<SparklerConfig>)
    ensures
        persona_views(r@) == persona_views(list@),
{
    let mut out: Vec<SparklerConfig> = Vec::new();
    let mut i: usize = 0;
    while i < list.len()
        invariant
            i <= list.len(),
            out.len() == i,
            forall|j: int| 0 <= j < i ==> out@[j]@ == list@[j]@,
        decreases list.len() - i,
    {
        out.push(SparklerConfig { name: list[i].name.clone(), default: list[i].default });
        i += 1;
    }
    assert(persona_views(out@) =~= persona_views(list@));
    out
}

/// A copy of a configuration.
pub fn copy_config(config: &Config) -> (r: Config)
    ensures
        r@ == config@,
{
    Config {
        human: HumanConfig { name: config.human.name.clone() },
        ai: match &config.ai {
            Some(ai) => Some(AiConfig { name: ai.name.clone() }),
            None => None,
        },
        sparklers: match &config.sparklers {
            Some(list) => Some(copy_personas(list)),
            None => None,
        },
    }
}

} // verus!
