//! Gathering material for the collaborator's profile: what to fetch for each
//! source, how a GitHub profile is summed up, and the answer that holds all
//! that was gathered.

use vstd::prelude::*;
use vstd::string::*;
use vstd::hash_map::StringHashMap;
use crate::text::{decimal, decimal_text, join, joined, same_text, texts};
use crate::sparkle_loader::opt_str;

verus! {

pub const PROMPT_HEAD: &'static str = "Evaluate how this fetched data fits into ";

pub const PROMPT_BODY: &'static str = "'s collaborator profile.\n\n## Current Profile:\n";

pub const PROMPT_TAIL: &'static str =
    "\n\n## Fetched Data:\nReview the fetched_content below and decide what to add and where. Use the update_collaborator_profile tool to write your changes. Make sure to get their input and consent if they like it!";

/// How the human is called where the configuration gives no name.
pub const UNNAMED_HUMAN: &'static str = "the user";

/// What stands for a profile that does not exist yet.
pub const NO_PROFILE: &'static str = "[No existing profile]";

/// Where GitHub describes its users.
pub const GITHUB_USERS: &'static str = "https://api.github.com/users/";

/// What asks GitHub for a user's repositories, the latest first.
pub const GITHUB_REPOS: &'static str = "/repos?sort=updated&per_page=100";

/// A source of material: its kind (`github`, `blog`, `url` or `text`) and
/// the user name, address or text that the kind calls for.
#[derive(Debug, Clone)]
pub struct ProfileSource {
    pub source_type: String,
    pub value: String,
}

/// What to gather: sources to fetch, and material that is given directly.
#[derive(Debug, Clone)]
pub struct FetchProfileDataParams {
    pub profile_sources: Option<Vec<ProfileSource>>,
    pub content: Option<String>,
    pub working_style: Option<String>,
    pub collaboration_prefs: Option<String>,
}

/// A piece of material and where it came from.
#[derive(Debug, Clone)]
pub struct FetchedContent {
    pub source_type: String,
    pub source_value: String,
    pub content: String,
}

/// All that was gathered, with the request to evaluate it.
#[derive(Debug, Clone)]
pub struct FetchResult {
    pub success: bool,
    pub prompt: String,
    pub fetched_content: Vec<FetchedContent>,
}

/// The model of a piece of material: its kind, its origin and its text.
pub type Piece = (Seq<char>, Seq<char>, Seq<char>);

impl View for FetchedContent {
    type V = Piece;

    open spec fn view(&self) -> Piece {
        (self.source_type@, self.source_value@, self.content@)
    }
}

/// The models of a list of pieces.
pub open spec fn pieces(list: Seq<FetchedContent>) -> Seq<Piece> {
    Seq::new(list.len(), |i: int| list[i]@)
}

/// How the material of a source is obtained.
#[derive(Debug, Clone)]
pub enum SourceFetch {
    /// From GitHub: the user under `user_url`, the repositories under
    /// `repos_url`.
    Github { user_url: String, repos_url: String },
    /// From the given address.
    Url { url: String },
    /// It is at hand.
    Ready { content: String },
    /// Not at all: the kind of source is not known.
    Unknown { message: String },
}

/// The model of a `SourceFetch`.
pub enum SourceFetchView {
    Github { user_url: Seq<char>, repos_url: Seq<char> },
    Url { url: Seq<char> },
    Ready { content: Seq<char> },
    Unknown { message: Seq<char> },
}

impl View for SourceFetch {
    type V = SourceFetchView;

    open spec fn view(&self) -> SourceFetchView {
        match *self {
            SourceFetch::Github { user_url, repos_url } => SourceFetchView::Github {
                user_url: user_url@,
                repos_url: repos_url@,
            },
            SourceFetch::Url { url } => SourceFetchView::Url { url: url@ },
            SourceFetch::Ready { content } => SourceFetchView::Ready { content: content@ },
            SourceFetch::Unknown { message } => SourceFetchView::Unknown { message: message@ },
        }
    }
}

/// What stands for the content of a blog.
pub open spec fn blog_text(url: Seq<char>) -> Seq<char> {
    "Blog content from "@ + url
}

/// How the material of a source of the given kind and value is obtained.
pub open spec fn source_fetch(source_type: Seq<char>, value: Seq<char>) -> SourceFetchView {
    if source_type == "github"@ {
        SourceFetchView::Github {
            user_url: GITHUB_USERS@ + value,
            repos_url: GITHUB_USERS@ + value + GITHUB_REPOS@,
        }
    } else if source_type == "blog"@ {
        SourceFetchView::Ready { content: blog_text(value) }
    } else if source_type == "url"@ {
        SourceFetchView::Url { url: value }
    } else if source_type == "text"@ {
        SourceFetchView::Ready { content: value }
    } else {
        SourceFetchView::Unknown { message: "Unknown source type: "@ + source_type }
    }
}

/// What stands for the content of the blog at the given address.
pub fn fetch_blog_rss(url: &str) -> (r: String)
    ensures
        r@ == blog_text(url@),
{
    let mut out = "Blog content from ".to_owned();
    out.append(url);
    out
}

/// How the material of a source is obtained.
pub fn fetch_profile_source(source: &ProfileSource) -> (r: SourceFetch)
    ensures
        r@ == source_fetch(source.source_type@, source.value@),
{
    let kind = source.source_type.as_str();
    if same_text(kind, "github") {
        let mut user_url = GITHUB_USERS.to_owned();
        user_url.append(source.value.as_str());
        let mut repos_url = GITHUB_USERS.to_owned();
        repos_url.append(source.value.as_str());
        repos_url.append(GITHUB_REPOS);
        SourceFetch::Github { user_url, repos_url }
    } else if same_text(kind, "blog") {
        SourceFetch::Ready { content: fetch_blog_rss(source.value.as_str()) }
    } else if same_text(kind, "url") {
        SourceFetch::Url { url: source.value.clone() }
    } else if same_text(kind, "text") {
        SourceFetch::Ready { content: source.value.clone() }
    } else {
        let mut message = "Unknown source type: ".to_owned();
        message.append(kind);
        SourceFetch::Unknown { message }
    }
}

/// The material of a source, with where it came from.
pub fn fetched_from(source: &ProfileSource, content: String) -> (r: FetchedContent)
    ensures
        r@ == (source.source_type@, source.value@, content@),
{
    FetchedContent {
        source_type: source.source_type.clone(),
        source_value: source.value.clone(),
        content,
    }
}

/// What is reported of a GitHub user that is not found.
pub fn github_user_not_found(username: &str) -> (r: String)
    ensures
        r@ == "GitHub user '"@ + username@ + "' not found"@,
{
    let mut out = "GitHub user '".to_owned();
    out.append(username);
    out.append("' not found");
    out
}

/// What is reported of an address that answers with a failure; `status`
/// says which.
pub fn url_fetch_failed(status: &str) -> (r: String)
    ensures
        r@ == "Failed to fetch URL: "@ + status@,
{
    let mut out = "Failed to fetch URL: ".to_owned();
    out.append(status);
    out
}

/// What GitHub tells of a user, each field `None` where GitHub gives no
/// text for it, and the main language of each of the user's repositories.
#[derive(Debug, Clone)]
pub struct GithubProfile {
    pub name: Option<String>,
    pub bio: Option<String>,
    pub company: Option<String>,
    pub location: Option<String>,
    pub blog: Option<String>,
    pub repo_languages: Vec<Option<String>>,
}

/// A language and the number of repositories written in it.
#[derive(Debug, Clone)]
pub struct LanguageCount {
    pub name: String,
    pub count: usize,
}

/// The model of a list of counts.
pub open spec fn counts_of(list: Seq<LanguageCount>) -> Seq<(Seq<char>, nat)> {
    Seq::new(list.len(), |i: int| (list[i].name@, list[i].count as nat))
}

/// The position of a language among the counts, if it is counted.
pub open spec fn counted_at(counts: Seq<(Seq<char>, nat)>, name: Seq<char>) -> Option<int>
    decreases counts.len(),
{
    if counts.len() == 0 {
        None
    } else {
        match counted_at(counts.drop_last(), name) {
            Some(i) => Some(i),
            None => if counts.last().0 == name {
                Some(counts.len() - 1)
            } else {
                None
            },
        }
    }
}

/// The counts with one more repository in the given language.
pub open spec fn counted(counts: Seq<(Seq<char>, nat)>, name: Seq<char>) -> Seq<(Seq<char>, nat)> {
    match counted_at(counts, name) {
        Some(i) => counts.update(i, (name, counts[i].1 + 1)),
        None => counts.push((name, 1)),
    }
}

/// The languages of the repositories with the number of repositories in
/// each, in the order in which the languages first occur.
pub open spec fn tally(languages: Seq<Option<String>>) -> Seq<(Seq<char>, nat)>
    decreases languages.len(),
{
    if languages.len() == 0 {
        Seq::empty()
    } else {
        match languages.last() {
            Some(name) => counted(tally(languages.drop_last()), name@),
            None => tally(languages.drop_last()),
        }
    }
}

/// The position of the greatest count, the first of several that are equal.
pub open spec fn leader(counts: Seq<(Seq<char>, nat)>) -> int
    decreases counts.len(),
{
    if counts.len() <= 1 {
        0
    } else if counts.last().1 > counts[leader(counts.drop_last())].1 {
        counts.len() - 1
    } else {
        leader(counts.drop_last())
    }
}

/// The first `n` languages by count, the greatest count first; of languages
/// with equal counts the one that occurs first comes first.
pub open spec fn ranked(counts: Seq<(Seq<char>, nat)>, n: nat) -> Seq<Seq<char>>
    decreases n,
{
    if n == 0 || counts.len() == 0 {
        Seq::empty()
    } else {
        seq![counts[leader(counts)].0] + ranked(counts.remove(leader(counts)), (n - 1) as nat)
    }
}

/// The three languages that most repositories are written in.
pub open spec fn top_languages(languages: Seq<Option<String>>) -> Seq<Seq<char>> {
    ranked(tally(languages), 3)
}

/// Where a language stands among the counts, or that it does not.
proof fn lemma_counted_at(counts: Seq<(Seq<char>, nat)>, name: Seq<char>)
    ensures
        match counted_at(counts, name) {
            Some(k) => 0 <= k < counts.len() && counts[k].0 == name,
            None => forall|j: int| 0 <= j < counts.len() ==> counts[j].0 != name,
        },
    decreases counts.len(),
{
    if counts.len() > 0 {
        lemma_counted_at(counts.drop_last(), name);
        assert forall|j: int| 0 <= j < counts.len() - 1 implies counts.drop_last()[j]
            == counts[j] by {}
    }
}

/// Whether no language is counted twice.
spec fn counted_once(counts: Seq<(Seq<char>, nat)>) -> bool {
    forall|a: int, b: int| 0 <= a < b < counts.len() ==> counts[a].0 != counts[b].0
}

/// Whether a map and a list of names hold the given counts: the names in
/// their order, and for each name its count.
spec fn holds_counts(
    map: Map<Seq<char>, usize>,
    order: Seq<String>,
    counts: Seq<(Seq<char>, nat)>,
) -> bool {
    &&& counted_once(counts)
    &&& order.len() == counts.len()
    &&& forall|j: int| 0 <= j < counts.len() ==> order[j]@ == counts[j].0
    &&& forall|j: int|
        0 <= j < counts.len() ==> map.contains_key(counts[j].0) && map[counts[j].0] as nat
            == counts[j].1
    &&& forall|name: Seq<char>|
        map.contains_key(name) ==> exists|j: int| 0 <= j < counts.len() && counts[j].0 == name
}

/// The languages of the repositories with the number of repositories in
/// each. A hash map does the counting; as it keeps no order, the languages
/// are listed beside it as they first occur.
fn count_languages(languages: &Vec<Option<String>>) -> (r: Vec<LanguageCount>)
    ensures
        counts_of(r@) == tally(languages@),
{
    let mut map: StringHashMap<usize> = StringHashMap::new();
    let mut order: Vec<String> = Vec::new();
    let mut i: usize = 0;
    assert(languages@.take(0) =~= Seq::empty());
    while i < languages.len()
        invariant
            i <= languages.len(),
            holds_counts(map@, order@, tally(languages@.take(i as int))),
            forall|j: int|
                0 <= j < tally(languages@.take(i as int)).len() ==> tally(
                    languages@.take(i as int),
                )[j].1 <= i,
        decreases languages.len() - i,
    {
        let ghost t = tally(languages@.take(i as int));
        proof {
            assert(languages@.take(i + 1).drop_last() =~= languages@.take(i as int));
            assert(languages@.take(i + 1).last() == languages@[i as int]);
        }
        match &languages[i] {
            Some(name) => {
                proof {
                    lemma_counted_at(t, name@);
                }
                let ghost before = map@;
                let seen = match map.get(name.as_str()) {
                    Some(count) => Some(*count),
                    None => None,
                };
                match seen {
                    Some(count) => {
                        let ghost k = counted_at(t, name@)->0;
                        assert(counted_at(t, name@) is Some);
                        assert(count as nat == t[k].1);
                        map.insert(name.clone(), count + 1);
                        proof {
                            let next = counted(t, name@);
                            assert(next == t.update(k, (name@, t[k].1 + 1)));
                            assert forall|j: int| 0 <= j < next.len() implies map@.contains_key(
                                next[j].0,
                            ) && map@[next[j].0] as nat == next[j].1 by {
                                if j != k {
                                    assert(t[j].0 != name@);
                                    assert(before.contains_key(t[j].0));
                                }
                            }
                            assert forall|n: Seq<char>| map@.contains_key(n) implies exists|
                                j: int,
                            |
                                0 <= j < next.len() && next[j].0 == n by {
                                if n == name@ {
                                    assert(next[k].0 == n);
                                } else {
                                    assert(before.contains_key(n));
                                    let j = choose|j: int| 0 <= j < t.len() && t[j].0 == n;
                                    assert(next[j].0 == n);
                                }
                            }
                            assert(holds_counts(map@, order@, next));
                        }
                    },
                    None => {
                        assert(counted_at(t, name@) is None) by {
                            if counted_at(t, name@) is Some {
                                assert(before.contains_key(t[counted_at(t, name@)->0].0));
                            }
                        }
                        map.insert(name.clone(), 1);
                        let ghost listed = order@;
                        order.push(name.clone());
                        proof {
                            let next = counted(t, name@);
                            assert(next == t.push((name@, 1nat)));
                            assert forall|j: int| 0 <= j < next.len() implies map@.contains_key(
                                next[j].0,
                            ) && map@[next[j].0] as nat == next[j].1 by {
                                if j < t.len() {
                                    assert(t[j].0 != name@);
                                    assert(before.contains_key(t[j].0));
                                }
                            }
                            assert forall|n: Seq<char>| map@.contains_key(n) implies exists|
                                j: int,
                            |
                                0 <= j < next.len() && next[j].0 == n by {
                                if n == name@ {
                                    assert(next[t.len() as int].0 == n);
                                } else {
                                    assert(before.contains_key(n));
                                    let j = choose|j: int| 0 <= j < t.len() && t[j].0 == n;
                                    assert(next[j].0 == n);
                                }
                            }
                            assert(holds_counts(map@, order@, next));
                        }
                    },
                }
            },
            None => {},
        }
        i += 1;
    }
    assert(languages@.take(languages.len() as int) =~= languages@);
    let ghost all = tally(languages@);
    let mut counts: Vec<LanguageCount> = Vec::new();
    let mut j: usize = 0;
    while j < order.len()
        invariant
            j <= order.len(),
            holds_counts(map@, order@, all),
            counts.len() == j,
            forall|k: int|
                0 <= k < j ==> counts@[k].name@ == all[k].0 && counts@[k].count as nat == all[k].1,
        decreases order.len() - j,
    {
        let name = order[j].clone();
        let count = *map.get(name.as_str()).unwrap();
        counts.push(LanguageCount { name, count });
        j += 1;
    }
    assert(counts_of(counts@) =~= all);
    counts
}

/// The position of the greatest count.
fn find_leader(counts: &Vec<LanguageCount>) -> (r: usize)
    requires
        counts.len() > 0,
    ensures
        r == leader(counts_of(counts@)),
        r < counts.len(),
{
    let ghost all = counts_of(counts@);
    let mut best: usize = 0;
    let mut i: usize = 1;
    assert(all.take(1).len() == 1);
    while i < counts.len()
        invariant
            1 <= i <= counts.len(),
            all == counts_of(counts@),
            best < i,
            best == leader(all.take(i as int)),
        decreases counts.len() - i,
    {
        proof {
            assert(all.take(i + 1).drop_last() =~= all.take(i as int));
            assert(all.take(i + 1).last() == all[i as int]);
            assert(all.take(i as int)[best as int] == all[best as int]);
        }
        if counts[i].count > counts[best].count {
            best = i;
        }
        i += 1;
    }
    assert(all.take(counts.len() as int) =~= all);
    best
}

/// The three languages that most repositories are written in.
pub fn top_three(languages: &Vec<Option<String>>) -> (r: Vec<String>)
    ensures
        texts(r@) == top_languages(languages@),
{
    let mut counts = count_languages(languages);
    let mut top: Vec<String> = Vec::new();
    let mut left: usize = 3;
    proof {
        assert(texts(top@) + ranked(counts_of(counts@), 3) =~= top_languages(languages@));
    }
    while left > 0 && counts.len() > 0
        invariant
            left <= 3,
            texts(top@) + ranked(counts_of(counts@), left as nat) == top_languages(languages@),
        decreases left,
    {
        let at = find_leader(&counts);
        let ghost before = counts@;
        let ghost chosen = top@;
        let first = counts.remove(at);
        top.push(first.name);
        proof {
            assert(counts_of(counts@) =~= counts_of(before).remove(at as int));
            assert(texts(top@) =~= texts(chosen).push(counts_of(before)[at as int].0));
            assert(texts(top@) + ranked(counts_of(counts@), (left - 1) as nat) =~= texts(chosen)
                + ranked(counts_of(before), left as nat));
        }
        left -= 1;
    }
    proof {
        assert(ranked(counts_of(counts@), left as nat) =~= Seq::<Seq<char>>::empty());
        assert(texts(top@) + Seq::<Seq<char>>::empty() =~= texts(top@));
    }
    top
}

/// A text, or `fallback` where there is none.
pub open spec fn text_or(text: Option<String>, fallback: Seq<char>) -> Seq<char> {
    match text {
        Some(t) => t@,
        None => fallback,
    }
}

/// The paragraph with the user's own words, if there are any.
pub open spec fn bio_part(bio: Seq<char>) -> Seq<char> {
    if bio.len() > 0 {
        bio + "\n\n"@
    } else {
        Seq::empty()
    }
}

/// A line of the details, if there is text for it.
pub open spec fn detail_line(label: Seq<char>, text: Seq<char>) -> Seq<char> {
    if text.len() > 0 {
        label + text + "\n"@
    } else {
        Seq::empty()
    }
}

/// The details of the user: company, location and website. They are shown
/// only where a company or a location is given.
pub open spec fn details_part(company: Seq<char>, location: Seq<char>, blog: Seq<char>) -> Seq<
    char,
> {
    if company.len() > 0 || location.len() > 0 {
        "**Details:**\n"@ + detail_line("- Company: "@, company) + detail_line(
            "- Location: "@,
            location,
        ) + detail_line("- Website: "@, blog) + "\n"@
    } else {
        Seq::empty()
    }
}

/// The line with the user's main languages, if any are known.
pub open spec fn languages_part(top: Seq<Seq<char>>) -> Seq<char> {
    if top.len() > 0 {
        "- Primary languages: "@ + joined(top, ", "@) + "\n"@
    } else {
        Seq::empty()
    }
}

/// The summary of a GitHub profile.
pub open spec fn github_summary(username: Seq<char>, profile: GithubProfile) -> Seq<char> {
    "## GitHub Profile: "@ + text_or(profile.name, username) + "\n\n"@ + bio_part(
        text_or(profile.bio, Seq::empty()),
    ) + details_part(
        text_or(profile.company, Seq::empty()),
        text_or(profile.location, Seq::empty()),
        text_or(profile.blog, Seq::empty()),
    ) + "**GitHub Activity:**\n"@ + "- "@ + decimal_text(profile.repo_languages@.len())
        + " public repositories\n"@ + languages_part(top_languages(profile.repo_languages@))
}

/// A text as a slice, empty where there is none.
fn slice_or_empty(text: &Option<String>) -> (r: &str)
    ensures
        r@ == text_or(*text, Seq::empty()),
{
    match text {
        Some(t) => t.as_str(),
        None => {
            let empty: &'static str = "";
            proof {
                reveal_strlit("");
                assert(empty@ =~= Seq::<char>::empty());
            }
            empty
        },
    }
}

/// Appends a line of the details, if there is text for it.
fn append_detail(out: &mut String, label: &str, text: &str)
    ensures
        final(out)@ == old(out)@ + detail_line(label@, text@),
{
    if !text.is_empty() {
        let ghost start = out@;
        out.append(label);
        out.append(text);
        out.append("\n");
        assert(out@ =~= start + (label@ + text@ + "\n"@));
    }
}

/// The summary of a GitHub profile: the user's name, own words and details,
/// the number of repositories, and the three languages that most of them are
/// written in.
pub fn fetch_github_profile(username: &str, profile: &GithubProfile) -> (r: String)
    ensures
        r@ == github_summary(username@, *profile),
{
    let mut summary = "## GitHub Profile: ".to_owned();
    match &profile.name {
        Some(name) => summary.append(name.as_str()),
        None => summary.append(username),
    }
    summary.append("\n\n");
    let bio = slice_or_empty(&profile.bio);
    let company = slice_or_empty(&profile.company);
    let location = slice_or_empty(&profile.location);
    let blog = slice_or_empty(&profile.blog);
    let ghost head = summary@;
    if !bio.is_empty() {
        summary.append(bio);
        summary.append("\n\n");
    }
    assert(summary@ =~= head + bio_part(bio@));
    let ghost with_bio = summary@;
    if !company.is_empty() || !location.is_empty() {
        summary.append("**Details:**\n");
        append_detail(&mut summary, "- Company: ", company);
        append_detail(&mut summary, "- Location: ", location);
        append_detail(&mut summary, "- Website: ", blog);
        summary.append("\n");
    }
    assert(summary@ =~= with_bio + details_part(company@, location@, blog@));
    summary.append("**GitHub Activity:**\n");
    summary.append("- ");
    let repositories = decimal(profile.repo_languages.len());
    summary.append(repositories.as_str());
    summary.append(" public repositories\n");
    let ghost with_activity = summary@;
    let top = top_three(&profile.repo_languages);
    if top.len() > 0 {
        let list = join(&top, ", ");
        summary.append("- Primary languages: ");
        summary.append(list.as_str());
        summary.append("\n");
    }
    assert(texts(top@).len() == top.len());
    assert(summary@ =~= with_activity + languages_part(top_languages(profile.repo_languages@)));
    summary
}

/// The piece that holds material given directly.
pub open spec fn direct_piece(kind: Seq<char>, text: Option<String>) -> Seq<Piece> {
    match text {
        Some(t) => seq![(kind, "direct"@, t@)],
        None => Seq::empty(),
    }
}

/// The request to evaluate what was gathered.
pub open spec fn evaluation_prompt(human_name: Option<Seq<char>>, profile: Option<Seq<char>>) -> Seq<
    char,
> {
    PROMPT_HEAD@ + (match human_name {
        Some(name) => name,
        None => UNNAMED_HUMAN@,
    }) + PROMPT_BODY@ + (match profile {
        Some(text) => text,
        None => NO_PROFILE@,
    }) + PROMPT_TAIL@
}

/// Appends the piece that holds material given directly.
fn push_direct(list: &mut Vec<FetchedContent>, kind: &str, text: &Option<String>)
    ensures
        pieces(final(list)@) == pieces(old(list)@) + direct_piece(kind@, *text),
{
    let ghost before = list@;
    match text {
        Some(t) => {
            list.push(
                FetchedContent {
                    source_type: kind.to_owned(),
                    source_value: "direct".to_owned(),
                    content: t.clone(),
                },
            );
            assert(pieces(list@) =~= pieces(before) + direct_piece(kind@, *text));
        },
        None => {
            assert(pieces(list@) =~= pieces(before) + direct_piece(kind@, *text));
        },
    }
}

/// All that was gathered: what was fetched from the sources, in their
/// order, then the content, the working style and the collaboration
/// preferences that were given directly; with it the request to evaluate it
/// against the present profile.
pub fn fetch_profile_data(
    params: &FetchProfileDataParams,
    fetched: Vec<FetchedContent>,
    human_name: Option<&str>,
    profile: Option<&str>,
) -> (r: FetchResult)
    ensures
        r.success,
        pieces(r.fetched_content@) == pieces(fetched@) + direct_piece("text"@, params.content)
            + direct_piece("working_style"@, params.working_style) + direct_piece(
            "collaboration_prefs"@,
            params.collaboration_prefs,
        ),
        r.prompt@ == evaluation_prompt(opt_str(human_name), opt_str(profile)),
{
    let mut fetched_content = fetched;
    push_direct(&mut fetched_content, "text", &params.content);
    push_direct(&mut fetched_content, "working_style", &params.working_style);
    push_direct(&mut fetched_content, "collaboration_prefs", &params.collaboration_prefs);

    let mut prompt = PROMPT_HEAD.to_owned();
    match human_name {
        Some(name) => prompt.append(name),
        None => prompt.append(UNNAMED_HUMAN),
    }
    prompt.append(PROMPT_BODY);
    match profile {
        Some(text) => prompt.append(text),
        None => prompt.append(NO_PROFILE),
    }
    prompt.append(PROMPT_TAIL);
    FetchResult { success: true, prompt, fetched_content }
}

} // verus!
