//! The run of a release: a machine that is told what the working copy and the
//! hosting service answered, and says what to ask of them next.
//!
//! A run first learns whether the latest commit is a merged release. If it
//! is, the run tags it, unless the latest release tag points at it already.
//! If it is not, the run resets the release branch to the commit, commits
//! what is staged, pushes the branch, and opens a pull request for it or
//! refreshes the one that is open.

use crate::git::{
    branch_refspec, branch_refspec_text, latest_name, latest_tag, names_of, release_tag,
    release_tag_text, short_branch_name, short_branch_text, tag_pattern, tag_pattern_text,
    tag_ref, tag_ref_text, text_option,
};
use crate::github::{
    head_filter, head_filter_text, is_release_commit, merged_pull_query, merged_pull_query_text,
    notes_route, notes_route_text,
};
use crate::text::{join3, same_text};
use vstd::prelude::*;
use vstd::string::*;

verus! {

/// What a run is configured with.
#[derive(Clone, Debug, PartialEq, Eq)]
pub struct Config {
    /// The owner of the hosted repository.
    pub owner: String,
    /// The name of the hosted repository.
    pub name: String,
    /// The short name of the release branch.
    pub release_branch: String,
    /// The prefix of release tags.
    pub tag_prefix: String,
    /// The title of a new release pull request.
    pub pr_title: String,
}

impl Config {
    /// The configuration of a run on a repository. A setting that is not
    /// given has its default: the release branch `release/next`, the tag
    /// prefix `release`, the title `Release`.
    pub fn new(
        owner: String,
        name: String,
        release_branch: Option<String>,
        tag_prefix: Option<String>,
        pr_title: Option<String>,
    ) -> (r: Config)
        ensures
            r.owner@ == owner@,
            r.name@ == name@,
            r.release_branch@ == (match release_branch {
                Some(v) => v@,
                None => "release/next"@,
            }),
            r.tag_prefix@ == (match tag_prefix {
                Some(v) => v@,
                None => "release"@,
            }),
            r.pr_title@ == (match pr_title {
                Some(v) => v@,
                None => "Release"@,
            }),
    {
        Config {
            owner,
            name,
            release_branch: match release_branch {
                Some(v) => v,
                None => String::from_str("release/next"),
            },
            tag_prefix: match tag_prefix {
                Some(v) => v,
                None => String::from_str("release"),
            },
            pr_title: match pr_title {
                Some(v) => v,
                None => String::from_str("Release"),
            },
        }
    }
}

/// An open pull request as the hosting service reports it.
#[derive(Clone, Debug, PartialEq, Eq)]
pub struct PullRequest {
    pub number: u64,
    pub url: String,
}

/// How a run ended.
#[derive(Clone, Debug, PartialEq, Eq)]
pub enum Outcome {
    /// The latest commit is a merged release and the latest tag points at it.
    AlreadyReleased,
    /// The latest commit is a merged release and was tagged with this name.
    Tagged(String),
    /// Nothing had to be done.
    NoActionNeeded,
    /// A pull request was opened; its identifier.
    PullRequestOpened(String),
    /// The open pull request was refreshed; its identifier.
    PullRequestUpdated(String),
}

/// Which collaborator a failure came from.
#[derive(Clone, Debug, PartialEq, Eq)]
pub enum FailureKind {
    VersionControl,
    RemoteApi,
    /// An answer that the run was not waiting for.
    Protocol,
}

/// Where a run stands: what it waits for, and what it has learnt so far.
#[derive(Clone, Debug, PartialEq, Eq)]
pub enum State {
    ResolvingHead,
    FindingMergedPull { commit: String },
    ReadingPullHead { commit: String },
    ListingTags { commit: String },
    ResolvingTag { commit: String },
    CreatingTag { tag: String },
    PushingTag { tag: String },
    ReadingBase { commit: String },
    ResettingBranch { base: String },
    Committing { base: String, branch: String },
    PushingBranch { base: String, branch: String },
    ListingPreviousTags { base: String, branch: String },
    GeneratingNotes { base: String, branch: String },
    FindingOpenPull { base: String, branch: String, notes: String },
    UpdatingPull { url: String },
    CreatingPull,
    Finished(Outcome),
    Failed { kind: FailureKind, message: String },
}

/// What a collaborator answered.
#[derive(Clone, Debug, PartialEq, Eq)]
pub enum Event {
    /// The identifier of a commit: the latest one, a tag's target, or the new one.
    CommitId(String),
    /// The numbers of the pull requests that a search found, best match first.
    PullNumbers(Vec<u64>),
    /// The head branch of the pull request that was asked for.
    PullHead(String),
    /// The names of the tags that match the pattern.
    Tags(Vec<String>),
    /// The full name of a branch.
    RefName(String),
    /// The request was carried out.
    Done,
    /// The generated release notes.
    Notes(String),
    /// The open pull request for the branch pair, if there is one.
    OpenPull(Option<PullRequest>),
    /// The identifier of the pull request that was opened.
    Created(String),
    /// The request failed, for this reason.
    Failed(String),
}

/// What the run asks for next.
#[derive(Clone, Debug, PartialEq, Eq)]
pub enum Action {
    ResolveHead,
    SearchMergedPulls { query: String },
    GetPull { number: u64 },
    FindTags { pattern: String },
    ResolveTag { reference: String },
    CreateTag { name: String, commit: String },
    PushRef { refspec: String },
    ReadBranch,
    ResetBranch { name: String, commit: String },
    CommitStaged { message: String },
    GenerateNotes { route: String, tag_name: String, target: String, previous_tag: Option<String> },
    FindOpenPull { base: String, head: String },
    UpdatePull { number: u64, body: String },
    CreatePull { title: String, head: String, base: String, body: String },
    /// The run is over.
    Stop,
}

/// Whether a run in this state is over.
pub open spec fn is_terminal(s: State) -> bool {
    s is Finished || s is Failed
}

/// Whether a run in state `s` waits for an answer of the kind of `e`.
pub open spec fn expects(s: State, e: Event) -> bool {
    match (s, e) {
        (State::ResolvingHead, Event::CommitId(_)) => true,
        (State::FindingMergedPull { .. }, Event::PullNumbers(_)) => true,
        (State::ReadingPullHead { .. }, Event::PullHead(_)) => true,
        (State::ListingTags { .. }, Event::Tags(_)) => true,
        (State::ResolvingTag { .. }, Event::CommitId(_)) => true,
        (State::CreatingTag { .. }, Event::Done) => true,
        (State::PushingTag { .. }, Event::Done) => true,
        (State::ReadingBase { .. }, Event::RefName(_)) => true,
        (State::ResettingBranch { .. }, Event::RefName(_)) => true,
        (State::Committing { .. }, Event::CommitId(_)) => true,
        (State::PushingBranch { .. }, Event::Done) => true,
        (State::ListingPreviousTags { .. }, Event::Tags(_)) => true,
        (State::GeneratingNotes { .. }, Event::Notes(_)) => true,
        (State::FindingOpenPull { .. }, Event::OpenPull(_)) => true,
        (State::UpdatingPull { .. }, Event::Done) => true,
        (State::CreatingPull, Event::Created(_)) => true,
        _ => false,
    }
}

/// The collaborator that a run in state `s` waits for.
pub open spec fn kind_of(s: State) -> FailureKind {
    match s {
        State::FindingMergedPull { .. }
        | State::ReadingPullHead { .. }
        | State::GeneratingNotes { .. }
        | State::FindingOpenPull { .. }
        | State::UpdatingPull { .. }
        | State::CreatingPull => FailureKind::RemoteApi,
        State::Finished(_) | State::Failed { .. } => FailureKind::Protocol,
        _ => FailureKind::VersionControl,
    }
}

/// What a run in state `s` was doing, as its failure is reported.
pub open spec fn context_of(s: State) -> Seq<char> {
    match s {
        State::ResolvingHead => "Failed to find latest commit"@,
        State::FindingMergedPull { .. } => "Failed to check commit"@,
        State::ReadingPullHead { .. } => "Failed to check commit"@,
        State::ListingTags { .. } => "Failed to get tags"@,
        State::ResolvingTag { .. } => "Failed to find tag"@,
        State::CreatingTag { .. } => "Failed to create tag"@,
        State::PushingTag { .. } => "Failed to push tag"@,
        State::ReadingBase { .. } => "Failed to get base branch"@,
        State::ResettingBranch { .. } => "Failed to create branch"@,
        State::Committing { .. } => "Failed to commit"@,
        State::PushingBranch { .. } => "Failed to push branch"@,
        State::ListingPreviousTags { .. } => "Failed to get tags"@,
        State::GeneratingNotes { .. } => "Failed to generate PR body"@,
        State::FindingOpenPull { .. } => "Failed to get the current release PR"@,
        State::UpdatingPull { .. } => "Failed to update the release PR"@,
        State::CreatingPull => "Failed to create the new release PR"@,
        State::Finished(_) => "Finished"@,
        State::Failed { .. } => "Failed"@,
    }
}

/// The reason that a failure gives; of another answer, nothing.
pub open spec fn reason_of(e: Event) -> Seq<char> {
    match e {
        Event::Failed(cause) => cause@,
        _ => Seq::empty(),
    }
}

/// The run turns to the release branch: it asks for the checked-out branch.
pub open spec fn enters_pull_path(commit: Seq<char>, next: State, act: Action) -> bool {
    &&& next matches State::ReadingBase { commit: c }
    &&& c@ == commit
    &&& act is ReadBranch
}

/// The run asks for the tags of the prefix, remembering the commit.
pub open spec fn enters_release_path(cfg: Config, commit: Seq<char>, next: State, act: Action) -> bool {
    &&& next matches State::ListingTags { commit: c }
    &&& c@ == commit
    &&& act matches Action::FindTags { pattern }
    &&& pattern@ == tag_pattern_text(cfg.tag_prefix@)
}

/// The run asks for a new tag at the commit, named by the prefix and the time.
pub open spec fn creates_tag(
    cfg: Config,
    commit: Seq<char>,
    ts: Seq<char>,
    next: State,
    act: Action,
) -> bool {
    &&& next matches State::CreatingTag { tag }
    &&& tag@ == release_tag_text(cfg.tag_prefix@, ts)
    &&& act matches Action::CreateTag { name, commit: at }
    &&& name@ == release_tag_text(cfg.tag_prefix@, ts)
    &&& at@ == commit
}

/// The run has failed with this kind and message, and stops.
pub open spec fn fails_with(kind: FailureKind, message: Seq<char>, next: State, act: Action) -> bool {
    &&& next matches State::Failed { kind: k, message: m }
    &&& k == kind
    &&& m@ == message
    &&& act is Stop
}

/// What an awaited answer `e` leads to from state `s`: the state `next`
/// and the request `act`. `ts` is the time at which a tag would be named.
pub open spec fn progress(
    cfg: Config,
    s: State,
    e: Event,
    ts: Seq<char>,
    next: State,
    act: Action,
) -> bool {
    match (s, e) {
        (State::ResolvingHead, Event::CommitId(c)) => {
            &&& next matches State::FindingMergedPull { commit }
            &&& commit@ == c@
            &&& act matches Action::SearchMergedPulls { query }
            &&& query@ == merged_pull_query_text(cfg.owner@, cfg.name@, c@)
        },
        (State::FindingMergedPull { commit }, Event::PullNumbers(found)) => {
            if found@.len() == 0 {
                enters_pull_path(commit@, next, act)
            } else {
                &&& next matches State::ReadingPullHead { commit: c }
                &&& c@ == commit@
                &&& act matches Action::GetPull { number }
                &&& number == found@[0]
            }
        },
        (State::ReadingPullHead { commit }, Event::PullHead(head)) => {
            if head@ == cfg.release_branch@ {
                enters_release_path(cfg, commit@, next, act)
            } else {
                enters_pull_path(commit@, next, act)
            }
        },
        (State::ListingTags { commit }, Event::Tags(tags)) => {
            if tags@.len() == 0 {
                creates_tag(cfg, commit@, ts, next, act)
            } else {
                &&& next matches State::ResolvingTag { commit: c }
                &&& c@ == commit@
                &&& act matches Action::ResolveTag { reference }
                &&& reference@ == tag_ref_text(latest_name(names_of(tags@)))
            }
        },
        (State::ResolvingTag { commit }, Event::CommitId(target)) => {
            if target@ == commit@ {
                next == State::Finished(Outcome::AlreadyReleased) && act is Stop
            } else {
                creates_tag(cfg, commit@, ts, next, act)
            }
        },
        (State::CreatingTag { tag }, Event::Done) => {
            &&& next matches State::PushingTag { tag: t }
            &&& t@ == tag@
            &&& act matches Action::PushRef { refspec }
            &&& refspec@ == tag_ref_text(tag@)
        },
        (State::PushingTag { tag }, Event::Done) => {
            &&& next matches State::Finished(Outcome::Tagged(t))
            &&& t@ == tag@
            &&& act is Stop
        },
        (State::ReadingBase { commit }, Event::RefName(base)) => {
            &&& next matches State::ResettingBranch { base: b }
            &&& b@ == base@
            &&& act matches Action::ResetBranch { name, commit: at }
            &&& name@ == cfg.release_branch@
            &&& at@ == commit@
        },
        (State::ResettingBranch { base }, Event::RefName(full)) => {
            &&& next matches State::Committing { base: b, branch }
            &&& b@ == base@
            &&& branch@ == full@
            &&& act matches Action::CommitStaged { message }
            &&& message@ == "Release commit"@
        },
        (State::Committing { base, branch }, Event::CommitId(_)) => {
            &&& next matches State::PushingBranch { base: b, branch: r }
            &&& b@ == base@
            &&& r@ == branch@
            &&& act matches Action::PushRef { refspec }
            &&& refspec@ == branch_refspec_text(branch@)
        },
        (State::PushingBranch { base, branch }, Event::Done) => {
            &&& next matches State::ListingPreviousTags { base: b, branch: r }
            &&& b@ == base@
            &&& r@ == branch@
            &&& act matches Action::FindTags { pattern }
            &&& pattern@ == tag_pattern_text(cfg.tag_prefix@)
        },
        (State::ListingPreviousTags { base, branch }, Event::Tags(tags)) => {
            &&& next matches State::GeneratingNotes { base: b, branch: r }
            &&& b@ == base@
            &&& r@ == branch@
            &&& act matches Action::GenerateNotes { route, tag_name, target, previous_tag }
            &&& route@ == notes_route_text(cfg.owner@, cfg.name@)
            &&& tag_name@ == "next-release"@
            &&& target@ == short_branch_text(branch@)
            &&& text_option(previous_tag) == (if tags@.len() == 0 {
                None
            } else {
                Some(latest_name(names_of(tags@)))
            })
        },
        (State::GeneratingNotes { base, branch }, Event::Notes(notes)) => {
            &&& next matches State::FindingOpenPull { base: b, branch: r, notes: n }
            &&& b@ == base@
            &&& r@ == branch@
            &&& n@ == notes@
            &&& act matches Action::FindOpenPull { base: asked, head }
            &&& asked@ == base@
            &&& head@ == head_filter_text(cfg.owner@, short_branch_text(branch@))
        },
        (State::FindingOpenPull { base, branch, notes }, Event::OpenPull(found)) => {
            match found {
                Some(pull) => {
                    &&& next matches State::UpdatingPull { url }
                    &&& url@ == pull.url@
                    &&& act matches Action::UpdatePull { number, body }
                    &&& number == pull.number
                    &&& body@ == notes@
                },
                None => {
                    &&& next is CreatingPull
                    &&& act matches Action::CreatePull { title, head, base: onto, body }
                    &&& title@ == cfg.pr_title@
                    &&& head@ == short_branch_text(branch@)
                    &&& onto@ == base@
                    &&& body@ == notes@
                },
            }
        },
        (State::UpdatingPull { url }, Event::Done) => {
            &&& next matches State::Finished(Outcome::PullRequestUpdated(id))
            &&& id@ == url@
            &&& act is Stop
        },
        (State::CreatingPull, Event::Created(url)) => {
            &&& next matches State::Finished(Outcome::PullRequestOpened(id))
            &&& id@ == url@
            &&& act is Stop
        },
        _ => false,
    }
}

/// One step of a run: from state `s`, on answer `e`, to state `next` with
/// request `act`. A run that is over stays as it is. A failure ends the run
/// with the failure's reason behind what the run was doing. An answer that
/// the run was not waiting for ends it too.
pub open spec fn step_rel(
    cfg: Config,
    s: State,
    e: Event,
    ts: Seq<char>,
    next: State,
    act: Action,
) -> bool {
    if is_terminal(s) {
        next == s && act is Stop
    } else if e is Failed {
        fails_with(kind_of(s), context_of(s) + ": "@ + reason_of(e), next, act)
    } else if !expects(s, e) {
        fails_with(FailureKind::Protocol, "Unexpected answer"@, next, act)
    } else {
        progress(cfg, s, e, ts, next, act)
    }
}

/// Whether the latest commit is tagged already: the latest release tag
/// exists and points at it.
pub fn already_tagged(tag_target: Option<&str>, latest_commit: &str) -> (r: bool)
    ensures
        r == match tag_target {
            Some(target) => target@ == latest_commit@,
            None => false,
        },
{
    match tag_target {
        Some(target) => same_text(target, latest_commit),
        None => false,
    }
}

/// The collaborator that a run waits for, and what it was doing.
fn failure_context(s: &State) -> (r: (FailureKind, &'static str))
    ensures
        r.0 == kind_of(*s),
        r.1@ == context_of(*s),
{
    match s {
        State::ResolvingHead => (FailureKind::VersionControl, "Failed to find latest commit"),
        State::FindingMergedPull { .. } => (FailureKind::RemoteApi, "Failed to check commit"),
        State::ReadingPullHead { .. } => (FailureKind::RemoteApi, "Failed to check commit"),
        State::ListingTags { .. } => (FailureKind::VersionControl, "Failed to get tags"),
        State::ResolvingTag { .. } => (FailureKind::VersionControl, "Failed to find tag"),
        State::CreatingTag { .. } => (FailureKind::VersionControl, "Failed to create tag"),
        State::PushingTag { .. } => (FailureKind::VersionControl, "Failed to push tag"),
        State::ReadingBase { .. } => (FailureKind::VersionControl, "Failed to get base branch"),
        State::ResettingBranch { .. } => (FailureKind::VersionControl, "Failed to create branch"),
        State::Committing { .. } => (FailureKind::VersionControl, "Failed to commit"),
        State::PushingBranch { .. } => (FailureKind::VersionControl, "Failed to push branch"),
        State::ListingPreviousTags { .. } => (FailureKind::VersionControl, "Failed to get tags"),
        State::GeneratingNotes { .. } => (FailureKind::RemoteApi, "Failed to generate PR body"),
        State::FindingOpenPull { .. } => (
            FailureKind::RemoteApi,
            "Failed to get the current release PR",
        ),
        State::UpdatingPull { .. } => (FailureKind::RemoteApi, "Failed to update the release PR"),
        State::CreatingPull => (FailureKind::RemoteApi, "Failed to create the new release PR"),
        State::Finished(_) => (FailureKind::Protocol, "Finished"),
        State::Failed { .. } => (FailureKind::Protocol, "Failed"),
    }
}

/// The state and request of a run that names and creates a tag.
fn create_tag(cfg: &Config, commit: String, timestamp: &str) -> (r: (State, Action))
    ensures
        creates_tag(*cfg, commit@, timestamp@, r.0, r.1),
{
    let tag: String = release_tag(cfg.tag_prefix.as_str(), timestamp);
    let name: String = tag.clone();
    (State::CreatingTag { tag }, Action::CreateTag { name, commit })
}

/// The beginning of a run: it asks for the latest commit.
pub fn start() -> (r: (State, Action))
    ensures
        r.0 is ResolvingHead,
        r.1 is ResolveHead,
{
    (State::ResolvingHead, Action::ResolveHead)
}

/// One step of a run, with the time at which a tag would be named.
pub fn advance(cfg: &Config, state: State, event: Event, timestamp: &str) -> (r: (State, Action))
    ensures
        step_rel(*cfg, state, event, timestamp@, r.0, r.1),
{
    match (state, event) {
        (State::Finished(outcome), _) => (State::Finished(outcome), Action::Stop),
        (State::Failed { kind, message }, _) => (State::Failed { kind, message }, Action::Stop),
        (waiting, Event::Failed(cause)) => {
            let (kind, context) = failure_context(&waiting);
            let message: String = join3(context, ": ", cause.as_str());
            (State::Failed { kind, message }, Action::Stop)
        },
        (State::ResolvingHead, Event::CommitId(commit)) => {
            let query: String = merged_pull_query(
                cfg.owner.as_str(),
                cfg.name.as_str(),
                commit.as_str(),
            );
            (State::FindingMergedPull { commit }, Action::SearchMergedPulls { query })
        },
        (State::FindingMergedPull { commit }, Event::PullNumbers(found)) => {
            if found.len() == 0 {
                (State::ReadingBase { commit }, Action::ReadBranch)
            } else {
                (State::ReadingPullHead { commit }, Action::GetPull { number: found[0] })
            }
        },
        (State::ReadingPullHead { commit }, Event::PullHead(head)) => {
            if is_release_commit(Some(head.as_str()), cfg.release_branch.as_str()) {
                let pattern: String = tag_pattern(cfg.tag_prefix.as_str());
                (State::ListingTags { commit }, Action::FindTags { pattern })
            } else {
                (State::ReadingBase { commit }, Action::ReadBranch)
            }
        },
        (State::ListingTags { commit }, Event::Tags(tags)) => {
            match latest_tag(&tags) {
                None => create_tag(cfg, commit, timestamp),
                Some(tag) => {
                    let reference: String = tag_ref(tag.as_str());
                    (State::ResolvingTag { commit }, Action::ResolveTag { reference })
                },
            }
        },
        (State::ResolvingTag { commit }, Event::CommitId(target)) => {
            if already_tagged(Some(target.as_str()), commit.as_str()) {
                (State::Finished(Outcome::AlreadyReleased), Action::Stop)
            } else {
                create_tag(cfg, commit, timestamp)
            }
        },
        (State::CreatingTag { tag }, Event::Done) => {
            let refspec: String = tag_ref(tag.as_str());
            (State::PushingTag { tag }, Action::PushRef { refspec })
        },
        (State::PushingTag { tag }, Event::Done) => {
            (State::Finished(Outcome::Tagged(tag)), Action::Stop)
        },
        (State::ReadingBase { commit }, Event::RefName(base)) => {
            let name: String = cfg.release_branch.clone();
            (State::ResettingBranch { base }, Action::ResetBranch { name, commit })
        },
        (State::ResettingBranch { base }, Event::RefName(branch)) => {
            let message: String = String::from_str("Release commit");
            (State::Committing { base, branch }, Action::CommitStaged { message })
        },
        (State::Committing { base, branch }, Event::CommitId(_)) => {
            let refspec: String = branch_refspec(branch.as_str());
            (State::PushingBranch { base, branch }, Action::PushRef { refspec })
        },
        (State::PushingBranch { base, branch }, Event::Done) => {
            let pattern: String = tag_pattern(cfg.tag_prefix.as_str());
            (State::ListingPreviousTags { base, branch }, Action::FindTags { pattern })
        },
        (State::ListingPreviousTags { base, branch }, Event::Tags(tags)) => {
            let route: String = notes_route(cfg.owner.as_str(), cfg.name.as_str());
            let tag_name: String = String::from_str("next-release");
            let target: String = short_branch_name(branch.as_str());
            let previous_tag: Option<String> = latest_tag(&tags);
            (
                State::GeneratingNotes { base, branch },
                Action::GenerateNotes { route, tag_name, target, previous_tag },
            )
        },
        (State::GeneratingNotes { base, branch }, Event::Notes(notes)) => {
            let short: String = short_branch_name(branch.as_str());
            let head: String = head_filter(cfg.owner.as_str(), short.as_str());
            let asked: String = base.clone();
            (
                State::FindingOpenPull { base, branch, notes },
                Action::FindOpenPull { base: asked, head },
            )
        },
        (State::FindingOpenPull { base, branch, notes }, Event::OpenPull(found)) => {
            match found {
                Some(pull) => (
                    State::UpdatingPull { url: pull.url },
                    Action::UpdatePull { number: pull.number, body: notes },
                ),
                None => {
                    let title: String = cfg.pr_title.clone();
                    let head: String = short_branch_name(branch.as_str());
                    (State::CreatingPull, Action::CreatePull { title, head, base, body: notes })
                },
            }
        },
        (State::UpdatingPull { url }, Event::Done) => {
            (State::Finished(Outcome::PullRequestUpdated(url)), Action::Stop)
        },
        (State::CreatingPull, Event::Created(url)) => {
            (State::Finished(Outcome::PullRequestOpened(url)), Action::Stop)
        },
        (_, _) => {
            let message: String = String::from_str("Unexpected answer");
            (State::Failed { kind: FailureKind::Protocol, message }, Action::Stop)
        },
    }
}

/// The local time, written after a pattern.
///
/// Calls `chrono::Local::now`, then `DateTime::format` with the pattern, and
/// renders the result. Only the pattern of release tags is admitted, which
/// `chrono` accepts: rendering fails on a pattern that it does not. Nothing
/// is claimed of the text: it depends on the clock and on the time zone of
/// the machine. `chrono` gives up where the clock stands before 1970.
#[verifier::external_body]
fn local_time(pattern: &str) -> (r: String)
    requires
        pattern@ == "%Y%m%d%H%M%S"@,
{
    chrono::Local::now().format(pattern).to_string()
}

/// Whether the next step of a run in this state may name a tag.
fn may_name_tag(s: &State) -> (r: bool)
    ensures
        r == (*s is ListingTags || *s is ResolvingTag),
{
    match s {
        State::ListingTags { .. } => true,
        State::ResolvingTag { .. } => true,
        _ => false,
    }
}

/// One step of a run. A tag that the step names carries the local time at
/// which the step is made, from the year down to the second, without
/// separators.
pub fn step(cfg: &Config, state: State, event: Event) -> (r: (State, Action))
    ensures
        exists|ts: Seq<char>| step_rel(*cfg, state, event, ts, r.0, r.1),
{
    let timestamp: String = if may_name_tag(&state) {
        local_time("%Y%m%d%H%M%S")
    } else {
        String::new()
    };
    advance(cfg, state, event, timestamp.as_str())
}

/// The line that reports how a run ended, where one is written.
pub open spec fn output_text(outcome: Outcome) -> Option<Seq<char>> {
    match outcome {
        Outcome::Tagged(tag) => Some("tag="@ + tag@ + "\n"@),
        Outcome::PullRequestOpened(id) => Some("pr_id="@ + id@ + "\n"@),
        Outcome::PullRequestUpdated(id) => Some("pr_id="@ + id@ + "\n"@),
        Outcome::AlreadyReleased => None,
        Outcome::NoActionNeeded => None,
    }
}

/// The line that reports how a run ended: `tag={name}` after tagging,
/// `pr_id={identifier}` after opening or refreshing a pull request, and
/// none otherwise.
pub fn output_line(outcome: &Outcome) -> (r: Option<String>)
    ensures
        text_option(r) == output_text(*outcome),
{
    match outcome {
        Outcome::Tagged(tag) => Some(join3("tag=", tag.as_str(), "\n")),
        Outcome::PullRequestOpened(id) => Some(join3("pr_id=", id.as_str(), "\n")),
        Outcome::PullRequestUpdated(id) => Some(join3("pr_id=", id.as_str(), "\n")),
        Outcome::AlreadyReleased => None,
        Outcome::NoActionNeeded => None,
    }
}

/// Whether a run in this state has found the latest commit to be a merged
/// release.
pub open spec fn on_release_path(s: State) -> bool {
    ||| s is ListingTags
    ||| s is ResolvingTag
    ||| s is CreatingTag
    ||| s is PushingTag
    ||| s matches State::Finished(Outcome::AlreadyReleased)
    ||| s matches State::Finished(Outcome::Tagged(_))
}

/// Whether a run in this state has found the latest commit not to be a
/// merged release.
pub open spec fn on_pull_path(s: State) -> bool {
    ||| s is ReadingBase
    ||| s is ResettingBranch
    ||| s is Committing
    ||| s is PushingBranch
    ||| s is ListingPreviousTags
    ||| s is GeneratingNotes
    ||| s is FindingOpenPull
    ||| s is UpdatingPull
    ||| s is CreatingPull
    ||| s matches State::Finished(Outcome::PullRequestOpened(_))
    ||| s matches State::Finished(Outcome::PullRequestUpdated(_))
}

/// Whether a request belongs to tagging a release.
pub open spec fn is_tag_request(act: Action) -> bool {
    act is ResolveTag || act is CreateTag
}

/// Whether a request belongs to the release branch and its pull request.
pub open spec fn is_pull_request(act: Action) -> bool {
    ||| act is ReadBranch
    ||| act is ResetBranch
    ||| act is CommitStaged
    ||| act is GenerateNotes
    ||| act is FindOpenPull
    ||| act is UpdatePull
    ||| act is CreatePull
}

/// A tag that points at the latest commit is not doubled: when the latest
/// release tag resolves to the commit of the run, the run ends as already
/// released, and asks for no tag and no push.
pub proof fn tagging_is_idempotent(
    cfg: Config,
    s: State,
    e: Event,
    ts: Seq<char>,
    next: State,
    act: Action,
)
    requires
        step_rel(cfg, s, e, ts, next, act),
        s matches State::ResolvingTag { commit } && e matches Event::CommitId(target) && target@
            == commit@,
    ensures
        next == State::Finished(Outcome::AlreadyReleased),
        act is Stop,
{
}

/// A tag is asked for only by a run that has found the latest commit to be
/// a merged release, and has found no release tag or one that points
/// elsewhere.
pub proof fn tag_only_for_merged_release(
    cfg: Config,
    s: State,
    e: Event,
    ts: Seq<char>,
    next: State,
    act: Action,
)
    requires
        step_rel(cfg, s, e, ts, next, act),
        act is CreateTag,
    ensures
        on_release_path(s),
        s matches State::ListingTags { .. } ==> e matches Event::Tags(tags) && tags@.len() == 0,
        s matches State::ResolvingTag { commit } ==> e matches Event::CommitId(target) && target@
            != commit@,
        s is ListingTags || s is ResolvingTag,
{
}

/// Whether the answer is that no merged pull request is related to the commit.
pub open spec fn finds_no_pull(e: Event) -> bool {
    e matches Event::PullNumbers(found) && found@.len() == 0
}

/// Whether the answer is that the related pull request has this head.
pub open spec fn names_head(e: Event, branch: Seq<char>) -> bool {
    e matches Event::PullHead(head) && head@ == branch
}

/// The answer on the related pull request alone decides the path: the run
/// takes the release path exactly when a merged pull request is related to
/// the commit and its head is the release branch.
pub proof fn release_check_decides(
    cfg: Config,
    s: State,
    e: Event,
    ts: Seq<char>,
    next: State,
    act: Action,
)
    requires
        step_rel(cfg, s, e, ts, next, act),
    ensures
        s is FindingMergedPull && finds_no_pull(e) ==> on_pull_path(next),
        s is ReadingPullHead && names_head(e, cfg.release_branch@) ==> on_release_path(next),
        s is ReadingPullHead && e is PullHead && !names_head(e, cfg.release_branch@)
            ==> on_pull_path(next),
        !(s is FindingMergedPull || s is ReadingPullHead) && !on_release_path(s)
            ==> !on_release_path(next),
        !(s is FindingMergedPull || s is ReadingPullHead) && !on_pull_path(s) ==> !on_pull_path(
            next,
        ),
{
}

/// The two paths exclude each other: no state is on both; a run on the
/// release path never reaches the pull path nor asks anything of the
/// release branch or its pull request; a run on the pull path never reaches
/// the release path nor asks for a tag.
pub proof fn paths_are_exclusive(
    cfg: Config,
    s: State,
    e: Event,
    ts: Seq<char>,
    next: State,
    act: Action,
)
    requires
        step_rel(cfg, s, e, ts, next, act),
    ensures
        !(on_release_path(s) && on_pull_path(s)),
        on_release_path(s) ==> !on_pull_path(next) && !is_pull_request(act),
        on_release_path(s) ==> on_release_path(next) || next is Failed,
        on_pull_path(s) ==> !on_release_path(next) && !is_tag_request(act),
        on_pull_path(s) ==> on_pull_path(next) || next is Failed,
{
}

/// The time matters to a step only where the step names a tag: a step that
/// asks for no tag is the same step at any other time.
pub proof fn time_matters_only_to_tags(
    cfg: Config,
    s: State,
    e: Event,
    ts: Seq<char>,
    other: Seq<char>,
    next: State,
    act: Action,
)
    requires
        step_rel(cfg, s, e, ts, next, act),
        !(act is CreateTag),
    ensures
        step_rel(cfg, s, e, other, next, act),
{
}

/// The number of open pull requests for the release branch after a request
/// was carried out, where it was `open` before.
pub open spec fn open_pulls_after(open: nat, act: Action) -> nat {
    if act is CreatePull {
        open + 1
    } else {
        open
    }
}

/// Two runs in a row, with nothing merged in between, leave one open pull
/// request where there was none: the second run finds the pull request of
/// the first and refreshes it. Where there were some, their number stays.
/// `open` is the number of open pull requests for the release branch before
/// the first run; each run is told of one exactly when there is one.
pub proof fn second_run_refreshes(
    cfg: Config,
    open: nat,
    s1: State,
    e1: Event,
    n1: State,
    a1: Action,
    s2: State,
    e2: Event,
    n2: State,
    a2: Action,
    ts: Seq<char>,
)
    requires
        s1 is FindingOpenPull,
        s2 is FindingOpenPull,
        e1 matches Event::OpenPull(found) && (found is Some <==> open > 0),
        step_rel(cfg, s1, e1, ts, n1, a1),
        e2 matches Event::OpenPull(found) && (found is Some <==> open_pulls_after(open, a1) > 0),
        step_rel(cfg, s2, e2, ts, n2, a2),
    ensures
        open == 0 ==> a1 is CreatePull,
        a2 is UpdatePull,
        open_pulls_after(open_pulls_after(open, a1), a2) == open_pulls_after(open, a1),
        open == 0 ==> open_pulls_after(open_pulls_after(open, a1), a2) == 1,
        open > 0 ==> open_pulls_after(open_pulls_after(open, a1), a2) == open,
{
}

/// A run as a whole: the states it went through from its beginning, the
/// answers it was given, the requests it made, and the times of its steps.
pub open spec fn is_run(
    cfg: Config,
    states: Seq<State>,
    events: Seq<Event>,
    acts: Seq<Action>,
    times: Seq<Seq<char>>,
) -> bool {
    &&& states.len() == events.len() + 1
    &&& acts.len() == events.len()
    &&& times.len() == events.len()
    &&& states[0] is ResolvingHead
    &&& forall|i: int|
        0 <= i < events.len() ==> step_rel(
            cfg,
            states[i],
            #[trigger] events[i],
            times[i],
            states[i + 1],
            acts[i],
        )
}

/// A run that is on one path, or has failed, is later on that path still,
/// or has failed.
proof fn run_keeps_path(
    cfg: Config,
    states: Seq<State>,
    events: Seq<Event>,
    acts: Seq<Action>,
    times: Seq<Seq<char>>,
    i: int,
    k: int,
)
    requires
        is_run(cfg, states, events, acts, times),
        0 <= i <= k < states.len(),
    ensures
        on_release_path(states[i]) || states[i] is Failed ==> on_release_path(states[k])
            || states[k] is Failed,
        on_pull_path(states[i]) || states[i] is Failed ==> on_pull_path(states[k])
            || states[k] is Failed,
    decreases k - i,
{
    if i < k {
        run_keeps_path(cfg, states, events, acts, times, i, k - 1);
        assert(step_rel(cfg, states[k - 1], events[k - 1], times[k - 1], states[k], acts[k - 1]));
        paths_are_exclusive(cfg, states[k - 1], events[k - 1], times[k - 1], states[k], acts[k - 1]);
    }
}

/// One run takes one path: it is never at one point on the release path and
/// at another on the pull path, and it never asks both for a tag and for
/// anything of the release branch or its pull request.
pub proof fn run_takes_one_path(
    cfg: Config,
    states: Seq<State>,
    events: Seq<Event>,
    acts: Seq<Action>,
    times: Seq<Seq<char>>,
    i: int,
    j: int,
)
    requires
        is_run(cfg, states, events, acts, times),
        0 <= i < events.len(),
        0 <= j < events.len(),
    ensures
        !(on_release_path(states[i]) && on_pull_path(states[j])),
        !(is_tag_request(acts[i]) && is_pull_request(acts[j])),
{
    assert(step_rel(cfg, states[i], events[i], times[i], states[i + 1], acts[i]));
    assert(step_rel(cfg, states[j], events[j], times[j], states[j + 1], acts[j]));
    paths_are_exclusive(cfg, states[i], events[i], times[i], states[i + 1], acts[i]);
    paths_are_exclusive(cfg, states[j], events[j], times[j], states[j + 1], acts[j]);
    if i <= j {
        run_keeps_path(cfg, states, events, acts, times, i, j);
    } else {
        run_keeps_path(cfg, states, events, acts, times, j, i);
        run_keeps_path(cfg, states, events, acts, times, j + 1, i);
    }
}

/// The commit that a run in this state remembers, where it does.
pub open spec fn commit_of(s: State) -> Option<Seq<char>> {
    match s {
        State::FindingMergedPull { commit } => Some(commit@),
        State::ReadingPullHead { commit } => Some(commit@),
        State::ListingTags { commit } => Some(commit@),
        State::ResolvingTag { commit } => Some(commit@),
        State::ReadingBase { commit } => Some(commit@),
        _ => None,
    }
}

/// The commit that an answer names, where it names one.
pub open spec fn answered_commit(e: Event) -> Option<Seq<char>> {
    match e {
        Event::CommitId(c) => Some(c@),
        _ => None,
    }
}

/// The commit at which a request creates a tag or resets the branch.
pub open spec fn target_of(act: Action) -> Option<Seq<char>> {
    match act {
        Action::CreateTag { commit, .. } => Some(commit@),
        Action::ResetBranch { commit, .. } => Some(commit@),
        _ => None,
    }
}

/// A run only ever remembers the commit that it was first told of.
proof fn run_remembers_its_commit(
    cfg: Config,
    states: Seq<State>,
    events: Seq<Event>,
    acts: Seq<Action>,
    times: Seq<Seq<char>>,
    k: int,
)
    requires
        is_run(cfg, states, events, acts, times),
        1 <= k < states.len(),
    ensures
        !(states[k] is ResolvingHead),
        commit_of(states[k]) is Some ==> commit_of(states[k]) == answered_commit(events[0]),
    decreases k,
{
    assert(step_rel(cfg, states[k - 1], events[k - 1], times[k - 1], states[k], acts[k - 1]));
    if k > 1 {
        run_remembers_its_commit(cfg, states, events, acts, times, k - 1);
    }
}

/// A run tags the commit that it found to be the latest, and resets the
/// release branch to that commit: every tag it asks for, and every reset of
/// the release branch, is at the commit that answered its first request.
pub proof fn run_acts_on_its_commit(
    cfg: Config,
    states: Seq<State>,
    events: Seq<Event>,
    acts: Seq<Action>,
    times: Seq<Seq<char>>,
    i: int,
)
    requires
        is_run(cfg, states, events, acts, times),
        0 <= i < events.len(),
    ensures
        target_of(acts[i]) is Some ==> target_of(acts[i]) == answered_commit(events[0]),
{
    assert(step_rel(cfg, states[i], events[i], times[i], states[i + 1], acts[i]));
    if i > 0 {
        run_remembers_its_commit(cfg, states, events, acts, times, i);
    }
}

/// The release branch is reset, then committed to once, then pushed, and
/// the pull request is opened or refreshed only after it was searched for:
/// in a run, a reset is followed by the commit, the commit follows a reset
/// and is followed by the push, and a pull request is written right after
/// the search for the open one. A failure in between ends the run.
pub proof fn pipeline_is_ordered(
    cfg: Config,
    states: Seq<State>,
    events: Seq<Event>,
    acts: Seq<Action>,
    times: Seq<Seq<char>>,
    i: int,
)
    requires
        is_run(cfg, states, events, acts, times),
        0 <= i,
        i + 1 < events.len(),
    ensures
        acts[i] is ResetBranch ==> acts[i + 1] is CommitStaged || acts[i + 1] is Stop,
        acts[i + 1] is CommitStaged ==> acts[i] is ResetBranch,
        acts[i] is CommitStaged ==> acts[i + 1] is PushRef || acts[i + 1] is Stop,
        acts[i + 1] is UpdatePull || acts[i + 1] is CreatePull ==> acts[i] is FindOpenPull,
        acts[i] is CreateTag ==> acts[i + 1] is PushRef || acts[i + 1] is Stop,
{
    assert(step_rel(cfg, states[i], events[i], times[i], states[i + 1], acts[i]));
    assert(step_rel(
        cfg,
        states[i + 1],
        events[i + 1],
        times[i + 1],
        states[i + 2],
        acts[i + 1],
    ));
}

} // verus!
