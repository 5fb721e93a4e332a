use release_pr::release::{
    advance, already_tagged, output_line, start, step, Action, Config, Event, FailureKind,
    Outcome, PullRequest, State,
};

struct MergedPull {
    commit: String,
    number: u64,
    head: String,
}

struct OpenPull {
    number: u64,
    head: String,
    base: String,
    body: String,
}

struct World {
    head: String,
    branch: String,
    tags: Vec<(String, String)>,
    merged: Vec<MergedPull>,
    open: Vec<OpenPull>,
    pushed: Vec<String>,
    commits: u32,
    fail_on_push: bool,
}

fn fresh() -> World {
    World {
        head: "c0".to_string(),
        branch: "refs/heads/main".to_string(),
        tags: Vec::new(),
        merged: Vec::new(),
        open: Vec::new(),
        pushed: Vec::new(),
        commits: 0,
        fail_on_push: false,
    }
}

fn config() -> Config {
    Config::new("org".to_string(), "repo".to_string(), None, None, None)
}

fn url_of(number: u64) -> String {
    format!("https://example.test/org/repo/pull/{}", number)
}

fn perform(w: &mut World, act: &Action) -> Event {
    match act {
        Action::ResolveHead => Event::CommitId(w.head.clone()),
        Action::SearchMergedPulls { query } => Event::PullNumbers(
            w.merged.iter().filter(|m| query.ends_with(&m.commit)).map(|m| m.number).collect(),
        ),
        Action::GetPull { number } => match w.merged.iter().find(|m| m.number == *number) {
            Some(m) => Event::PullHead(m.head.clone()),
            None => Event::Failed("not found".to_string()),
        },
        Action::FindTags { pattern } => {
            let prefix = pattern.trim_end_matches('*');
            Event::Tags(
                w.tags.iter().filter(|t| t.0.starts_with(prefix)).map(|t| t.0.clone()).collect(),
            )
        }
        Action::ResolveTag { reference } => {
            match w.tags.iter().find(|t| format!("refs/tags/{}", t.0) == *reference) {
                Some(t) => Event::CommitId(t.1.clone()),
                None => Event::Failed("no such tag".to_string()),
            }
        }
        Action::CreateTag { name, commit } => {
            w.tags.push((name.clone(), commit.clone()));
            Event::Done
        }
        Action::PushRef { refspec } => {
            if w.fail_on_push {
                return Event::Failed("rejected".to_string());
            }
            w.pushed.push(refspec.clone());
            Event::Done
        }
        Action::ReadBranch => Event::RefName(w.branch.clone()),
        Action::ResetBranch { name, commit } => {
            w.head = commit.clone();
            w.branch = format!("refs/heads/{}", name);
            Event::RefName(w.branch.clone())
        }
        Action::CommitStaged { message } => {
            assert_eq!(message, "Release commit");
            w.commits += 1;
            w.head = format!("{}+{}", w.head, w.commits);
            Event::CommitId(w.head.clone())
        }
        Action::GenerateNotes { route, tag_name, target, previous_tag } => {
            assert_eq!(route, "/repos/org/repo/releases/generate-notes");
            assert_eq!(tag_name, "next-release");
            Event::Notes(format!("changes on {} since {:?}", target, previous_tag))
        }
        Action::FindOpenPull { base, head } => Event::OpenPull(
            w.open
                .iter()
                .find(|p| format!("org:{}", p.head) == *head && p.base == *base)
                .map(|p| PullRequest { number: p.number, url: url_of(p.number) }),
        ),
        Action::UpdatePull { number, body } => {
            for p in w.open.iter_mut() {
                if p.number == *number {
                    p.body = body.clone();
                }
            }
            Event::Done
        }
        Action::CreatePull { title, head, base, body } => {
            assert_eq!(title, "Release");
            let number = 1 + w.open.len() as u64;
            w.open.push(OpenPull {
                number,
                head: head.clone(),
                base: base.clone(),
                body: body.clone(),
            });
            Event::Created(url_of(number))
        }
        Action::Stop => panic!("nothing to perform"),
    }
}

fn run(w: &mut World, cfg: &Config, timestamp: &str) -> (State, Vec<Action>) {
    let (mut state, mut act) = start();
    let mut asked = Vec::new();
    for _ in 0..100 {
        if act == Action::Stop {
            return (state, asked);
        }
        asked.push(act.clone());
        let event = perform(w, &act);
        let (next, then) = advance(cfg, state, event, timestamp);
        state = next;
        act = then;
    }
    panic!("the run did not end");
}

fn is_tag_request(act: &Action) -> bool {
    matches!(act, Action::ResolveTag { .. } | Action::CreateTag { .. })
}

fn is_pull_request(act: &Action) -> bool {
    matches!(
        act,
        Action::ReadBranch
            | Action::ResetBranch { .. }
            | Action::CommitStaged { .. }
            | Action::GenerateNotes { .. }
            | Action::FindOpenPull { .. }
            | Action::UpdatePull { .. }
            | Action::CreatePull { .. }
    )
}

#[test]
fn fresh_repository_gets_a_new_pull_request() {
    let mut w = fresh();
    let (state, asked) = run(&mut w, &config(), "20240601120000");
    let outcome = Outcome::PullRequestOpened(url_of(1));
    assert_eq!(state, State::Finished(outcome.clone()));
    assert_eq!(
        output_line(&outcome),
        Some("pr_id=https://example.test/org/repo/pull/1\n".to_string())
    );
    assert_eq!(w.branch, "refs/heads/release/next");
    assert_eq!(w.head, "c0+1");
    assert_eq!(w.pushed, vec!["+refs/heads/release/next:refs/heads/release/next".to_string()]);
    assert!(w.tags.is_empty());
    assert_eq!(w.open.len(), 1);
    assert_eq!(w.open[0].head, "release/next");
    assert_eq!(w.open[0].base, "refs/heads/main");
    assert_eq!(w.open[0].body, "changes on release/next since None");
    assert_eq!(
        asked,
        vec![
            Action::ResolveHead,
            Action::SearchMergedPulls {
                query: "repo:org/repo type:pr is:merged c0".to_string()
            },
            Action::ReadBranch,
            Action::ResetBranch { name: "release/next".to_string(), commit: "c0".to_string() },
            Action::CommitStaged { message: "Release commit".to_string() },
            Action::PushRef {
                refspec: "+refs/heads/release/next:refs/heads/release/next".to_string()
            },
            Action::FindTags { pattern: "release-*".to_string() },
            Action::GenerateNotes {
                route: "/repos/org/repo/releases/generate-notes".to_string(),
                tag_name: "next-release".to_string(),
                target: "release/next".to_string(),
                previous_tag: None,
            },
            Action::FindOpenPull {
                base: "refs/heads/main".to_string(),
                head: "org:release/next".to_string()
            },
            Action::CreatePull {
                title: "Release".to_string(),
                head: "release/next".to_string(),
                base: "refs/heads/main".to_string(),
                body: "changes on release/next since None".to_string(),
            },
        ]
    );
}

#[test]
fn merged_release_without_tag_is_tagged() {
    let mut w = fresh();
    w.merged.push(MergedPull { commit: "c0".to_string(), number: 7, head: "release/next".to_string() });
    let (state, asked) = run(&mut w, &config(), "20240601120000");
    let outcome = Outcome::Tagged("release-20240601120000".to_string());
    assert_eq!(state, State::Finished(outcome.clone()));
    assert_eq!(output_line(&outcome), Some("tag=release-20240601120000\n".to_string()));
    assert_eq!(w.tags, vec![("release-20240601120000".to_string(), "c0".to_string())]);
    assert_eq!(w.pushed, vec!["refs/tags/release-20240601120000".to_string()]);
    assert!(w.open.is_empty());
    assert_eq!(w.branch, "refs/heads/main");
    assert!(asked.iter().all(|a| !is_pull_request(a)));
    assert_eq!(
        asked,
        vec![
            Action::ResolveHead,
            Action::SearchMergedPulls {
                query: "repo:org/repo type:pr is:merged c0".to_string()
            },
            Action::GetPull { number: 7 },
            Action::FindTags { pattern: "release-*".to_string() },
            Action::CreateTag {
                name: "release-20240601120000".to_string(),
                commit: "c0".to_string()
            },
            Action::PushRef { refspec: "refs/tags/release-20240601120000".to_string() },
        ]
    );
}

#[test]
fn merged_release_with_older_tag_elsewhere_is_tagged() {
    let mut w = fresh();
    w.merged.push(MergedPull { commit: "c0".to_string(), number: 7, head: "release/next".to_string() });
    w.tags.push(("release-20240101000000".to_string(), "b9".to_string()));
    let (state, asked) = run(&mut w, &config(), "20240601120000");
    assert_eq!(state, State::Finished(Outcome::Tagged("release-20240601120000".to_string())));
    assert_eq!(w.tags.len(), 2);
    assert!(asked.contains(&Action::ResolveTag {
        reference: "refs/tags/release-20240101000000".to_string()
    }));
}

#[test]
fn merged_release_with_tag_is_left_alone() {
    let mut w = fresh();
    w.merged.push(MergedPull { commit: "c0".to_string(), number: 7, head: "release/next".to_string() });
    w.tags.push(("release-20240101000000".to_string(), "c0".to_string()));
    let (state, asked) = run(&mut w, &config(), "20240601120000");
    assert_eq!(state, State::Finished(Outcome::AlreadyReleased));
    assert_eq!(output_line(&Outcome::AlreadyReleased), None);
    assert_eq!(w.tags.len(), 1);
    assert!(w.pushed.is_empty());
    assert!(w.open.is_empty());
    assert!(asked.iter().all(|a| !matches!(a, Action::CreateTag { .. } | Action::PushRef { .. })));
    assert!(asked.iter().all(|a| !is_pull_request(a)));
}

#[test]
fn only_the_latest_tag_counts_for_already_released() {
    let mut w = fresh();
    w.merged.push(MergedPull { commit: "c0".to_string(), number: 7, head: "release/next".to_string() });
    w.tags.push(("release-20240601120000".to_string(), "b9".to_string()));
    w.tags.push(("release-20240101000000".to_string(), "c0".to_string()));
    let (state, _) = run(&mut w, &config(), "20250101000000");
    assert_eq!(state, State::Finished(Outcome::Tagged("release-20250101000000".to_string())));
}

#[test]
fn merged_pull_from_another_branch_is_no_release() {
    let mut w = fresh();
    w.merged.push(MergedPull { commit: "c0".to_string(), number: 7, head: "feature".to_string() });
    let (state, asked) = run(&mut w, &config(), "20240601120000");
    assert_eq!(state, State::Finished(Outcome::PullRequestOpened(url_of(1))));
    assert!(asked.iter().all(|a| !is_tag_request(a)));
    assert!(w.tags.is_empty());
}

#[test]
fn second_run_refreshes_the_open_pull_request() {
    let mut w = fresh();
    w.tags.push(("release-20240101000000".to_string(), "b9".to_string()));
    let (first, _) = run(&mut w, &config(), "20240601120000");
    assert_eq!(first, State::Finished(Outcome::PullRequestOpened(url_of(1))));
    w.branch = "refs/heads/main".to_string();
    w.head = "c1".to_string();
    let (second, asked) = run(&mut w, &config(), "20240601120001");
    let outcome = Outcome::PullRequestUpdated(url_of(1));
    assert_eq!(second, State::Finished(outcome.clone()));
    assert_eq!(
        output_line(&outcome),
        Some("pr_id=https://example.test/org/repo/pull/1\n".to_string())
    );
    assert_eq!(w.open.len(), 1);
    assert_eq!(
        w.open[0].body,
        "changes on release/next since Some(\"release-20240101000000\")"
    );
    assert!(asked.iter().all(|a| !matches!(a, Action::CreatePull { .. })));
    assert!(asked.contains(&Action::UpdatePull {
        number: 1,
        body: "changes on release/next since Some(\"release-20240101000000\")".to_string()
    }));
    assert_eq!(w.pushed.len(), 2);
}

#[test]
fn already_tagged_compares_the_two_commits() {
    assert!(already_tagged(Some("c0"), "c0"));
    assert!(!already_tagged(Some("b9"), "c0"));
    assert!(!already_tagged(Some("c0x"), "c0"));
    assert!(!already_tagged(None, "c0"));
}

#[test]
fn failed_push_ends_the_run_after_the_commit() {
    let mut w = fresh();
    w.fail_on_push = true;
    let (state, _) = run(&mut w, &config(), "20240601120000");
    assert_eq!(
        state,
        State::Failed {
            kind: FailureKind::VersionControl,
            message: "Failed to push branch: rejected".to_string()
        }
    );
    assert_eq!(w.branch, "refs/heads/release/next");
    assert_eq!(w.commits, 1);
    assert!(w.open.is_empty());
}

#[test]
fn each_request_reports_its_failure() {
    let s = |v: &str| v.to_string();
    let cases = vec![
        (State::ResolvingHead, FailureKind::VersionControl, "Failed to find latest commit"),
        (State::FindingMergedPull { commit: s("c") }, FailureKind::RemoteApi, "Failed to check commit"),
        (State::ReadingPullHead { commit: s("c") }, FailureKind::RemoteApi, "Failed to check commit"),
        (State::ListingTags { commit: s("c") }, FailureKind::VersionControl, "Failed to get tags"),
        (State::ResolvingTag { commit: s("c") }, FailureKind::VersionControl, "Failed to find tag"),
        (State::CreatingTag { tag: s("t") }, FailureKind::VersionControl, "Failed to create tag"),
        (State::PushingTag { tag: s("t") }, FailureKind::VersionControl, "Failed to push tag"),
        (State::ReadingBase { commit: s("c") }, FailureKind::VersionControl, "Failed to get base branch"),
        (State::ResettingBranch { base: s("b") }, FailureKind::VersionControl, "Failed to create branch"),
        (
            State::Committing { base: s("b"), branch: s("r") },
            FailureKind::VersionControl,
            "Failed to commit",
        ),
        (
            State::PushingBranch { base: s("b"), branch: s("r") },
            FailureKind::VersionControl,
            "Failed to push branch",
        ),
        (
            State::ListingPreviousTags { base: s("b"), branch: s("r") },
            FailureKind::VersionControl,
            "Failed to get tags",
        ),
        (
            State::GeneratingNotes { base: s("b"), branch: s("r") },
            FailureKind::RemoteApi,
            "Failed to generate PR body",
        ),
        (
            State::FindingOpenPull { base: s("b"), branch: s("r"), notes: s("n") },
            FailureKind::RemoteApi,
            "Failed to get the current release PR",
        ),
        (State::UpdatingPull { url: s("u") }, FailureKind::RemoteApi, "Failed to update the release PR"),
        (State::CreatingPull, FailureKind::RemoteApi, "Failed to create the new release PR"),
    ];
    for (state, kind, context) in cases {
        let (next, act) = advance(&config(), state, Event::Failed(s("boom")), "t");
        assert_eq!(next, State::Failed { kind, message: format!("{}: boom", context) });
        assert_eq!(act, Action::Stop);
    }
}

#[test]
fn unexpected_answer_ends_the_run() {
    let (next, act) = advance(&config(), State::ResolvingHead, Event::Done, "t");
    assert_eq!(
        next,
        State::Failed { kind: FailureKind::Protocol, message: "Unexpected answer".to_string() }
    );
    assert_eq!(act, Action::Stop);
    let (next, _) = advance(&config(), State::CreatingPull, Event::Done, "t");
    assert!(matches!(next, State::Failed { kind: FailureKind::Protocol, .. }));
}

#[test]
fn a_run_that_is_over_stays_over() {
    let done = State::Finished(Outcome::Tagged("release-1".to_string()));
    let (next, act) = advance(&config(), done.clone(), Event::Done, "t");
    assert_eq!(next, done);
    assert_eq!(act, Action::Stop);
    let failed = State::Failed { kind: FailureKind::RemoteApi, message: "m".to_string() };
    let (next, act) = advance(&config(), failed.clone(), Event::Failed("again".to_string()), "t");
    assert_eq!(next, failed);
    assert_eq!(act, Action::Stop);
}

#[test]
fn first_search_result_is_the_related_pull() {
    let (next, act) = advance(
        &config(),
        State::FindingMergedPull { commit: "c0".to_string() },
        Event::PullNumbers(vec![12, 7, 3]),
        "t",
    );
    assert_eq!(next, State::ReadingPullHead { commit: "c0".to_string() });
    assert_eq!(act, Action::GetPull { number: 12 });
}

#[test]
fn output_lines() {
    assert_eq!(output_line(&Outcome::Tagged("release-1".to_string())), Some("tag=release-1\n".to_string()));
    assert_eq!(output_line(&Outcome::PullRequestOpened("42".to_string())), Some("pr_id=42\n".to_string()));
    assert_eq!(output_line(&Outcome::PullRequestUpdated("42".to_string())), Some("pr_id=42\n".to_string()));
    assert_eq!(output_line(&Outcome::AlreadyReleased), None);
    assert_eq!(output_line(&Outcome::NoActionNeeded), None);
}

#[test]
fn configuration_defaults() {
    let cfg = config();
    assert_eq!(cfg.owner, "org");
    assert_eq!(cfg.name, "repo");
    assert_eq!(cfg.release_branch, "release/next");
    assert_eq!(cfg.tag_prefix, "release");
    assert_eq!(cfg.pr_title, "Release");
    let cfg = Config::new(
        "o".to_string(),
        "n".to_string(),
        Some("rel".to_string()),
        Some("v".to_string()),
        Some("Ship".to_string()),
    );
    assert_eq!(cfg.release_branch, "rel");
    assert_eq!(cfg.tag_prefix, "v");
    assert_eq!(cfg.pr_title, "Ship");
}

#[test]
fn configured_names_are_used() {
    let cfg = Config::new(
        "o".to_string(),
        "n".to_string(),
        Some("rel".to_string()),
        Some("v".to_string()),
        Some("Ship".to_string()),
    );
    let (next, act) = advance(
        &cfg,
        State::ReadingPullHead { commit: "c0".to_string() },
        Event::PullHead("rel".to_string()),
        "t",
    );
    assert_eq!(next, State::ListingTags { commit: "c0".to_string() });
    assert_eq!(act, Action::FindTags { pattern: "v-*".to_string() });
    let (next, act) = advance(&cfg, next, Event::Tags(Vec::new()), "20240601120000");
    assert_eq!(next, State::CreatingTag { tag: "v-20240601120000".to_string() });
    assert_eq!(
        act,
        Action::CreateTag { name: "v-20240601120000".to_string(), commit: "c0".to_string() }
    );
}

#[test]
fn a_tag_named_by_the_clock_carries_a_timestamp() {
    let (next, act) = step(
        &config(),
        State::ListingTags { commit: "c0".to_string() },
        Event::Tags(Vec::new()),
    );
    let name = match act {
        Action::CreateTag { name, commit } => {
            assert_eq!(commit, "c0");
            name
        }
        other => panic!("no tag asked for: {:?}", other),
    };
    assert_eq!(next, State::CreatingTag { tag: name.clone() });
    let stamp = name.strip_prefix("release-").unwrap();
    assert_eq!(stamp.len(), 14);
    assert!(stamp.chars().all(|c| c.is_ascii_digit()));
    assert!(stamp > "20200101000000");
}

#[test]
fn a_step_without_a_tag_needs_no_clock() {
    let (next, act) = step(&config(), State::CreatingPull, Event::Created("u".to_string()));
    assert_eq!(next, State::Finished(Outcome::PullRequestOpened("u".to_string())));
    assert_eq!(act, Action::Stop);
}
