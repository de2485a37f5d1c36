use git_ref::error::CommandError;
use git_ref::fetch::{
    cmd_git_ref_fetch, do_fetch, get_default_fetch_remote, move_bookmark, FetchReply, FetchStep,
    FetchTx, FetchedRefUpdate, GitRefFetchArgs, RemoteCandidate,
};
use git_ref::ids::CommitId;
use git_ref::names::{Name, Piece};
use git_ref::target::RefTarget;

type Step = FetchStep<u8>;
type Reply = FetchReply<u8>;

fn name(s: &str) -> Name {
    Name { name: s.to_string(), symbol: s.to_string() }
}

fn args(sources: &[&str]) -> GitRefFetchArgs {
    GitRefFetchArgs {
        remote: Some(name("origin")),
        sources: sources.iter().map(|s| s.to_string()).collect(),
        new: false,
        edit: false,
        bookmark: None,
        replace: false,
        depth: None,
        shallow_exclude: None,
    }
}

fn commit(byte: u8) -> CommitId {
    CommitId { bytes: vec![byte; 20] }
}

fn absent() -> RefTarget {
    RefTarget::from_terms(vec![None])
}

fn conflict(a: u8, b: u8) -> RefTarget {
    RefTarget::from_terms(vec![Some(commit(a)), None, Some(commit(b))])
}

fn text(s: &str) -> Piece {
    Piece::Text(s.to_string())
}

fn user_error(message: &str, hint: Option<&str>) -> Result<(), CommandError<u8>> {
    Err(CommandError::User {
        message: message.to_string(),
        hint: hint.map(|h| h.to_string()),
    })
}

fn run(args: &GitRefFetchArgs, replies: Vec<Reply>) -> Step {
    let mut step = FetchStep::OpenWorkspace;
    for reply in replies {
        step = cmd_git_ref_fetch(args, step, reply);
    }
    step
}

fn to_fetch() -> Vec<Reply> {
    vec![
        Reply::Done,
        Reply::Backend { is_shallow: false },
        Reply::Depth(Some(5)),
        Reply::Done,
    ]
}

fn to_recorded(ids: &[u8], boundary_changed: bool) -> Vec<Reply> {
    let mut replies = to_fetch();
    replies.push(Reply::Fetched {
        ids: Ok(ids.iter().map(|b| commit(*b)).collect()),
        boundary_changed,
    });
    for b in ids {
        replies.push(Reply::Commit(commit(*b)));
        replies.push(Reply::Done);
    }
    replies.push(Reply::Done);
    replies
}

fn tx(ids: &[u8], boundary_changed: bool) -> FetchTx {
    FetchTx {
        remote: name("origin"),
        boundary_changed,
        ids: ids.iter().map(|b| commit(*b)).collect(),
        commits: ids.iter().map(|b| commit(*b)).collect(),
    }
}

#[test]
fn fetch_walks_through_its_steps() {
    let args = args(&["refs/pull/1/head", "refs/pull/2/head"]);
    assert_eq!(run(&args, vec![Reply::Done]), FetchStep::FindBackend { remote: name("origin") });
    assert_eq!(
        run(&args, vec![Reply::Done, Reply::Backend { is_shallow: true }]),
        FetchStep::ReadDepth { remote: name("origin"), depth: None }
    );
    assert_eq!(
        run(&args, to_fetch()),
        FetchStep::Fetch {
            remote: name("origin"),
            sources: vec!["refs/pull/1/head".to_string(), "refs/pull/2/head".to_string()],
            depth: Some(5),
            shallow_exclude: None,
        }
    );
    let mut replies = to_fetch();
    replies.push(Reply::Fetched { ids: Ok(vec![commit(1), commit(2)]), boundary_changed: true });
    replies.push(Reply::Commit(commit(1)));
    let step = run(&args, replies);
    let half = FetchTx { commits: vec![commit(1)], ..tx(&[1, 2], true) };
    assert_eq!(
        step,
        FetchStep::ReportFetched {
            tx: half,
            pieces: vec![
                text("Fetched refs/pull/1/head as "),
                Piece::Summary(commit(1)),
                text("\n"),
            ],
        }
    );
    let step = cmd_git_ref_fetch(&args, step, Reply::Done);
    assert!(matches!(&step, FetchStep::Import { id, .. } if *id == commit(2)));
    let step = cmd_git_ref_fetch(&args, step, Reply::Commit(commit(2)));
    let step = cmd_git_ref_fetch(&args, step, Reply::Done);
    assert_eq!(
        step,
        FetchStep::RecordRefs {
            tx: tx(&[1, 2], true),
            updates: vec![
                FetchedRefUpdate {
                    ref_name: "refs/pull/1/head".to_string(),
                    target: RefTarget::normal(commit(1)),
                },
                FetchedRefUpdate {
                    ref_name: "refs/pull/2/head".to_string(),
                    target: RefTarget::normal(commit(2)),
                },
            ],
        }
    );
    let step = cmd_git_ref_fetch(&args, step, Reply::Done);
    assert_eq!(
        step,
        FetchStep::Finish {
            tx: tx(&[1, 2], true),
            description:
                "fetch refs or commit IDs refs/pull/1/head, refs/pull/2/head from git remote origin"
                    .to_string(),
        }
    );
    let step = cmd_git_ref_fetch(&args, step, Reply::Done);
    assert_eq!(step, FetchStep::ReinitIndex { boundary_changed: true, outcome: Ok(()) });
    let step = cmd_git_ref_fetch(&args, step, Reply::Done);
    assert_eq!(step, FetchStep::Finished(Ok(())));
}

#[test]
fn sources_and_commits_are_taken_in_pairs() {
    let two = args(&["a", "b"]);
    let mut replies = to_recorded(&[1], false);
    replies.pop();
    match run(&two, replies) {
        FetchStep::RecordRefs { updates, .. } => assert_eq!(updates.len(), 1),
        other => panic!("{other:?}"),
    }
    let one = args(&["a"]);
    let mut replies = to_fetch();
    replies.push(Reply::Fetched { ids: Ok(vec![commit(1), commit(2)]), boundary_changed: false });
    replies.extend(vec![Reply::Commit(commit(1)), Reply::Done]);
    match run(&one, replies) {
        FetchStep::RecordRefs { updates, .. } => assert_eq!(updates.len(), 1),
        other => panic!("{other:?}"),
    }
}

#[test]
fn depth_is_asked_for_and_replied() {
    let args = GitRefFetchArgs { depth: Some(3), ..args(&["a"]) };
    assert_eq!(
        run(&args, vec![Reply::Done, Reply::Backend { is_shallow: false }]),
        FetchStep::ReadDepth { remote: name("origin"), depth: Some(3) }
    );
    assert_eq!(
        run(
            &args,
            vec![Reply::Done, Reply::Backend { is_shallow: false }, Reply::Depth(None)]
        ),
        FetchStep::LoadSettings { remote: name("origin"), depth: None }
    );
}

fn candidate(remote: &str, is_match: bool) -> RemoteCandidate {
    RemoteCandidate { remote: name(remote), is_match }
}

#[test]
fn default_remote_is_the_only_match() {
    let picked = get_default_fetch_remote::<u8>(vec![
        candidate("a", false),
        candidate("b", true),
        candidate("c", false),
    ]);
    assert_eq!(picked, Ok(name("b")));
    let none = get_default_fetch_remote::<u8>(vec![candidate("a", false)]);
    assert_eq!(
        none,
        Err(CommandError::User {
            message: "No git remotes to fetch from".to_string(),
            hint: None
        })
    );
    let many = get_default_fetch_remote::<u8>(vec![candidate("a", true), candidate("b", true)]);
    assert_eq!(
        many,
        Err(CommandError::User {
            message: "Default git fetch configuration matches multiple remotes".to_string(),
            hint: Some("Use `--remote` to select one remote for `jj git ref fetch`.".to_string()),
        })
    );
}

#[test]
fn fetch_without_remote_asks_for_one() {
    let args = GitRefFetchArgs { remote: None, ..args(&["a"]) };
    assert_eq!(run(&args, vec![Reply::Done]), FetchStep::DefaultRemotes);
    assert_eq!(run(&args, vec![Reply::Done, Reply::Done]), FetchStep::ListRemotes);
    assert_eq!(
        run(
            &args,
            vec![Reply::Done, Reply::Done, Reply::Remotes(vec![candidate("up", true)])]
        ),
        FetchStep::FindBackend { remote: name("up") }
    );
    assert_eq!(
        run(&args, vec![Reply::Done, Reply::Done, Reply::Remotes(vec![])]),
        FetchStep::Finished(user_error("No git remotes to fetch from", None))
    );
}

#[test]
fn single_target_options_need_one_source() {
    let message = "--new, --edit, and --bookmark require exactly one fetch target";
    let refused = FetchStep::Finished(user_error(message, None));
    let new = GitRefFetchArgs { new: true, ..args(&["a", "b"]) };
    let edit = GitRefFetchArgs { edit: true, ..args(&["a", "b"]) };
    let bookmark = GitRefFetchArgs { bookmark: Some(name("x")), ..args(&["a", "b"]) };
    for args in [new, edit, bookmark] {
        assert_eq!(run(&args, vec![Reply::Done]), refused);
    }
    let one = GitRefFetchArgs { new: true, ..args(&["a"]) };
    assert_eq!(run(&one, vec![Reply::Done]), FetchStep::FindBackend { remote: name("origin") });
}

#[test]
fn excluding_history_needs_a_shallow_repository() {
    let args = GitRefFetchArgs { shallow_exclude: Some("main".to_string()), ..args(&["a"]) };
    assert_eq!(
        run(&args, vec![Reply::Done, Reply::Backend { is_shallow: false }]),
        FetchStep::Finished(user_error(
            "--shallow-exclude is only supported in an existing shallow repository",
            None
        ))
    );
    let replies = vec![
        Reply::Done,
        Reply::Backend { is_shallow: true },
        Reply::Depth(None),
        Reply::Done,
    ];
    assert_eq!(
        run(&args, replies),
        FetchStep::Fetch {
            remote: name("origin"),
            sources: vec!["a".to_string()],
            depth: None,
            shallow_exclude: Some("main".to_string()),
        }
    );
}

fn with_bookmark(replace: bool) -> GitRefFetchArgs {
    GitRefFetchArgs { bookmark: Some(name("feature")), replace, ..args(&["a"]) }
}

fn bookmark_step(replace: bool, existing: RefTarget) -> Step {
    let mut replies = to_recorded(&[1], true);
    replies.push(Reply::Bookmark(existing));
    run(&with_bookmark(replace), replies)
}

#[test]
fn bookmark_is_looked_up_and_set() {
    assert_eq!(
        run(&with_bookmark(false), to_recorded(&[1], true)),
        FetchStep::ReadBookmark { tx: tx(&[1], true), bookmark: name("feature") }
    );
    let set = || FetchStep::SetBookmark {
        tx: tx(&[1], true),
        bookmark: name("feature"),
        target: RefTarget::normal(commit(1)),
    };
    assert_eq!(bookmark_step(false, absent()), set());
    assert_eq!(bookmark_step(false, RefTarget::normal(commit(1))), set());
    assert_eq!(bookmark_step(true, RefTarget::normal(commit(2))), set());
    assert_eq!(bookmark_step(true, conflict(1, 2)), set());
}

#[test]
fn bookmark_elsewhere_is_protected() {
    let refused = || FetchStep::ReinitIndex {
        boundary_changed: true,
        outcome: user_error(
            "Bookmark already exists: feature",
            Some("Use --replace to move it to the fetched ref."),
        ),
    };
    assert_eq!(bookmark_step(false, RefTarget::normal(commit(2))), refused());
    assert_eq!(bookmark_step(false, conflict(1, 2)), refused());
    let next: Step = move_bookmark(
        &with_bookmark(false),
        tx(&[1], true),
        name("feature"),
        &RefTarget::normal(commit(3)),
    );
    assert_eq!(next, refused());
    // The index is seen to, and the refusal is what the fetch ends with.
    let ended = cmd_git_ref_fetch(&with_bookmark(false), refused(), Reply::Failed(9));
    assert_eq!(
        ended,
        FetchStep::Finished(user_error(
            "Bookmark already exists: feature",
            Some("Use --replace to move it to the fetched ref.")
        ))
    );
}

#[test]
fn fetched_commit_is_edited_once_it_may_be_rewritten() {
    let args = GitRefFetchArgs { edit: true, ..args(&["a"]) };
    let step = run(&args, to_recorded(&[1], false));
    assert_eq!(step, FetchStep::CheckRewritable { tx: tx(&[1], false), commit: commit(1) });
    let step = cmd_git_ref_fetch(&args, step, Reply::Done);
    assert_eq!(
        step,
        FetchStep::Edit { tx: tx(&[1], false), commit: commit(1), created: false }
    );
    let step = cmd_git_ref_fetch(&args, step, Reply::Done);
    assert!(matches!(step, FetchStep::Finish { .. }));
}

#[test]
fn edit_comes_before_new() {
    let args = GitRefFetchArgs { edit: true, new: true, ..args(&["a"]) };
    assert!(matches!(
        run(&args, to_recorded(&[1], false)),
        FetchStep::CheckRewritable { .. }
    ));
}

#[test]
fn new_commit_is_created_and_edited() {
    let args = GitRefFetchArgs { new: true, bookmark: Some(name("x")), ..args(&["a"]) };
    let mut replies = to_recorded(&[1], false);
    replies.push(Reply::Bookmark(absent()));
    replies.push(Reply::Done);
    let step = run(&args, replies);
    assert_eq!(step, FetchStep::MergeTrees { tx: tx(&[1], false), commit: commit(1) });
    let step = cmd_git_ref_fetch(&args, step, Reply::Done);
    assert_eq!(step, FetchStep::CreateCommit { tx: tx(&[1], false), parent: commit(1) });
    let step = cmd_git_ref_fetch(&args, step, Reply::Commit(commit(7)));
    assert_eq!(
        step,
        FetchStep::Edit { tx: tx(&[1], false), commit: commit(7), created: true }
    );
    let step = cmd_git_ref_fetch(&args, step, Reply::Done);
    assert_eq!(
        step,
        FetchStep::ReportCreated {
            tx: tx(&[1], false),
            pieces: vec![
                text("Created new commit "),
                Piece::Summary(commit(7)),
                text("\n"),
            ],
        }
    );
    let step = cmd_git_ref_fetch(&args, step, Reply::Done);
    assert!(matches!(step, FetchStep::Finish { .. }));
}

#[test]
fn failures_before_the_transaction_end_the_fetch() {
    let args = GitRefFetchArgs { remote: None, ..args(&["a"]) };
    let before = || {
        vec![
            Reply::Done,
            Reply::Done,
            Reply::Remotes(vec![candidate("up", true)]),
            Reply::Backend { is_shallow: false },
        ]
    };
    for n in 0..=before().len() {
        let mut replies = before();
        replies.truncate(n);
        replies.push(Reply::Failed(n as u8));
        assert_eq!(
            run(&args, replies),
            FetchStep::Finished(Err(CommandError::Outside(n as u8)))
        );
    }
}

#[test]
fn failures_within_the_transaction_go_by_the_index() {
    let args = args(&["a"]);
    // The settings fail before anything is fetched.
    let mut replies = to_fetch();
    replies.pop();
    replies.push(Reply::Failed(1));
    assert_eq!(
        run(&args, replies),
        FetchStep::ReinitIndex {
            boundary_changed: false,
            outcome: Err(CommandError::Outside(1))
        }
    );
    // The fetch itself fails, with the boundary changed.
    let mut replies = to_fetch();
    replies.push(Reply::Fetched { ids: Err(2), boundary_changed: true });
    assert_eq!(
        run(&args, replies),
        FetchStep::ReinitIndex { boundary_changed: true, outcome: Err(CommandError::Outside(2)) }
    );
    // The import, the report and the end of the transaction fail.
    let all = to_recorded(&[1], true);
    for n in [5, 6, all.len()] {
        let mut replies = to_recorded(&[1], true);
        replies.truncate(n);
        replies.push(Reply::Failed(n as u8));
        assert_eq!(
            run(&args, replies),
            FetchStep::ReinitIndex {
                boundary_changed: true,
                outcome: Err(CommandError::Outside(n as u8))
            }
        );
    }
}

#[test]
fn first_error_of_a_fetch_wins() {
    let args = args(&["a"]);
    let failed = || FetchStep::ReinitIndex {
        boundary_changed: true,
        outcome: Err(CommandError::Outside(1)),
    };
    let went_well = || FetchStep::ReinitIndex { boundary_changed: true, outcome: Ok(()) };
    let end = |step: Step, reply: Reply| cmd_git_ref_fetch(&args, step, reply);
    assert_eq!(end(failed(), Reply::Done), FetchStep::Finished(Err(CommandError::Outside(1))));
    assert_eq!(
        end(failed(), Reply::Failed(2)),
        FetchStep::Finished(Err(CommandError::Outside(1)))
    );
    assert_eq!(
        end(went_well(), Reply::Failed(2)),
        FetchStep::Finished(Err(CommandError::Outside(2)))
    );
    assert_eq!(end(went_well(), Reply::Done), FetchStep::Finished(Ok(())));
}

#[test]
fn fetch_ignores_replies_to_other_work() {
    let args = args(&["a"]);
    assert_eq!(run(&args, vec![Reply::Commit(commit(1))]), FetchStep::OpenWorkspace);
    let mut replies = to_fetch();
    let waiting = run(&args, to_fetch());
    replies.push(Reply::Failed(1));
    assert_eq!(run(&args, replies), waiting);
    let ended: Step = FetchStep::Finished(Ok(()));
    assert_eq!(
        cmd_git_ref_fetch(&args, ended, Reply::Failed(1)),
        FetchStep::Finished(Ok(()))
    );
}

#[test]
fn fetching_goes_on_after_the_settings() {
    let args = args(&["a"]);
    let step: Step = FetchStep::LoadSettings { remote: name("origin"), depth: Some(2) };
    assert_eq!(
        do_fetch(&args, step, Reply::Done),
        FetchStep::Fetch {
            remote: name("origin"),
            sources: vec!["a".to_string()],
            depth: Some(2),
            shallow_exclude: None,
        }
    );
}

#[test]
fn fetch_ends_within_its_bound() {
    let args = args(&["a", "b", "c"]);
    let mut step: Step = FetchStep::OpenWorkspace;
    let mut answered = 0;
    let mut finished = 0;
    let mut seen_to = 0;
    let mut replies = to_recorded(&[1, 2, 3], true);
    replies.extend(vec![Reply::Done, Reply::Done]);
    for reply in replies {
        match &step {
            FetchStep::Finish { .. } => finished += 1,
            FetchStep::ReinitIndex { boundary_changed, .. } => {
                assert!(*boundary_changed);
                seen_to += 1;
            }
            _ => {}
        }
        step = cmd_git_ref_fetch(&args, step, reply);
        answered += 1;
    }
    assert_eq!(step, FetchStep::Finished(Ok(())));
    assert_eq!((finished, seen_to), (1, 1));
    assert!(answered <= 2 * 3 + 16);
}

#[test]
fn refused_fetch_finishes_nothing() {
    let args = with_bookmark(false);
    let mut step: Step = FetchStep::OpenWorkspace;
    let mut seen_to = 0;
    let mut replies = to_recorded(&[1], false);
    replies.extend(vec![Reply::Bookmark(RefTarget::normal(commit(2))), Reply::Done]);
    for reply in replies {
        assert!(!matches!(step, FetchStep::Finish { .. }));
        if matches!(step, FetchStep::ReinitIndex { boundary_changed: false, .. }) {
            seen_to += 1;
        }
        step = cmd_git_ref_fetch(&args, step, reply);
    }
    assert_eq!(seen_to, 1);
    assert!(matches!(step, FetchStep::Finished(Err(CommandError::User { .. }))));
}

#[test]
fn fetching_answers_failures_too() {
    let args = args(&["a"]);
    let failed = |boundary_changed: bool| -> Step {
        FetchStep::ReinitIndex { boundary_changed, outcome: Err(CommandError::Outside(8)) }
    };
    let settings: Step = FetchStep::LoadSettings { remote: name("origin"), depth: None };
    assert_eq!(do_fetch(&args, settings, Reply::Failed(8)), failed(false));
    let import: Step = FetchStep::Import {
        tx: FetchTx { commits: vec![], ..tx(&[1], true) },
        id: commit(1),
    };
    assert_eq!(do_fetch(&args, import, Reply::Failed(8)), failed(true));
    let report: Step = FetchStep::ReportFetched { tx: tx(&[1], true), pieces: vec![] };
    assert_eq!(do_fetch(&args, report, Reply::Failed(8)), failed(true));
}

#[test]
fn imported_commit_is_what_is_recorded() {
    let args = args(&["a"]);
    let mut replies = to_fetch();
    replies.push(Reply::Fetched { ids: Ok(vec![commit(1)]), boundary_changed: false });
    // The commit is recorded under the ID that it was imported as.
    replies.extend(vec![Reply::Commit(commit(6)), Reply::Done]);
    match run(&args, replies) {
        FetchStep::RecordRefs { tx, updates } => {
            assert_eq!(tx.ids, vec![commit(1)]);
            assert_eq!(tx.commits, vec![commit(6)]);
            assert_eq!(updates[0].target, RefTarget::normal(commit(6)));
        }
        other => panic!("{other:?}"),
    }
}

#[test]
fn failed_transaction_is_not_finished() {
    let args = GitRefFetchArgs { edit: true, ..args(&["a"]) };
    let mut step: Step = FetchStep::OpenWorkspace;
    let mut replies = to_recorded(&[1], true);
    replies.extend(vec![Reply::Failed(4), Reply::Failed(5), Reply::Done]);
    for reply in replies {
        assert!(!matches!(step, FetchStep::Finish { .. }));
        step = cmd_git_ref_fetch(&args, step, reply);
    }
    assert_eq!(step, FetchStep::Finished(Err(CommandError::Outside(4))));
}

#[test]
fn fetch_can_be_repeated() {
    let args = with_bookmark(false);
    let whole = |existing: RefTarget| {
        let mut replies = to_recorded(&[1], false);
        replies.push(Reply::Bookmark(existing));
        replies.extend(vec![Reply::Done, Reply::Done, Reply::Done]);
        replies
    };
    assert_eq!(run(&args, whole(absent())), FetchStep::Finished(Ok(())));
    assert_eq!(
        run(&args, whole(RefTarget::normal(commit(1)))),
        FetchStep::Finished(Ok(()))
    );
    assert_eq!(
        bookmark_step(false, RefTarget::normal(commit(1))),
        bookmark_step(false, absent())
    );
}
