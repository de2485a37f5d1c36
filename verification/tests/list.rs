use git_ref::error::CommandError;
use git_ref::fetch::{cmd_git_ref_fetch, FetchReply, FetchStep, GitRefFetchArgs};
use git_ref::ids::CommitId;
use git_ref::list::{
    cmd_git_ref_list, make_list_report, FetchedRef, GitRefListArgs, ListReply, ListReport,
    ListStep, Notice,
};
use git_ref::names::Name;
use git_ref::target::RefTarget;
use git_ref::text::{contains_string, encode_hex, starts_with};

type Step = ListStep<u8>;
type Reply = ListReply<u8>;

fn name(s: &str) -> Name {
    Name { name: s.to_string(), symbol: s.to_string() }
}

fn commit(byte: u8) -> CommitId {
    CommitId { bytes: vec![byte, 0x0f] }
}

fn normal(remote: &str, ref_name: &str, byte: u8) -> FetchedRef {
    FetchedRef {
        remote: name(remote),
        ref_name: name(ref_name),
        target: RefTarget::normal(commit(byte)),
    }
}

fn conflicted(remote: &str, ref_name: &str) -> FetchedRef {
    FetchedRef {
        remote: name(remote),
        ref_name: name(ref_name),
        target: RefTarget::from_terms(vec![Some(commit(1)), Some(commit(2)), Some(commit(3))]),
    }
}

fn lines(lines: &[&str]) -> Vec<String> {
    lines.iter().map(|s| s.to_string()).collect()
}

const HINT: &str =
    "Some fetched Git refs have conflicts. Fetch them again or forget them to resolve.";

#[test]
fn refs_are_listed_in_order() {
    let refs = vec![normal("a", "refs/x", 1), normal("b", "refs/x", 2), normal("b", "refs/y", 0xff)];
    assert_eq!(
        make_list_report(&refs, &None, &None),
        ListReport {
            lines: lines(&["a refs/x 010f", "b refs/x 020f", "b refs/y ff0f"]),
            notice: None,
        }
    );
}

#[test]
fn refs_are_filtered() {
    let refs = || {
        vec![normal("a", "refs/x", 1), normal("b", "refs/x", 2), normal("b", "refs/y", 3)]
    };
    let b = Some("b".to_string());
    let x = Some("refs/x".to_string());
    let listed = |remote: &Option<String>, ref_name: &Option<String>| {
        make_list_report(&refs(), remote, ref_name).lines
    };
    assert_eq!(listed(&b, &None), lines(&["b refs/x 020f", "b refs/y 030f"]));
    assert_eq!(listed(&None, &x), lines(&["a refs/x 010f", "b refs/x 020f"]));
    assert_eq!(listed(&b, &x), lines(&["b refs/x 020f"]));
}

#[test]
fn no_refs_are_told() {
    let report = make_list_report(&vec![normal("a", "refs/x", 1)], &Some("b".to_string()), &None);
    assert_eq!(
        report,
        ListReport {
            lines: vec![],
            notice: Some(Notice::Status("No fetched Git refs.".to_string())),
        }
    );
}

#[test]
fn conflicts_are_shown_with_a_hint() {
    let refs = vec![conflicted("a", "refs/x"), normal("a", "refs/y", 9)];
    assert_eq!(
        make_list_report(&refs, &None, &None),
        ListReport {
            lines: lines(&[
                "a refs/x (conflicted):",
                "  + 010f",
                "  + 030f",
                "  - 020f",
                "a refs/y 090f",
            ]),
            notice: Some(Notice::Hint(HINT.to_string())),
        }
    );
    // A conflict that is filtered out is not hinted at.
    let report = make_list_report(&refs, &None, &Some("refs/y".to_string()));
    assert_eq!(report, ListReport { lines: lines(&["a refs/y 090f"]), notice: None });
}

#[test]
fn names_show_as_symbols_and_filter_as_names() {
    let entry = FetchedRef {
        remote: Name { name: "my remote".to_string(), symbol: "\"my remote\"".to_string() },
        ref_name: Name { name: "refs/a b".to_string(), symbol: "\"refs/a b\"".to_string() },
        target: RefTarget::from_terms(vec![None]),
    };
    let report = make_list_report(
        &vec![entry],
        &Some("my remote".to_string()),
        &Some("refs/a b".to_string()),
    );
    assert_eq!(report.lines, lines(&["\"my remote\" \"refs/a b\" "]));
}

fn run(args: &GitRefListArgs, replies: Vec<Reply>) -> Step {
    let mut step = ListStep::OpenWorkspace;
    for reply in replies {
        step = cmd_git_ref_list(args, step, reply);
    }
    step
}

#[test]
fn list_walks_through_its_steps() {
    let args = GitRefListArgs { remote: None, ref_name: Some("x".to_string()) };
    let refs = || vec![normal("a", "refs/x", 1), normal("a", "refs/y", 2)];
    assert_eq!(
        run(&args, vec![Reply::Done]),
        ListStep::Canonicalize { ref_name: "x".to_string() }
    );
    let canonical = || Reply::Canonical("refs/x".to_string());
    assert_eq!(
        run(&args, vec![Reply::Done, canonical()]),
        ListStep::ReadRefs { ref_filter: Some("refs/x".to_string()) }
    );
    assert_eq!(
        run(&args, vec![Reply::Done, canonical(), Reply::Refs(refs())]),
        ListStep::Print {
            report: ListReport { lines: lines(&["a refs/x 010f"]), notice: None }
        }
    );
    assert_eq!(
        run(&args, vec![Reply::Done, canonical(), Reply::Refs(refs()), Reply::Done]),
        ListStep::Finished(Ok(()))
    );
}

#[test]
fn list_without_ref_filter_reads_at_once() {
    let args = GitRefListArgs { remote: Some("a".to_string()), ref_name: None };
    assert_eq!(run(&args, vec![Reply::Done]), ListStep::ReadRefs { ref_filter: None });
    match run(&args, vec![Reply::Done, Reply::Refs(vec![normal("b", "refs/x", 1)])]) {
        ListStep::Print { report } => assert_eq!(report.lines.len(), 0),
        other => panic!("{other:?}"),
    }
}

#[test]
fn list_failures_are_passed_on() {
    let args = GitRefListArgs { remote: None, ref_name: Some("x".to_string()) };
    let failed = |e: u8| ListStep::Finished(Err(CommandError::Outside(e)));
    assert_eq!(run(&args, vec![Reply::Failed(1)]), failed(1));
    assert_eq!(run(&args, vec![Reply::Done, Reply::Failed(2)]), failed(2));
    let mut replies = vec![Reply::Done, Reply::Canonical("refs/x".to_string())];
    replies.extend(vec![Reply::Refs(vec![]), Reply::Failed(3)]);
    assert_eq!(run(&args, replies), failed(3));
}

#[test]
fn list_ignores_replies_to_other_work() {
    let args = GitRefListArgs { remote: None, ref_name: None };
    assert_eq!(run(&args, vec![Reply::Refs(vec![])]), ListStep::OpenWorkspace);
    assert_eq!(
        run(&args, vec![Reply::Done, Reply::Failed(1)]),
        ListStep::ReadRefs { ref_filter: None }
    );
}

#[test]
fn targets_tell_what_they_are() {
    let one = RefTarget::normal(commit(1));
    assert!(one.is_present() && !one.has_conflict());
    assert_eq!(one.as_normal(), Some(&commit(1)));
    assert_eq!(one.added_ids(), vec![commit(1)]);
    assert_eq!(one.removed_ids(), vec![]);
    let absent = RefTarget::from_terms(vec![None]);
    assert!(!absent.is_present() && !absent.has_conflict());
    assert_eq!(absent.as_normal(), None);
    let conflict = RefTarget::from_terms(vec![Some(commit(1)), None, Some(commit(2))]);
    assert!(conflict.is_present() && conflict.has_conflict());
    assert_eq!(conflict.as_normal(), None);
    assert_eq!(conflict.added_ids(), vec![commit(1), commit(2)]);
    assert_eq!(conflict.removed_ids(), vec![]);
    assert_eq!(conflict.terms().len(), 3);
    assert_eq!(one.terms(), &vec![Some(commit(1))]);
}

#[test]
fn texts_are_taken_character_by_character() {
    assert_eq!(encode_hex(&vec![]), "");
    assert_eq!(encode_hex(&vec![0x00, 0x9a, 0xbc, 0xde, 0xf1]), "009abcdef1");
    assert!(starts_with("refs/\u{e9}", "refs/"));
    assert!(starts_with("refs/", "refs/"));
    assert!(!starts_with("refs", "refs/"));
    assert!(!starts_with("Refs/x", "refs/"));
    assert!(contains_string(&lines(&["a", "b"]), &"b".to_string()));
    assert!(!contains_string(&lines(&["a", "b"]), &"c".to_string()));
}

#[test]
fn listing_shows_what_was_fetched() {
    let fetch_args = GitRefFetchArgs {
        remote: Some(name("origin")),
        sources: lines(&["refs/pull/1/head"]),
        new: false,
        edit: false,
        bookmark: None,
        replace: false,
        depth: None,
        shallow_exclude: None,
    };
    // The store starts with other refs, and takes what the fetch records.
    let mut store = vec![normal("origin", "refs/x", 8), normal("up", "refs/pull/1/head", 9)];
    let replies: Vec<FetchReply<u8>> = vec![
        FetchReply::Done,
        FetchReply::Backend { is_shallow: false },
        FetchReply::Depth(None),
        FetchReply::Done,
        FetchReply::Fetched { ids: Ok(vec![commit(5)]), boundary_changed: false },
        FetchReply::Commit(commit(5)),
        FetchReply::Done,
        FetchReply::Done,
        FetchReply::Done,
        FetchReply::Done,
    ];
    let mut step = FetchStep::OpenWorkspace;
    for reply in replies {
        step = match step {
            FetchStep::RecordRefs { tx, updates } => {
                for update in &updates {
                    store.push(FetchedRef {
                        remote: tx.remote.clone(),
                        ref_name: name(&update.ref_name),
                        target: RefTarget::from_terms(update.target.terms().clone()),
                    });
                }
                cmd_git_ref_fetch(&fetch_args, FetchStep::RecordRefs { tx, updates }, reply)
            }
            step => cmd_git_ref_fetch(&fetch_args, step, reply),
        };
    }
    assert_eq!(step, FetchStep::Finished(Ok(())));
    let args = GitRefListArgs {
        remote: Some("origin".to_string()),
        ref_name: Some("refs/pull/1/head".to_string()),
    };
    let canonical = Reply::Canonical("refs/pull/1/head".to_string());
    let print = run(&args, vec![Reply::Done, canonical, Reply::Refs(store)]);
    assert_eq!(
        print,
        ListStep::Print {
            report: ListReport {
                lines: lines(&["origin refs/pull/1/head 050f"]),
                notice: None,
            }
        }
    );
    assert_eq!(cmd_git_ref_list(&args, print, Reply::Done), ListStep::Finished(Ok(())));
}
