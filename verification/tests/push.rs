use git_ref::error::CommandError;
use git_ref::ids::{CommitId, HashKind, ObjectId};
use git_ref::names::{Name, Piece};
use git_ref::push::{
    cmd_git_ref_push, planned_update, push_commit, push_outcome, push_to_remote, GitRefPushArgs,
    GitRefUpdate, PushReply, PushStats, PushStep,
};

type Step = PushStep<u8>;
type Reply = PushReply<u8>;

fn origin() -> Name {
    Name { name: "origin".to_string(), symbol: "origin".to_string() }
}

fn spaced() -> Name {
    Name { name: "my remote".to_string(), symbol: "\"my remote\"".to_string() }
}

fn args() -> GitRefPushArgs {
    GitRefPushArgs {
        remote: Some(origin()),
        force: true,
        expected_at: None,
        expected_absent: false,
        option: vec!["topic=x".to_string()],
        revision: "@-".to_string(),
        ref_name: "refs/for/main".to_string(),
    }
}

fn expecting_absence() -> GitRefPushArgs {
    GitRefPushArgs { force: false, expected_absent: true, ..args() }
}

fn expecting(id: ObjectId) -> GitRefPushArgs {
    GitRefPushArgs { force: false, expected_at: Some(id), ..args() }
}

fn commit(byte: u8) -> CommitId {
    CommitId { bytes: vec![byte; 20] }
}

fn object(byte: u8) -> ObjectId {
    ObjectId::from_bytes_or_panic(&vec![byte; 20])
}

fn user_error(message: &str) -> Step {
    PushStep::Finished(Err(CommandError::User { message: message.to_string(), hint: None }))
}

fn text(s: &str) -> Piece {
    Piece::Text(s.to_string())
}

fn run(args: &GitRefPushArgs, replies: Vec<Reply>) -> Step {
    let mut step = PushStep::OpenWorkspace;
    for reply in replies {
        step = cmd_git_ref_push(args, step, reply);
    }
    step
}

fn up_to_date() -> PushStats {
    PushStats { all_ok: true, up_to_date: vec!["refs/for/main".to_string()] }
}

fn pushed() -> PushStats {
    PushStats { all_ok: true, up_to_date: vec![] }
}

fn to_commit(id: CommitId) -> Vec<Reply> {
    vec![Reply::Done, Reply::Done, Reply::Commit { id, root: commit(0) }]
}

fn to_outcome(stats: PushStats) -> Vec<Reply> {
    let mut replies = to_commit(commit(0xab));
    replies.extend(vec![Reply::Done, Reply::Pushed(stats), Reply::Done]);
    replies
}

#[test]
fn push_walks_through_its_steps() {
    let args = args();
    assert_eq!(run(&args, vec![]), PushStep::OpenWorkspace);
    assert_eq!(run(&args, vec![Reply::Done]), PushStep::FindBackend);
    assert_eq!(
        run(&args, vec![Reply::Done, Reply::Done]),
        PushStep::ResolveRevision { remote: origin(), revision: "@-".to_string() }
    );
    let update = GitRefUpdate::Forced {
        name: "refs/for/main".to_string(),
        new_target: object(0xab),
    };
    assert_eq!(
        run(&args, to_commit(commit(0xab))),
        PushStep::LoadSettings { remote: origin(), update }
    );
    let mut replies = to_commit(commit(0xab));
    replies.push(Reply::Done);
    let update = GitRefUpdate::Forced {
        name: "refs/for/main".to_string(),
        new_target: object(0xab),
    };
    assert_eq!(
        run(&args, replies),
        PushStep::Push { remote: origin(), update, options: vec!["topic=x".to_string()] }
    );
    assert_eq!(
        run(&args, to_outcome(pushed())),
        PushStep::WriteStatus {
            pieces: vec![
                text("Pushed "),
                Piece::Summary(commit(0xab)),
                text(" to refs/for/main@origin\n"),
            ]
        }
    );
    let mut replies = to_outcome(pushed());
    replies.push(Reply::Done);
    assert_eq!(run(&args, replies), PushStep::Finished(Ok(())));
}

#[test]
fn push_asks_for_the_default_remote() {
    let args = GitRefPushArgs { remote: None, ..args() };
    assert_eq!(run(&args, vec![Reply::Done, Reply::Done]), PushStep::DefaultRemote);
    assert_eq!(
        run(&args, vec![Reply::Done, Reply::Done, Reply::Remote(spaced())]),
        PushStep::ResolveRevision { remote: spaced(), revision: "@-".to_string() }
    );
}

#[test]
fn push_refuses_names_outside_refs() {
    let args = GitRefPushArgs { ref_name: "HEAD".to_string(), ..args() };
    assert_eq!(
        run(&args, vec![Reply::Done, Reply::Done]),
        user_error("Invalid fully qualified Git ref name: HEAD")
    );
    let args = GitRefPushArgs { ref_name: "ref".to_string(), ..args };
    assert_eq!(
        run(&args, vec![Reply::Done, Reply::Done]),
        user_error("Invalid fully qualified Git ref name: ref")
    );
}

#[test]
fn push_refuses_names_that_git_refuses() {
    for name in ["refs/", "refs/a..b", "refs/heads/x.lock", "refs/heads/a b", "refs//x"] {
        let args = GitRefPushArgs { ref_name: name.to_string(), ..args() };
        let message = format!("Invalid fully qualified Git ref name: {name}");
        assert_eq!(run(&args, vec![Reply::Done, Reply::Done]), user_error(&message));
    }
}

#[test]
fn push_takes_full_names() {
    for name in ["refs/for/main", "refs/heads/main", "refs/x", "refs/heads/\u{e9}"] {
        let args = GitRefPushArgs { ref_name: name.to_string(), ..args() };
        assert_eq!(
            run(&args, vec![Reply::Done, Reply::Done]),
            PushStep::ResolveRevision { remote: origin(), revision: "@-".to_string() }
        );
    }
}

#[test]
fn destination_needs_both_prefix_and_full_name() {
    let good = args();
    let next: Step = push_to_remote(&good, origin(), true);
    assert!(matches!(next, PushStep::ResolveRevision { .. }));
    let next: Step = push_to_remote(&good, origin(), false);
    assert_eq!(next, user_error("Invalid fully qualified Git ref name: refs/for/main"));
    let bare = GitRefPushArgs { ref_name: "main".to_string(), ..args() };
    let next: Step = push_to_remote(&bare, origin(), true);
    assert_eq!(next, user_error("Invalid fully qualified Git ref name: main"));
}

#[test]
fn root_commit_is_not_pushed() {
    assert_eq!(
        run(&args(), to_commit(commit(0))),
        user_error("Cannot push the root commit to Git")
    );
    // The root is found before its ID is taken for one of Git's.
    let odd = CommitId { bytes: vec![1, 2, 3] };
    let next: Step = push_commit(&args(), origin(), &odd, &CommitId { bytes: vec![1, 2, 3] });
    assert_eq!(next, user_error("Cannot push the root commit to Git"));
}

#[test]
fn expected_id_is_of_the_repository_kind() {
    let long = ObjectId::from_bytes_or_panic(&vec![1; 32]);
    assert_eq!(
        run(&expecting(long), to_commit(commit(0xab))),
        user_error("Git object ID for --expected-at uses sha256, but this repository uses sha1")
    );
    let id = CommitId { bytes: vec![2; 32] };
    let next: Step = push_commit(&expecting(object(1)), origin(), &id, &commit(0));
    assert_eq!(
        next,
        user_error("Git object ID for --expected-at uses sha1, but this repository uses sha256")
    );
}

#[test]
fn each_safety_choice_has_its_update() {
    let name = || "refs/for/main".to_string();
    assert_eq!(
        planned_update(&args(), object(2)),
        GitRefUpdate::Forced { name: name(), new_target: object(2) }
    );
    assert_eq!(
        planned_update(&expecting_absence(), object(2)),
        GitRefUpdate::WithLease { name: name(), expected: None, new_target: object(2) }
    );
    assert_eq!(
        planned_update(&expecting(object(1)), object(2)),
        GitRefUpdate::WithLease { name: name(), expected: Some(object(1)), new_target: object(2) }
    );
}

#[test]
fn rejected_push_fails() {
    let stats = PushStats { all_ok: false, up_to_date: vec!["refs/for/main".to_string()] };
    assert_eq!(
        run(&args(), to_outcome(stats)),
        user_error("Failed to push Git ref refs/for/main")
    );
}

#[test]
fn forced_push_may_find_the_ref_in_place() {
    assert_eq!(
        run(&args(), to_outcome(up_to_date())),
        PushStep::WriteStatus {
            pieces: vec![
                text("Git ref refs/for/main@origin already points to "),
                Piece::Summary(commit(0xab)),
                text("\n"),
            ]
        }
    );
}

#[test]
fn expected_target_may_be_the_new_one() {
    assert!(matches!(
        run(&expecting(object(0xab)), to_outcome(up_to_date())),
        PushStep::WriteStatus { .. }
    ));
}

#[test]
fn absent_ref_that_is_in_place_fails() {
    assert_eq!(
        run(&expecting_absence(), to_outcome(up_to_date())),
        user_error(
            "Git ref refs/for/main@origin already points to \
             abababababababababababababababababababab, but it was expected to not exist"
        )
    );
    assert!(matches!(
        run(&expecting_absence(), to_outcome(pushed())),
        PushStep::WriteStatus { .. }
    ));
}

#[test]
fn ref_that_is_not_where_expected_fails() {
    let args = expecting(object(0x0f));
    let next: Step = push_outcome(&args, &spaced(), &object(0xab), &up_to_date());
    assert_eq!(
        next,
        user_error(
            "Git ref refs/for/main@\"my remote\" already points to \
             abababababababababababababababababababab, but it was expected to point to \
             0f0f0f0f0f0f0f0f0f0f0f0f0f0f0f0f0f0f0f0f"
        )
    );
}

#[test]
fn another_ref_up_to_date_does_not_count() {
    let stats = PushStats { all_ok: true, up_to_date: vec!["refs/for/mai".to_string()] };
    assert_eq!(
        run(&args(), to_outcome(stats)),
        PushStep::WriteStatus {
            pieces: vec![
                text("Pushed "),
                Piece::Summary(commit(0xab)),
                text(" to refs/for/main@origin\n"),
            ]
        }
    );
}

#[test]
fn push_failures_are_passed_on() {
    let args = args();
    let all = to_outcome(pushed());
    for n in 0..all.len() {
        let mut replies = to_outcome(pushed());
        replies.truncate(n);
        replies.push(Reply::Failed(n as u8));
        assert_eq!(
            run(&args, replies),
            PushStep::Finished(Err(CommandError::Outside(n as u8)))
        );
    }
}

#[test]
fn push_ignores_replies_to_other_work() {
    let args = args();
    assert_eq!(run(&args, vec![Reply::Pushed(pushed())]), PushStep::OpenWorkspace);
    assert_eq!(
        run(&args, vec![Reply::Done, Reply::Remote(spaced())]),
        PushStep::FindBackend
    );
    let mut replies = to_outcome(pushed());
    replies.extend(vec![Reply::Done, Reply::Failed(3)]);
    assert_eq!(run(&args, replies), PushStep::Finished(Ok(())));
}

#[test]
fn object_ids_know_their_kind() {
    assert_eq!(object(7).kind(), HashKind::Sha1);
    assert_eq!(ObjectId::from_bytes_or_panic(&vec![7; 32]).kind(), HashKind::Sha256);
    assert_eq!(HashKind::Sha1.name(), "sha1");
    assert_eq!(HashKind::Sha256.name(), "sha256");
    assert_eq!(object(0x0a).hex(), "0a".repeat(20));
    assert_eq!(object(0x0a).as_bytes(), &vec![0x0a; 20]);
    assert!(object(1).same(&object(1)));
    assert!(!object(1).same(&object(2)));
}

#[test]
fn push_is_sent_once() {
    let args = args();
    let mut step: Step = PushStep::OpenWorkspace;
    let mut sent = 0;
    let mut answered = 0;
    let mut replies = to_outcome(pushed());
    replies.push(Reply::Done);
    for reply in replies {
        // Replies to other work come between, and change nothing.
        if !matches!(step, PushStep::DefaultRemote) {
            step = cmd_git_ref_push(&args, step, Reply::Remote(spaced()));
        }
        if matches!(step, PushStep::Push { .. }) {
            sent += 1;
        }
        step = cmd_git_ref_push(&args, step, reply);
        answered += 1;
    }
    assert_eq!(step, PushStep::Finished(Ok(())));
    assert_eq!(sent, 1);
    assert!(answered <= 8);
}
