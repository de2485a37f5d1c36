use git_ref::command::{cmd_git_ref, first_step, ForgetStep, RefCommand, RefReply, RefStep};
use git_ref::error::CommandError;
use git_ref::fetch::{FetchReply, FetchStep, GitRefFetchArgs};
use git_ref::list::{GitRefListArgs, ListReply, ListStep};
use git_ref::names::Name;
use git_ref::push::{GitRefPushArgs, PushReply, PushStep};

type Command = RefCommand<u32>;
type Step = RefStep<u8>;

fn fetch() -> Command {
    RefCommand::Fetch(GitRefFetchArgs {
        remote: Some(Name { name: "o".to_string(), symbol: "o".to_string() }),
        sources: vec!["a".to_string()],
        new: false,
        edit: false,
        bookmark: None,
        replace: false,
        depth: None,
        shallow_exclude: None,
    })
}

fn list() -> Command {
    RefCommand::List(GitRefListArgs { remote: None, ref_name: None })
}

fn push() -> Command {
    RefCommand::Push(GitRefPushArgs {
        remote: None,
        force: true,
        expected_at: None,
        expected_absent: false,
        option: vec![],
        revision: "@".to_string(),
        ref_name: "refs/for/main".to_string(),
    })
}

#[test]
fn each_command_goes_its_own_steps() {
    let step: Step = first_step(&fetch());
    assert_eq!(step, RefStep::Fetch(FetchStep::OpenWorkspace));
    let next = cmd_git_ref(&fetch(), step, RefReply::Fetch(FetchReply::Done));
    assert!(matches!(next, RefStep::Fetch(FetchStep::FindBackend { .. })));

    let step: Step = first_step(&list());
    assert_eq!(step, RefStep::List(ListStep::OpenWorkspace));
    let next = cmd_git_ref(&list(), step, RefReply::List(ListReply::Done));
    assert_eq!(next, RefStep::List(ListStep::ReadRefs { ref_filter: None }));

    let step: Step = first_step(&push());
    assert_eq!(step, RefStep::Push(PushStep::OpenWorkspace));
    let next = cmd_git_ref(&push(), step, RefReply::Push(PushReply::Done));
    assert_eq!(next, RefStep::Push(PushStep::FindBackend));
}

#[test]
fn forgetting_is_done_outside() {
    let command: Command = RefCommand::Forget(7);
    let step: Step = first_step(&command);
    assert_eq!(step, RefStep::Forget(ForgetStep::Run));
    let next = cmd_git_ref(&command, step, RefReply::Forget(Ok(())));
    assert_eq!(next, RefStep::Forget(ForgetStep::Finished(Ok(()))));
    let next = cmd_git_ref(&command, RefStep::Forget(ForgetStep::Run), RefReply::Forget(Err(4)));
    assert_eq!(
        next,
        RefStep::Forget(ForgetStep::Finished(Err(CommandError::Outside(4))))
    );
}

#[test]
fn replies_to_another_command_change_nothing() {
    let step: Step = first_step(&list());
    let next = cmd_git_ref(&list(), step, RefReply::Push(PushReply::Done));
    assert_eq!(next, RefStep::List(ListStep::OpenWorkspace));
}
