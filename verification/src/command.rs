//! The commands on raw Git refs as one: each goes its own steps.

use vstd::prelude::*;

use crate::error::outcome_view;
use crate::error::CommandError;
use crate::error::CommandErrorView;
use crate::fetch::cmd_git_ref_fetch;
use crate::fetch::fetch_next;
use crate::fetch::fetch_reply_possible;
use crate::fetch::fetch_wf;
use crate::fetch::FetchReply;
use crate::fetch::FetchReplyView;
use crate::fetch::FetchStep;
use crate::fetch::FetchStepView;
use crate::fetch::GitRefFetchArgs;
use crate::fetch::GitRefFetchArgsView;
use crate::list::cmd_git_ref_list;
use crate::list::list_next;
use crate::list::GitRefListArgs;
use crate::list::GitRefListArgsView;
use crate::list::ListReply;
use crate::list::ListReplyView;
use crate::list::ListStep;
use crate::list::ListStepView;
use crate::push::cmd_git_ref_push;
use crate::push::push_next;
use crate::push::push_reply_possible;
use crate::push::GitRefPushArgs;
use crate::push::GitRefPushArgsView;
use crate::push::PushReply;
use crate::push::PushReplyView;
use crate::push::PushStep;
use crate::push::PushStepView;

verus! {

/// A command on raw Git refs. The arguments `F` of `Forget` are handed on unread.
#[derive(Debug, PartialEq, Eq)]
pub enum RefCommand<F> {
    Fetch(GitRefFetchArgs),
    Forget(F),
    List(GitRefListArgs),
    Push(GitRefPushArgs),
}

/// [`RefCommand`] over the views of what it holds.
pub enum RefCommandView<F> {
    Fetch(GitRefFetchArgsView),
    Forget(F),
    List(GitRefListArgsView),
    Push(GitRefPushArgsView),
}

impl<F> View for RefCommand<F> {
    type V = RefCommandView<F>;

    open spec fn view(&self) -> RefCommandView<F> {
        match *self {
            RefCommand::Fetch(args) => RefCommandView::Fetch(args@),
            RefCommand::Forget(args) => RefCommandView::Forget(args),
            RefCommand::List(args) => RefCommandView::List(args@),
            RefCommand::Push(args) => RefCommandView::Push(args@),
        }
    }
}

/// The work that forgetting refs asks for next.
#[derive(Debug, PartialEq, Eq)]
pub enum ForgetStep<E> {
    /// Forget the refs that the arguments name.
    Run,
    /// Nothing more: the command has ended.
    Finished(Result<(), CommandError<E>>),
}

/// [`ForgetStep`] over the views of what it holds.
pub enum ForgetStepView<E> {
    Run,
    Finished(Result<(), CommandErrorView<E>>),
}

impl<E> View for ForgetStep<E> {
    type V = ForgetStepView<E>;

    open spec fn view(&self) -> ForgetStepView<E> {
        match *self {
            ForgetStep::Run => ForgetStepView::Run,
            ForgetStep::Finished(outcome) => ForgetStepView::Finished(outcome_view(outcome)),
        }
    }
}

/// The work that a command asks for next.
#[derive(Debug, PartialEq, Eq)]
pub enum RefStep<E> {
    Fetch(FetchStep<E>),
    Forget(ForgetStep<E>),
    List(ListStep<E>),
    Push(PushStep<E>),
}

/// [`RefStep`] over the views of what it holds.
pub enum RefStepView<E> {
    Fetch(FetchStepView<E>),
    Forget(ForgetStepView<E>),
    List(ListStepView<E>),
    Push(PushStepView<E>),
}

impl<E> View for RefStep<E> {
    type V = RefStepView<E>;

    open spec fn view(&self) -> RefStepView<E> {
        match *self {
            RefStep::Fetch(step) => RefStepView::Fetch(step@),
            RefStep::Forget(step) => RefStepView::Forget(step@),
            RefStep::List(step) => RefStepView::List(step@),
            RefStep::Push(step) => RefStepView::Push(step@),
        }
    }
}

/// What came of the work that a [`RefStep`] asked for.
#[derive(Debug, PartialEq, Eq)]
pub enum RefReply<E> {
    Fetch(FetchReply<E>),
    Forget(Result<(), E>),
    List(ListReply<E>),
    Push(PushReply<E>),
}

/// [`RefReply`] over the views of what it holds.
pub enum RefReplyView<E> {
    Fetch(FetchReplyView<E>),
    Forget(Result<(), E>),
    List(ListReplyView<E>),
    Push(PushReplyView<E>),
}

impl<E> View for RefReply<E> {
    type V = RefReplyView<E>;

    open spec fn view(&self) -> RefReplyView<E> {
        match *self {
            RefReply::Fetch(reply) => RefReplyView::Fetch(reply@),
            RefReply::Forget(reply) => RefReplyView::Forget(reply),
            RefReply::List(reply) => RefReplyView::List(reply@),
            RefReply::Push(reply) => RefReplyView::Push(reply@),
        }
    }
}

/// The first step of a command.
pub open spec fn first_step_view<F, E>(command: RefCommandView<F>) -> RefStepView<E> {
    match command {
        RefCommandView::Fetch(_) => RefStepView::Fetch(FetchStepView::OpenWorkspace),
        RefCommandView::Forget(_) => RefStepView::Forget(ForgetStepView::Run),
        RefCommandView::List(_) => RefStepView::List(ListStepView::OpenWorkspace),
        RefCommandView::Push(_) => RefStepView::Push(PushStepView::OpenWorkspace),
    }
}

/// Whether a step is one of the command, and its parts fit together.
pub open spec fn ref_wf<F, E>(command: RefCommandView<F>, step: RefStepView<E>) -> bool {
    match (command, step) {
        (RefCommandView::Fetch(args), RefStepView::Fetch(step)) => fetch_wf(args, step),
        (RefCommandView::Forget(_), RefStepView::Forget(_)) => true,
        (RefCommandView::List(_), RefStepView::List(_)) => true,
        (RefCommandView::Push(args), RefStepView::Push(_)) => args.safety_chosen(),
        _ => false,
    }
}

/// Whether a reply can come.
pub open spec fn ref_reply_possible<F, E>(
    command: RefCommandView<F>,
    reply: RefReplyView<E>,
) -> bool {
    match (command, reply) {
        (RefCommandView::Fetch(args), RefReplyView::Fetch(reply)) => fetch_reply_possible(
            args,
            reply,
        ),
        (_, RefReplyView::Push(reply)) => push_reply_possible(reply),
        _ => true,
    }
}

/// The step that follows `step` on `reply`: the next one of the command that both belong to.
/// A reply to another command leaves the step as it is.
pub open spec fn ref_next<F, E>(
    command: RefCommandView<F>,
    step: RefStepView<E>,
    reply: RefReplyView<E>,
) -> RefStepView<E> {
    match (command, step, reply) {
        (RefCommandView::Fetch(args), RefStepView::Fetch(step), RefReplyView::Fetch(reply)) =>
            RefStepView::Fetch(fetch_next(args, step, reply)),
        (
            RefCommandView::Forget(_),
            RefStepView::Forget(ForgetStepView::Run),
            RefReplyView::Forget(reply),
        ) => RefStepView::Forget(
            ForgetStepView::Finished(
                match reply {
                    Ok(_) => Ok(()),
                    Err(e) => Err(CommandErrorView::Outside(e)),
                },
            ),
        ),
        (RefCommandView::List(args), RefStepView::List(step), RefReplyView::List(reply)) =>
            RefStepView::List(list_next(args, step, reply)),
        (RefCommandView::Push(args), RefStepView::Push(step), RefReplyView::Push(reply)) =>
            RefStepView::Push(push_next(args, step, reply)),
        _ => step,
    }
}

/// The first step of a command.
pub fn first_step<F, E>(command: &RefCommand<F>) -> (step: RefStep<E>)
    ensures
        step@ == first_step_view::<F, E>(command@),
{
    match command {
        RefCommand::Fetch(_) => RefStep::Fetch(FetchStep::OpenWorkspace),
        RefCommand::Forget(_) => RefStep::Forget(ForgetStep::Run),
        RefCommand::List(_) => RefStep::List(ListStep::OpenWorkspace),
        RefCommand::Push(_) => RefStep::Push(PushStep::OpenWorkspace),
    }
}

/// Takes a command one step further. It starts with [`first_step`].
pub fn cmd_git_ref<F, E>(
    subcommand: &RefCommand<F>,
    step: RefStep<E>,
    reply: RefReply<E>,
) -> (next: RefStep<E>)
    requires
        ref_wf(subcommand@, step@),
        ref_reply_possible(subcommand@, reply@),
    ensures
        next@ == ref_next(subcommand@, step@, reply@),
        ref_wf(subcommand@, next@),
{
    match (subcommand, step, reply) {
        (RefCommand::Fetch(args), RefStep::Fetch(step), RefReply::Fetch(reply)) => RefStep::Fetch(
            cmd_git_ref_fetch(args, step, reply),
        ),
        (RefCommand::Forget(_), RefStep::Forget(ForgetStep::Run), RefReply::Forget(reply)) =>
            RefStep::Forget(
                ForgetStep::Finished(
                    match reply {
                        Ok(_) => Ok(()),
                        Err(e) => Err(CommandError::Outside(e)),
                    },
                ),
            ),
        (RefCommand::List(args), RefStep::List(step), RefReply::List(reply)) => RefStep::List(
            cmd_git_ref_list(args, step, reply),
        ),
        (RefCommand::Push(args), RefStep::Push(step), RefReply::Push(reply)) => RefStep::Push(
            cmd_git_ref_push(args, step, reply),
        ),
        (_, step, _) => step,
    }
}

/// A command that can be carried out starts with a step of its own.
pub proof fn law_first_step_fits<F, E>(command: RefCommandView<F>)
    requires
        command matches RefCommandView::Push(args) ==> args.safety_chosen(),
    ensures
        ref_wf(command, first_step_view::<F, E>(command)),
{
}

/// Each command goes its own steps, whatever is replied.
pub proof fn law_commands_stay_apart<F, E>(
    command: RefCommandView<F>,
    step: RefStepView<E>,
    reply: RefReplyView<E>,
)
    ensures
        ref_next(command, step, reply) is Fetch <==> step is Fetch,
        ref_next(command, step, reply) is Forget <==> step is Forget,
        ref_next(command, step, reply) is List <==> step is List,
        ref_next(command, step, reply) is Push <==> step is Push,
{
}

/// Each command starts with its own first step.
pub proof fn law_first_step<F, E>(command: RefCommandView<F>)
    ensures
        command is Fetch ==> first_step_view::<F, E>(command) == RefStepView::<E>::Fetch(
            FetchStepView::OpenWorkspace,
        ),
        command is Forget ==> first_step_view::<F, E>(command) == RefStepView::<E>::Forget(
            ForgetStepView::Run,
        ),
        command is List ==> first_step_view::<F, E>(command) == RefStepView::<E>::List(
            ListStepView::OpenWorkspace,
        ),
        command is Push ==> first_step_view::<F, E>(command) == RefStepView::<E>::Push(
            PushStepView::OpenWorkspace,
        ),
{
}

/// A step of a command goes on as the command does by itself, with the arguments and the reply
/// that it got.
pub proof fn law_commands_go_on_by_themselves<F, E>(
    forget: F,
    fetch: GitRefFetchArgsView,
    fetch_step: FetchStepView<E>,
    fetch_reply: FetchReplyView<E>,
    list: GitRefListArgsView,
    list_step: ListStepView<E>,
    list_reply: ListReplyView<E>,
    push: GitRefPushArgsView,
    push_step: PushStepView<E>,
    push_reply: PushReplyView<E>,
    e: E,
)
    ensures
        ref_next(
            RefCommandView::<F>::Fetch(fetch),
            RefStepView::Fetch(fetch_step),
            RefReplyView::Fetch(fetch_reply),
        ) == RefStepView::<E>::Fetch(fetch_next(fetch, fetch_step, fetch_reply)),
        ref_next(
            RefCommandView::<F>::List(list),
            RefStepView::List(list_step),
            RefReplyView::List(list_reply),
        ) == RefStepView::<E>::List(list_next(list, list_step, list_reply)),
        ref_next(
            RefCommandView::<F>::Push(push),
            RefStepView::Push(push_step),
            RefReplyView::Push(push_reply),
        ) == RefStepView::<E>::Push(push_next(push, push_step, push_reply)),
        ref_next(
            RefCommandView::Forget(forget),
            RefStepView::<E>::Forget(ForgetStepView::Run),
            RefReplyView::Forget(Ok(())),
        ) == RefStepView::<E>::Forget(ForgetStepView::Finished(Ok(()))),
        ref_next(
            RefCommandView::Forget(forget),
            RefStepView::<E>::Forget(ForgetStepView::Run),
            RefReplyView::Forget(Err(e)),
        ) == RefStepView::<E>::Forget(
            ForgetStepView::Finished(Err(CommandErrorView::Outside(e))),
        ),
{
}

/// A reply to another command, or to a command that has ended, changes nothing.
pub proof fn law_other_replies_change_nothing<F, E>(
    command: RefCommandView<F>,
    step: RefStepView<E>,
    reply: RefReplyView<E>,
)
    ensures
        command is Fetch && !(reply is Fetch) ==> ref_next(command, step, reply) == step,
        command is Forget && !(reply is Forget) ==> ref_next(command, step, reply) == step,
        command is List && !(reply is List) ==> ref_next(command, step, reply) == step,
        command is Push && !(reply is Push) ==> ref_next(command, step, reply) == step,
        (step matches RefStepView::Forget(ForgetStepView::Finished(_))) ==> ref_next(
            command,
            step,
            reply,
        ) == step,
        (step matches RefStepView::Push(PushStepView::Finished(_))) ==> ref_next(
            command,
            step,
            reply,
        ) == step,
        (step matches RefStepView::Fetch(FetchStepView::Finished(_))) ==> ref_next(
            command,
            step,
            reply,
        ) == step,
        (step matches RefStepView::List(ListStepView::Finished(_))) ==> ref_next(
            command,
            step,
            reply,
        ) == step,
{
}

/// What a command can be asked: every step of a listing and of forgetting, every step of a push
/// whose user has said what the remote ref may be, and every step of a fetch whose parts fit.
/// Only a fetch and a push narrow the replies that can come.
pub proof fn law_command_accepts<F, E>(
    forget: F,
    fetch: GitRefFetchArgsView,
    list: GitRefListArgsView,
    push: GitRefPushArgsView,
    forget_step: ForgetStepView<E>,
    fetch_step: FetchStepView<E>,
    list_step: ListStepView<E>,
    push_step: PushStepView<E>,
    command: RefCommandView<F>,
    reply: RefReplyView<E>,
)
    ensures
        ref_wf(RefCommandView::Forget(forget), RefStepView::Forget(forget_step)),
        ref_wf(RefCommandView::<F>::List(list), RefStepView::List(list_step)),
        ref_wf(RefCommandView::<F>::Push(push), RefStepView::Push(push_step)) <==> push.force
            || push.expected_at is Some || push.expected_absent,
        ref_wf(RefCommandView::<F>::Fetch(fetch), RefStepView::Fetch(fetch_step)) <==> fetch_wf(
            fetch,
            fetch_step,
        ),
        reply is List || reply is Forget ==> ref_reply_possible(command, reply),
        command matches RefCommandView::Fetch(args) ==> (reply matches RefReplyView::Fetch(
            fetch_reply,
        ) ==> (ref_reply_possible(command, reply) <==> fetch_reply_possible(args, fetch_reply))),
        reply matches RefReplyView::Push(push_reply) ==> (ref_reply_possible(command, reply)
            <==> push_reply_possible(push_reply)),
        !(command is Fetch) && reply is Fetch ==> ref_reply_possible(command, reply),
{
}

} // verus!
