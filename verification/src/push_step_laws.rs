//! What each step of a push comes to, said of the user's arguments and the reply alone.
//!
//! Every law here takes one step and all replies to it. Messages and status lines are written
//! out, and refs, commits and options are followed from the arguments to where they are used.

use vstd::prelude::*;

use crate::error::CommandErrorView;
use crate::names::NameView;
use crate::names::PieceView;
use crate::push::gix_full_name;
use crate::push::planned_update_view;
use crate::push::push_commit_view;
use crate::push::push_next;
use crate::push::push_outcome_view;
use crate::push::push_reply_possible;
use crate::push::push_to_remote_view;
use crate::push::GitRefPushArgsView;
use crate::push::GitRefUpdateView;
use crate::push::PushReplyView;
use crate::push::PushStatsView;
use crate::push::PushStepView;
use crate::text::hex;

verus! {

/// The user has said what the remote ref may be if one of the three ways to say so is taken,
/// and a commit other than the root has an ID of 20 or 32 bytes.
pub proof fn law_push_request<E>(args: GitRefPushArgsView, reply: PushReplyView<E>)
    ensures
        args.safety_chosen() <==> args.force || args.expected_at is Some || args.expected_absent,
        push_reply_possible(reply) <==> (reply matches PushReplyView::Commit { id, root } ==> id
            == root || id.len() == 20 || id.len() == 32),
{
}

/// A push opens the workspace and then looks for the Git repository.
pub proof fn law_push_opens<E>(args: GitRefPushArgsView, reply: PushReplyView<E>)
    ensures
        match reply {
            PushReplyView::Done => push_next(args, PushStepView::OpenWorkspace, reply) is FindBackend,
            PushReplyView::Failed(e) => push_next(args, PushStepView::OpenWorkspace, reply)
                == PushStepView::<E>::Finished(Err(CommandErrorView::Outside(e))),
            _ => push_next(args, PushStepView::OpenWorkspace, reply) is OpenWorkspace,
        },
{
}

/// The default remote is asked for if and only if the user names none.
pub proof fn law_push_takes_the_named_remote<E>(
    args: GitRefPushArgsView,
    reply: PushReplyView<E>,
)
    ensures
        match reply {
            PushReplyView::Done => match args.remote {
                Some(remote) => if "refs/"@.is_prefix_of(args.ref_name) && gix_full_name(
                    args.ref_name,
                ) {
                    push_next(args, PushStepView::FindBackend, reply)
                        == (PushStepView::<E>::ResolveRevision { remote, revision: args.revision })
                } else {
                    push_next(args, PushStepView::FindBackend, reply) == PushStepView::<E>::Finished(
                        Err(
                            CommandErrorView::User {
                                message: "Invalid fully qualified Git ref name: "@ + args.ref_name,
                                hint: None,
                            },
                        ),
                    )
                },
                None => push_next(args, PushStepView::FindBackend, reply) is DefaultRemote,
            },
            PushReplyView::Failed(e) => push_next(args, PushStepView::FindBackend, reply)
                == PushStepView::<E>::Finished(Err(CommandErrorView::Outside(e))),
            _ => push_next(args, PushStepView::FindBackend, reply) is FindBackend,
        },
{
}

/// The default remote that was replied is the one that is pushed to, and the destination has to
/// be a full ref name under `refs/` there too.
pub proof fn law_push_takes_the_default_remote<E>(
    args: GitRefPushArgsView,
    reply: PushReplyView<E>,
)
    ensures
        match reply {
            PushReplyView::Remote(remote) => if "refs/"@.is_prefix_of(args.ref_name)
                && gix_full_name(args.ref_name) {
                push_next(args, PushStepView::DefaultRemote, reply)
                    == (PushStepView::<E>::ResolveRevision { remote, revision: args.revision })
            } else {
                push_next(args, PushStepView::DefaultRemote, reply) == PushStepView::<E>::Finished(
                    Err(
                        CommandErrorView::User {
                            message: "Invalid fully qualified Git ref name: "@ + args.ref_name,
                            hint: None,
                        },
                    ),
                )
            },
            PushReplyView::Failed(e) => push_next(args, PushStepView::DefaultRemote, reply)
                == PushStepView::<E>::Finished(Err(CommandErrorView::Outside(e))),
            _ => push_next(args, PushStepView::DefaultRemote, reply) is DefaultRemote,
        },
{
}

/// A destination is refused if and only if it is not under `refs/` or not a full name, whatever
/// else the user asks for, and the refusal names it.
pub proof fn law_push_destination<E>(
    args: GitRefPushArgsView,
    remote: NameView,
    full_name: bool,
)
    ensures
        push_to_remote_view::<E>(args, remote, full_name) matches PushStepView::ResolveRevision {
            remote: to,
            revision,
        } ==> {
            &&& full_name
            &&& "refs/"@.is_prefix_of(args.ref_name)
            &&& to == remote
            &&& revision == args.revision
        },
        !full_name || !"refs/"@.is_prefix_of(args.ref_name) <==> push_to_remote_view::<E>(
            args,
            remote,
            full_name,
        ) == PushStepView::<E>::Finished(
            Err(
                CommandErrorView::User {
                    message: "Invalid fully qualified Git ref name: "@ + args.ref_name,
                    hint: None,
                },
            ),
        ),
        push_to_remote_view::<E>(args, remote, full_name) is ResolveRevision
            || push_to_remote_view::<E>(args, remote, full_name) is Finished,
{
}

/// The update names the user's ref and sets it to the commit that is pushed. It is forced if
/// and only if the user forces it, and else under a lease on exactly what the user expects.
pub proof fn law_update_names_the_users_ref(args: GitRefPushArgsView, commit: Seq<u8>)
    ensures
        match planned_update_view(args, commit) {
            GitRefUpdateView::Forced { name, new_target } => {
                &&& args.force
                &&& name == args.ref_name
                &&& new_target == commit
            },
            GitRefUpdateView::WithLease { name, expected, new_target } => {
                &&& !args.force
                &&& name == args.ref_name
                &&& expected == args.expected_at
                &&& new_target == commit
            },
        },
        planned_update_view(args, commit).target() == commit,
{
}

/// Where the update goes and whether it is forced has nothing to do with the remote, the
/// revision or the options: two requests that agree in the ref and in what is expected of it
/// plan the same update.
pub proof fn law_update_depends_on_ref_and_safety_alone(
    args: GitRefPushArgsView,
    other: GitRefPushArgsView,
    commit: Seq<u8>,
)
    requires
        args.ref_name == other.ref_name,
        args.force == other.force,
        args.expected_at == other.expected_at,
    ensures
        planned_update_view(args, commit) == planned_update_view(other, commit),
{
}

/// A commit goes on to be pushed if and only if it is not the root commit and an ID that the
/// user expects is of its kind; else the push ends with an error that says which of the two
/// failed. The settings are read for the remote that was asked, and for an update of the user's
/// ref to that very commit.
pub proof fn law_push_commit<E>(
    args: GitRefPushArgsView,
    remote: NameView,
    id: Seq<u8>,
    root: Seq<u8>,
)
    ensures
        id == root ==> push_commit_view::<E>(args, remote, id, root) == PushStepView::<E>::Finished(
            Err(
                CommandErrorView::User {
                    message: "Cannot push the root commit to Git"@,
                    hint: None,
                },
            ),
        ),
        id != root && (args.expected_at matches Some(expected) && expected.len() == 20 && id.len()
            == 32) ==> push_commit_view::<E>(args, remote, id, root) == PushStepView::<E>::Finished(
            Err(
                CommandErrorView::User {
                    message: "Git object ID for --expected-at uses "@ + "sha1"@
                        + ", but this repository uses "@ + "sha256"@,
                    hint: None,
                },
            ),
        ),
        id != root && (args.expected_at matches Some(expected) && expected.len() == 32 && id.len()
            == 20) ==> push_commit_view::<E>(args, remote, id, root) == PushStepView::<E>::Finished(
            Err(
                CommandErrorView::User {
                    message: "Git object ID for --expected-at uses "@ + "sha256"@
                        + ", but this repository uses "@ + "sha1"@,
                    hint: None,
                },
            ),
        ),
        id != root && (args.expected_at is None || args.expected_at->0.len() == id.len())
            ==> push_commit_view::<E>(args, remote, id, root) == (PushStepView::<E>::LoadSettings {
            remote,
            update: if args.force {
                GitRefUpdateView::Forced { name: args.ref_name, new_target: id }
            } else {
                GitRefUpdateView::WithLease {
                    name: args.ref_name,
                    expected: args.expected_at,
                    new_target: id,
                }
            },
        }),
{
}

/// What comes of resolving the revision depends on the commit alone, and on the remote only in
/// that the push goes there.
pub proof fn law_push_resolves<E>(
    args: GitRefPushArgsView,
    remote: NameView,
    revision: Seq<char>,
    reply: PushReplyView<E>,
)
    ensures
        match reply {
            PushReplyView::Commit { id, root } => push_next(
                args,
                PushStepView::ResolveRevision { remote, revision },
                reply,
            ) == push_commit_view::<E>(args, remote, id, root),
            PushReplyView::Failed(e) => push_next(
                args,
                PushStepView::ResolveRevision { remote, revision },
                reply,
            ) == PushStepView::<E>::Finished(Err(CommandErrorView::Outside(e))),
            _ => push_next(args, PushStepView::ResolveRevision { remote, revision }, reply) == (
            PushStepView::<E>::ResolveRevision { remote, revision }),
        },
{
}

/// What was planned is what is sent: the same remote and update, with the user's options.
pub proof fn law_push_sends_what_was_planned<E>(
    args: GitRefPushArgsView,
    remote: NameView,
    update: GitRefUpdateView,
    reply: PushReplyView<E>,
)
    ensures
        match reply {
            PushReplyView::Done => push_next(
                args,
                PushStepView::LoadSettings { remote, update },
                reply,
            ) == (PushStepView::<E>::Push { remote, update, options: args.option }),
            PushReplyView::Failed(e) => push_next(
                args,
                PushStepView::LoadSettings { remote, update },
                reply,
            ) == PushStepView::<E>::Finished(Err(CommandErrorView::Outside(e))),
            _ => push_next(args, PushStepView::LoadSettings { remote, update }, reply) == (
            PushStepView::<E>::LoadSettings { remote, update }),
        },
{
}

/// What the remote said of the push is printed as it came.
pub proof fn law_push_prints_what_was_said<E>(
    args: GitRefPushArgsView,
    remote: NameView,
    update: GitRefUpdateView,
    options: Seq<Seq<char>>,
    reply: PushReplyView<E>,
)
    ensures
        match reply {
            PushReplyView::Pushed(stats) => push_next(
                args,
                PushStepView::Push { remote, update, options },
                reply,
            ) == (PushStepView::<E>::PrintStats { remote, update, stats }),
            PushReplyView::Failed(e) => push_next(
                args,
                PushStepView::Push { remote, update, options },
                reply,
            ) == PushStepView::<E>::Finished(Err(CommandErrorView::Outside(e))),
            _ => push_next(args, PushStepView::Push { remote, update, options }, reply) == (
            PushStepView::<E>::Push { remote, update, options }),
        },
{
}

/// Once printed, what the remote said is judged by the commit that was sent, forced or not.
pub proof fn law_push_judges_what_was_said<E>(
    args: GitRefPushArgsView,
    remote: NameView,
    update: GitRefUpdateView,
    stats: PushStatsView,
    reply: PushReplyView<E>,
)
    ensures
        match reply {
            PushReplyView::Done => match update {
                GitRefUpdateView::Forced { name, new_target } => push_next(
                    args,
                    PushStepView::PrintStats { remote, update, stats },
                    reply,
                ) == push_outcome_view::<E>(args, remote, new_target, stats),
                GitRefUpdateView::WithLease { name, expected, new_target } => push_next(
                    args,
                    PushStepView::PrintStats { remote, update, stats },
                    reply,
                ) == push_outcome_view::<E>(args, remote, new_target, stats),
            },
            PushReplyView::Failed(e) => push_next(
                args,
                PushStepView::PrintStats { remote, update, stats },
                reply,
            ) == PushStepView::<E>::Finished(Err(CommandErrorView::Outside(e))),
            _ => push_next(args, PushStepView::PrintStats { remote, update, stats }, reply) == (
            PushStepView::<E>::PrintStats { remote, update, stats }),
        },
{
}

/// A ref that was rejected ends the push with an error that names the user's ref.
pub proof fn law_push_rejected<E>(
    args: GitRefPushArgsView,
    remote: NameView,
    new_target: Seq<u8>,
    stats: PushStatsView,
)
    requires
        !stats.all_ok,
    ensures
        push_outcome_view::<E>(args, remote, new_target, stats) == PushStepView::<E>::Finished(
            Err(
                CommandErrorView::User {
                    message: "Failed to push Git ref "@ + args.ref_name,
                    hint: None,
                },
            ),
        ),
{
}

/// A ref that moved is reported as pushed: the commit that was sent, to the user's ref on the
/// remote.
pub proof fn law_push_moved_the_ref<E>(
    args: GitRefPushArgsView,
    remote: NameView,
    new_target: Seq<u8>,
    stats: PushStatsView,
)
    requires
        stats.all_ok,
        forall|i: int| 0 <= i < stats.up_to_date.len() ==> stats.up_to_date[i] != args.ref_name,
    ensures
        push_outcome_view::<E>(args, remote, new_target, stats) == (PushStepView::<E>::WriteStatus {
            pieces: seq![
                PieceView::Text("Pushed "@),
                PieceView::Summary(new_target),
                PieceView::Text(
                    " to "@ + (args.ref_name + "@"@ + remote.symbol) + "\n"@,
                ),
            ],
        }),
{
}

/// A ref that was already at its new target is reported to be there if the push is forced or
/// the user expects it there; else the push ends with an error that tells where it is and what
/// was expected of it.
pub proof fn law_push_found_the_ref_there<E>(
    args: GitRefPushArgsView,
    remote: NameView,
    new_target: Seq<u8>,
    stats: PushStatsView,
    i: int,
)
    requires
        stats.all_ok,
        0 <= i < stats.up_to_date.len(),
        stats.up_to_date[i] == args.ref_name,
    ensures
        args.force || args.expected_at == Some(new_target) ==> push_outcome_view::<E>(
            args,
            remote,
            new_target,
            stats,
        ) == (PushStepView::<E>::WriteStatus {
            pieces: seq![
                PieceView::Text(
                    "Git ref "@ + (args.ref_name + "@"@ + remote.symbol) + " already points to "@,
                ),
                PieceView::Summary(new_target),
                PieceView::Text("\n"@),
            ],
        }),
        !args.force && args.expected_absent && args.expected_at != Some(new_target)
            ==> push_outcome_view::<E>(args, remote, new_target, stats)
            == PushStepView::<E>::Finished(
            Err(
                CommandErrorView::User {
                    message: "Git ref "@ + (args.ref_name + "@"@ + remote.symbol)
                        + " already points to "@ + hex(new_target) + ", but it was expected to "@
                        + "not exist"@,
                    hint: None,
                },
            ),
        ),
        !args.force && !args.expected_absent && (args.expected_at matches Some(expected) && expected
            != new_target) ==> push_outcome_view::<E>(args, remote, new_target, stats)
            == PushStepView::<E>::Finished(
            Err(
                CommandErrorView::User {
                    message: "Git ref "@ + (args.ref_name + "@"@ + remote.symbol)
                        + " already points to "@ + hex(new_target) + ", but it was expected to "@
                        + ("point to "@ + hex(args.expected_at->0)),
                    hint: None,
                },
            ),
        ),
{
    assert(stats.up_to_date.contains(args.ref_name));
}

/// With the status written the push has succeeded, and a push that has ended stays as it ended.
pub proof fn law_push_ends<E>(
    args: GitRefPushArgsView,
    pieces: Seq<PieceView>,
    outcome: Result<(), CommandErrorView<E>>,
    reply: PushReplyView<E>,
)
    ensures
        match reply {
            PushReplyView::Done => push_next(args, PushStepView::WriteStatus { pieces }, reply)
                == PushStepView::<E>::Finished(Ok(())),
            PushReplyView::Failed(e) => push_next(
                args,
                PushStepView::WriteStatus { pieces },
                reply,
            ) == PushStepView::<E>::Finished(Err(CommandErrorView::Outside(e))),
            _ => push_next(args, PushStepView::WriteStatus { pieces }, reply) == (PushStepView::<
                E,
            >::WriteStatus { pieces }),
        },
        push_next(args, PushStepView::Finished(outcome), reply) == PushStepView::<E>::Finished(
            outcome,
        ),
{
}

} // verus!
