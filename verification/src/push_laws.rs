//! What holds of every push.

use vstd::prelude::*;

use crate::error::CommandErrorView;
use crate::ids::hash_kind;
use crate::names::NameView;
use crate::names::PieceView;
use crate::push::gix_full_name;
use crate::push::planned_update_view;
use crate::push::push_answers;
use crate::push::push_next;
use crate::push::push_outcome_view;
use crate::push::GitRefPushArgsView;
use crate::push::GitRefUpdateView;
use crate::push::PushReplyView;
use crate::push::PushStatsView;
use crate::push::PushStepView;

verus! {

/// Where a push stands after `replies`.
pub open spec fn push_run<E>(
    args: GitRefPushArgsView,
    replies: Seq<PushReplyView<E>>,
) -> PushStepView<E>
    decreases replies.len(),
{
    if replies.len() == 0 {
        PushStepView::OpenWorkspace
    } else {
        push_next(args, push_run(args, replies.drop_last()), replies.last())
    }
}

/// A bound on the number of replies that a push still needs.
pub open spec fn push_rank<E>(step: PushStepView<E>) -> nat {
    match step {
        PushStepView::OpenWorkspace => 8,
        PushStepView::FindBackend => 7,
        PushStepView::DefaultRemote => 6,
        PushStepView::ResolveRevision { .. } => 5,
        PushStepView::LoadSettings { .. } => 4,
        PushStepView::Push { .. } => 3,
        PushStepView::PrintStats { .. } => 2,
        PushStepView::WriteStatus { .. } => 1,
        PushStepView::Finished(_) => 0,
    }
}

/// Every reply to the work that was asked for brings a push nearer to its end, any other reply
/// changes nothing, and only an ended push waits for no reply.
pub proof fn law_push_progress<E>(
    args: GitRefPushArgsView,
    step: PushStepView<E>,
    reply: PushReplyView<E>,
    e: E,
)
    ensures
        push_answers(step, reply) ==> push_rank(push_next(args, step, reply)) < push_rank(step),
        !push_answers(step, reply) ==> push_next(args, step, reply) == step,
        step is Finished <==> !push_answers(step, PushReplyView::Failed(e)),
{
}

/// A failure of the work that was asked for ends the push with that very failure.
pub proof fn law_push_failure_is_passed_on<E>(
    args: GitRefPushArgsView,
    step: PushStepView<E>,
    e: E,
)
    requires
        !(step is Finished),
    ensures
        push_next(args, step, PushReplyView::Failed(e)) == PushStepView::<E>::Finished(
            Err(CommandErrorView::Outside(e)),
        ),
{
}

/// A push never turns back: a later step has a lower rank, or is the same step.
pub proof fn law_push_never_turns_back<E>(
    args: GitRefPushArgsView,
    replies: Seq<PushReplyView<E>>,
    i: int,
    j: int,
)
    requires
        0 <= i <= j <= replies.len(),
    ensures
        push_rank(push_run(args, replies.take(j))) < push_rank(push_run(args, replies.take(i)))
            || push_run(args, replies.take(j)) == push_run(args, replies.take(i)),
    decreases j,
{
    if i < j {
        law_push_never_turns_back(args, replies, i, j - 1);
        assert(replies.take(j).drop_last() =~= replies.take(j - 1));
        let step = push_run(args, replies.take(j - 1));
        if push_answers(step, replies[j - 1]) {
            law_push_progress(args, step, replies[j - 1], arbitrary());
        }
    }
}

/// At most one push is sent: where a run asks for a push twice, it is the same request, with
/// no reply to it between.
pub proof fn law_push_is_sent_once<E>(
    args: GitRefPushArgsView,
    replies: Seq<PushReplyView<E>>,
    i: int,
    j: int,
)
    requires
        0 <= i <= j <= replies.len(),
        push_run(args, replies.take(i)) is Push,
        push_run(args, replies.take(j)) is Push,
    ensures
        push_run(args, replies.take(i)) == push_run(args, replies.take(j)),
        forall|k: int|
            i <= k < j ==> !push_answers(push_run(args, replies.take(k)), #[trigger] replies[k]),
{
    law_push_never_turns_back(args, replies, i, j);
    assert forall|k: int| i <= k < j implies !push_answers(
        push_run(args, replies.take(k)),
        #[trigger] replies[k],
    ) by {
        law_push_never_turns_back(args, replies, i, k);
        law_push_never_turns_back(args, replies, k + 1, j);
        assert(replies.take(k + 1).drop_last() =~= replies.take(k));
        law_push_progress(args, push_run(args, replies.take(k)), replies[k], arbitrary());
    }
}

/// Whether the destination is a full ref name under `refs/`.
pub open spec fn destination_ok(args: GitRefPushArgsView) -> bool {
    "refs/"@.is_prefix_of(args.ref_name) && gix_full_name(args.ref_name)
}

/// Whether `remote` was replied to the question for the default remote, at `k`.
pub open spec fn replied_remote<E>(
    args: GitRefPushArgsView,
    replies: Seq<PushReplyView<E>>,
    k: int,
    remote: NameView,
) -> bool {
    &&& 0 <= k < replies.len()
    &&& push_run(args, replies.take(k)) is DefaultRemote
    &&& replies[k] == PushReplyView::<E>::Remote(remote)
}

/// Whether the revision was resolved to `id`, with `root` as the root commit, at `k`.
pub open spec fn replied_commit<E>(
    args: GitRefPushArgsView,
    replies: Seq<PushReplyView<E>>,
    k: int,
    id: Seq<u8>,
    root: Seq<u8>,
) -> bool {
    &&& 0 <= k < replies.len()
    &&& push_run(args, replies.take(k)) is ResolveRevision
    &&& replies[k] == PushReplyView::<E>::Commit { id, root }
}

/// Whether `remote` is the one that the user names, or else the default one that was replied.
pub open spec fn remote_ok<E>(
    args: GitRefPushArgsView,
    replies: Seq<PushReplyView<E>>,
    remote: NameView,
) -> bool {
    match args.remote {
        Some(named) => remote == named,
        None => exists|k: int| replied_remote(args, replies, k, remote),
    }
}

/// Whether the revision was resolved to `id`, which is not the root commit and is of the kind
/// of the ID that the user expects.
pub open spec fn commit_ok<E>(
    args: GitRefPushArgsView,
    replies: Seq<PushReplyView<E>>,
    id: Seq<u8>,
) -> bool {
    &&& exists|k: int, root: Seq<u8>| #[trigger] replied_commit(args, replies, k, id, root) && root != id
    &&& args.expected_at is Some ==> hash_kind(args.expected_at->0) == hash_kind(id)
}

/// Whether `update` is the one that the user asks for, of a commit that may be pushed.
pub open spec fn update_ok<E>(
    args: GitRefPushArgsView,
    replies: Seq<PushReplyView<E>>,
    remote: NameView,
    update: GitRefUpdateView,
) -> bool {
    &&& destination_ok(args)
    &&& remote_ok(args, replies, remote)
    &&& commit_ok(args, replies, update.target())
    &&& match update {
        GitRefUpdateView::Forced { name, new_target: _ } => args.force && name == args.ref_name,
        GitRefUpdateView::WithLease { name, expected, new_target: _ } => !args.force && name
            == args.ref_name && expected == args.expected_at,
    }
}

spec fn push_inv<E>(
    args: GitRefPushArgsView,
    replies: Seq<PushReplyView<E>>,
    step: PushStepView<E>,
) -> bool {
    match step {
        PushStepView::DefaultRemote => args.remote is None,
        PushStepView::ResolveRevision { remote, revision } => destination_ok(args) && remote_ok(
            args,
            replies,
            remote,
        ) && revision == args.revision,
        PushStepView::LoadSettings { remote, update } => update_ok(args, replies, remote, update),
        PushStepView::Push { remote, update, options } => update_ok(args, replies, remote, update)
            && options == args.option,
        PushStepView::PrintStats { remote, update, stats: _ } => update_ok(
            args,
            replies,
            remote,
            update,
        ),
        PushStepView::WriteStatus { pieces } => pieces.len() == 3 && (pieces[1] matches
            PieceView::Summary(commit) && commit_ok(args, replies, commit)),
        _ => true,
    }
}

proof fn lemma_push_inv<E>(args: GitRefPushArgsView, replies: Seq<PushReplyView<E>>)
    ensures
        push_inv(args, replies, push_run(args, replies)),
    decreases replies.len(),
{
    if replies.len() > 0 {
        let before = replies.drop_last();
        let reply = replies.last();
        lemma_push_inv(args, before);
        let last = replies.len() - 1;
        assert(replies.take(last) =~= before);
        assert forall|k: int| 0 <= k < before.len() implies #[trigger] before.take(k)
            == replies.take(k) && before[k] == replies[k] by {
            assert(before.take(k) =~= replies.take(k));
        }
        assert forall|remote: NameView| remote_ok(args, before, remote) implies remote_ok(
            args,
            replies,
            remote,
        ) by {
            if args.remote is None {
                let k = choose|k: int| replied_remote(args, before, k, remote);
                assert(before.take(k) == replies.take(k));
                assert(replied_remote(args, replies, k, remote));
            }
        }
        assert forall|id: Seq<u8>| commit_ok(args, before, id) implies commit_ok(args, replies, id) by {
            let (k, root) = choose|k: int, root: Seq<u8>|
                #[trigger] replied_commit(args, before, k, id, root) && root != id;
            assert(before.take(k) == replies.take(k));
            assert(replied_commit(args, replies, k, id, root));
        }
        match (push_run(args, before), reply) {
            (PushStepView::DefaultRemote, PushReplyView::Remote(remote)) => {
                assert(replied_remote(args, replies, last, remote));
            },
            (PushStepView::ResolveRevision { .. }, PushReplyView::Commit { id, root }) => {
                assert(replied_commit(args, replies, last, id, root));
            },
            _ => {},
        }
    }
}

/// A push is sent only to a full ref name under `refs/`, on the remote that the user names or
/// else the default one, with the user's options. It sends the commit that the revision was
/// resolved to, never the root commit. It is forced if the user says so, and else under a
/// lease on what the user expects, which is an ID of the repository's kind.
pub proof fn law_push_is_checked<E>(args: GitRefPushArgsView, replies: Seq<PushReplyView<E>>)
    ensures
        push_run(args, replies) matches PushStepView::Push { remote, update, options } ==> {
            &&& update_ok(args, replies, remote, update)
            &&& options == args.option
        },
        push_run(args, replies) matches PushStepView::ResolveRevision { remote: _, revision }
            ==> revision == args.revision,
{
    lemma_push_inv(args, replies);
}

/// Whether the user's revision was resolved at `k` to the commit `id`, which is not the root
/// commit.
pub open spec fn resolved_at<E>(
    args: GitRefPushArgsView,
    replies: Seq<PushReplyView<E>>,
    k: int,
    id: Seq<u8>,
) -> bool {
    &&& 0 <= k < replies.len()
    &&& push_run(args, replies.take(k)) matches PushStepView::ResolveRevision {
        remote: _,
        revision,
    } && revision == args.revision
    &&& replies[k] matches PushReplyView::Commit { id: replied, root } && replied == id && root
        != id
}

/// Whether the user's revision was resolved to the commit `id`, which is not the root commit.
pub open spec fn was_resolved<E>(
    args: GitRefPushArgsView,
    replies: Seq<PushReplyView<E>>,
    id: Seq<u8>,
) -> bool {
    exists|k: int| resolved_at(args, replies, k, id)
}

proof fn lemma_resolved<E>(
    args: GitRefPushArgsView,
    replies: Seq<PushReplyView<E>>,
    id: Seq<u8>,
)
    requires
        commit_ok(args, replies, id),
    ensures
        was_resolved(args, replies, id),
{
    let (k, root) = choose|k: int, root: Seq<u8>| #[trigger]
        replied_commit(args, replies, k, id, root) && root != id;
    lemma_push_inv(args, replies.take(k));
    assert(resolved_at(args, replies, k, id));
}

/// Whatever else the user asks for, the update of every push that is sent names the user's ref
/// and sets it to the commit that the revision was resolved to. Under `force` it is that update
/// without a check, and else the one under a lease on what the user expects.
pub proof fn law_push_sends_the_users_ref<E>(
    args: GitRefPushArgsView,
    replies: Seq<PushReplyView<E>>,
)
    ensures
        push_run(args, replies) matches PushStepView::Push { remote: _, update, options } ==> {
            &&& match update {
                GitRefUpdateView::Forced { name, new_target } => name == args.ref_name
                    && was_resolved(args, replies, new_target),
                GitRefUpdateView::WithLease { name, expected, new_target } => name
                    == args.ref_name && expected == args.expected_at && was_resolved(
                    args,
                    replies,
                    new_target,
                ),
            }
            &&& update is Forced <==> args.force
            &&& options.len() == args.option.len()
            &&& forall|i: int| 0 <= i < options.len() ==> options[i] == args.option[i]
        },
        push_run(args, replies) matches PushStepView::PrintStats { remote: _, update, stats: _ }
            ==> match update {
            GitRefUpdateView::Forced { name, new_target } => args.force && name == args.ref_name
                && was_resolved(args, replies, new_target),
            GitRefUpdateView::WithLease { name, expected, new_target } => !args.force && name
                == args.ref_name && expected == args.expected_at && was_resolved(
                args,
                replies,
                new_target,
            ),
        },
{
    lemma_push_inv(args, replies);
    match push_run(args, replies) {
        PushStepView::Push { remote: _, update, options: _ } => {
            lemma_resolved(args, replies, update.target());
        },
        PushStepView::PrintStats { remote: _, update, stats: _ } => {
            lemma_resolved(args, replies, update.target());
        },
        _ => {},
    }
}

/// The status line of a push is about the commit that the revision was resolved to.
pub proof fn law_push_status<E>(args: GitRefPushArgsView, replies: Seq<PushReplyView<E>>)
    ensures
        push_run(args, replies) matches PushStepView::WriteStatus { pieces } ==> {
            &&& pieces.len() == 3
            &&& pieces[0] is Text
            &&& pieces[1] matches PieceView::Summary(commit) && commit_ok(args, replies, commit)
            &&& pieces[2] is Text
        },
{
    lemma_push_inv(args, replies);
    lemma_status_texts(args, replies);
}

proof fn lemma_status_texts<E>(args: GitRefPushArgsView, replies: Seq<PushReplyView<E>>)
    ensures
        push_run(args, replies) matches PushStepView::WriteStatus { pieces } ==> pieces[0] is Text
            && pieces[2] is Text,
    decreases replies.len(),
{
    if replies.len() > 0 {
        lemma_status_texts(args, replies.drop_last());
    }
}

/// Of the three ways to say what the remote ref may be, each gives its own update: `force` one
/// without a check, `expected_absent` a lease on there being no ref, and `expected_at` a lease
/// on that object.
pub proof fn law_push_safety(args: GitRefPushArgsView, new_target: Seq<u8>)
    requires
        args.safety_chosen(),
        args.expected_absent ==> !args.force && args.expected_at is None,
        args.expected_at is Some ==> !args.force,
    ensures
        planned_update_view(args, new_target) is Forced <==> args.force,
        planned_update_view(args, new_target) == (GitRefUpdateView::WithLease {
            name: args.ref_name,
            expected: None,
            new_target,
        }) <==> args.expected_absent,
        forall|id: Seq<u8>|
            planned_update_view(args, new_target) == (GitRefUpdateView::WithLease {
                name: args.ref_name,
                expected: Some(id),
                new_target,
            }) <==> args.expected_at == Some(id),
{
}

/// A push whose ref was already at the new target is accepted if and only if it is forced or
/// the user expects the ref there; a push that was rejected never is.
pub proof fn law_push_outcome<E>(
    args: GitRefPushArgsView,
    remote: NameView,
    new_target: Seq<u8>,
    stats: PushStatsView,
)
    ensures
        push_outcome_view::<E>(args, remote, new_target, stats) is WriteStatus <==> stats.all_ok
            && (stats.up_to_date.contains(args.ref_name) ==> args.force || args.expected_at
            == Some(new_target)),
        !(push_outcome_view::<E>(args, remote, new_target, stats) is WriteStatus)
            ==> push_outcome_view::<E>(args, remote, new_target, stats) matches
            PushStepView::Finished(Err(CommandErrorView::User { .. })),
{
}

/// A push that expects no ref succeeds only by creating it.
pub proof fn law_push_expecting_absence<E>(
    args: GitRefPushArgsView,
    remote: NameView,
    new_target: Seq<u8>,
    stats: PushStatsView,
)
    requires
        args.expected_absent,
        !args.force,
        args.expected_at is None,
    ensures
        push_outcome_view::<E>(args, remote, new_target, stats) is WriteStatus ==> stats.all_ok
            && !stats.up_to_date.contains(args.ref_name),
{
}

/// Whether the remote accepted the push at the reply `k`.
pub open spec fn push_accepted<E>(
    args: GitRefPushArgsView,
    replies: Seq<PushReplyView<E>>,
    k: int,
) -> bool {
    &&& 0 <= k < replies.len()
    &&& push_run(args, replies.take(k)) is Push
    &&& replies[k] matches PushReplyView::Pushed(stats) && stats.all_ok && (
    stats.up_to_date.contains(args.ref_name) ==> args.force || args.expected_at == Some(
        push_run(args, replies.take(k))->Push_update.target(),
    ))
}

spec fn accepted_before<E>(
    args: GitRefPushArgsView,
    replies: Seq<PushReplyView<E>>,
) -> bool {
    exists|k: int| push_accepted(args, replies, k)
}

spec fn success_inv<E>(
    args: GitRefPushArgsView,
    replies: Seq<PushReplyView<E>>,
    step: PushStepView<E>,
) -> bool {
    match step {
        PushStepView::PrintStats { remote: _, update, stats } => exists|k: int|
            0 <= k < replies.len() && push_run(args, replies.take(k)) is Push && push_run(
                args,
                replies.take(k),
            )->Push_update == update && #[trigger] replies[k] == PushReplyView::<E>::Pushed(stats),
        PushStepView::WriteStatus { .. } => accepted_before(args, replies),
        PushStepView::Finished(Ok(_)) => accepted_before(args, replies),
        _ => true,
    }
}

proof fn lemma_success_inv<E>(args: GitRefPushArgsView, replies: Seq<PushReplyView<E>>)
    ensures
        success_inv(args, replies, push_run(args, replies)),
    decreases replies.len(),
{
    if replies.len() > 0 {
        let before = replies.drop_last();
        let last = replies.len() - 1;
        let step = push_run(args, before);
        lemma_success_inv(args, before);
        assert(replies.take(last) =~= before);
        assert forall|k: int| 0 <= k < before.len() implies #[trigger] before.take(k)
            == replies.take(k) && before[k] == replies[k] by {
            assert(before.take(k) =~= replies.take(k));
        }
        if accepted_before(args, before) {
            let k = choose|k: int| push_accepted(args, before, k);
            assert(before.take(k) == replies.take(k));
            assert(push_accepted(args, replies, k));
        }
        match step {
            PushStepView::Push { .. } => {
                assert(replies[last] == replies.last());
            },
            PushStepView::PrintStats { remote, update, stats } => {
                let k = choose|k: int|
                    0 <= k < before.len() && push_run(args, before.take(k)) is Push && push_run(
                        args,
                        before.take(k),
                    )->Push_update == update && #[trigger] before[k] == PushReplyView::<E>::Pushed(
                        stats,
                    );
                assert(before.take(k) == replies.take(k));
                assert(replies[k] == PushReplyView::<E>::Pushed(stats));
                if push_run(args, replies) is WriteStatus {
                    assert(push_accepted(args, replies, k));
                }
            },
            _ => {},
        }
    }
}

/// Success is reported only if the remote accepted the push: it rejected nothing, and if the
/// ref was already at its new target, the push was forced or the user expects the ref there.
pub proof fn law_push_success<E>(args: GitRefPushArgsView, replies: Seq<PushReplyView<E>>)
    requires
        push_run(args, replies) == PushStepView::<E>::Finished(Ok(())),
    ensures
        exists|k: int| push_accepted(args, replies, k),
{
    lemma_success_inv(args, replies);
}

/// Whether work that was asked for failed with `e` at `k`.
pub open spec fn failed_at<E>(
    args: GitRefPushArgsView,
    replies: Seq<PushReplyView<E>>,
    k: int,
    e: E,
) -> bool {
    &&& 0 <= k < replies.len()
    &&& push_answers(push_run(args, replies.take(k)), replies[k])
    &&& replies[k] == PushReplyView::<E>::Failed(e)
}

/// Whether work that was asked for failed with `e`.
pub open spec fn work_failed<E>(
    args: GitRefPushArgsView,
    replies: Seq<PushReplyView<E>>,
    e: E,
) -> bool {
    exists|k: int| failed_at(args, replies, k, e)
}

/// Whether the revision was resolved at `k` to a commit that may not be pushed: the root, or
/// one whose ID is of another kind than the one that the user expects.
pub open spec fn commit_refused_at<E>(
    args: GitRefPushArgsView,
    replies: Seq<PushReplyView<E>>,
    k: int,
) -> bool {
    &&& 0 <= k < replies.len()
    &&& push_run(args, replies.take(k)) is ResolveRevision
    &&& replies[k] matches PushReplyView::Commit { id, root } && (id == root || (
    args.expected_at is Some && hash_kind(args.expected_at->0) != hash_kind(id)))
}

/// Whether the remote answered the push at `k`, and what it said is not good enough.
pub open spec fn push_refused_at<E>(
    args: GitRefPushArgsView,
    replies: Seq<PushReplyView<E>>,
    k: int,
) -> bool {
    &&& 0 <= k < replies.len()
    &&& push_run(args, replies.take(k)) is Push
    &&& replies[k] is Pushed
    &&& !push_accepted(args, replies, k)
}

/// Whether the request cannot be met as it stands.
pub open spec fn request_at_fault<E>(
    args: GitRefPushArgsView,
    replies: Seq<PushReplyView<E>>,
) -> bool {
    ||| !destination_ok(args)
    ||| exists|k: int| commit_refused_at(args, replies, k)
    ||| exists|k: int| push_refused_at(args, replies, k)
}

/// Whether there is a reason for a push to end with `error`.
pub open spec fn has_reason<E>(
    args: GitRefPushArgsView,
    replies: Seq<PushReplyView<E>>,
    error: CommandErrorView<E>,
) -> bool {
    match error {
        CommandErrorView::Outside(e) => work_failed(args, replies, e),
        CommandErrorView::User { .. } => request_at_fault(args, replies),
    }
}

proof fn lemma_reason_stays<E>(
    args: GitRefPushArgsView,
    replies: Seq<PushReplyView<E>>,
    error: CommandErrorView<E>,
)
    requires
        replies.len() > 0,
        has_reason(args, replies.drop_last(), error),
    ensures
        has_reason(args, replies, error),
{
    let before = replies.drop_last();
    assert forall|k: int| 0 <= k < before.len() implies #[trigger] before.take(k) == replies.take(k)
        && before[k] == replies[k] by {
        assert(before.take(k) =~= replies.take(k));
    }
    match error {
        CommandErrorView::Outside(e) => {
            let k = choose|k: int| failed_at(args, before, k, e);
            assert(before.take(k) == replies.take(k));
            assert(failed_at(args, replies, k, e));
        },
        CommandErrorView::User { .. } => {
            if exists|k: int| commit_refused_at(args, before, k) {
                let k = choose|k: int| commit_refused_at(args, before, k);
                assert(before.take(k) == replies.take(k));
                assert(commit_refused_at(args, replies, k));
            }
            if exists|k: int| push_refused_at(args, before, k) {
                let k = choose|k: int| push_refused_at(args, before, k);
                assert(before.take(k) == replies.take(k));
                assert(push_refused_at(args, replies, k));
            }
        },
    }
}

/// A push fails for a reason alone: work that it asked for failed, and then the error is that
/// failure; or the request cannot be met as it stands: the destination is no full ref name
/// under `refs/`, the commit may not be pushed, or the remote did not accept the push.
pub proof fn law_push_fails_for_a_reason<E>(
    args: GitRefPushArgsView,
    replies: Seq<PushReplyView<E>>,
)
    ensures
        push_run(args, replies) matches PushStepView::Finished(Err(error)) ==> has_reason(
            args,
            replies,
            error,
        ),
    decreases replies.len(),
{
    if replies.len() > 0 {
        let before = replies.drop_last();
        let reply = replies.last();
        let last = replies.len() - 1;
        law_push_fails_for_a_reason(args, before);
        assert(replies.take(last) =~= before);
        let step = push_run(args, before);
        if let PushStepView::Finished(Err(error)) = step {
            lemma_reason_stays(args, replies, error);
        }
        if push_answers(step, reply) {
            if let PushReplyView::Failed(e) = reply {
                assert(failed_at(args, replies, last, e));
                assert(work_failed(args, replies, e));
            }
            if step is ResolveRevision && push_run(args, replies) is Finished && reply is Commit {
                assert(commit_refused_at(args, replies, last));
            }
            if let PushStepView::PrintStats { remote: _, update, stats } = step {
                lemma_success_inv(args, before);
                let k = choose|k: int|
                    0 <= k < before.len() && push_run(args, before.take(k)) is Push && push_run(
                        args,
                        before.take(k),
                    )->Push_update == update && #[trigger] before[k] == PushReplyView::<E>::Pushed(
                        stats,
                    );
                assert(before.take(k) =~= replies.take(k));
                assert(replies[k] == before[k]);
                if push_run(args, replies) is Finished && reply is Done {
                    assert(push_refused_at(args, replies, k));
                }
            }
        }
    }
}

/// A push that has ended, in which no work failed and whose request is not at fault, has
/// succeeded.
pub proof fn law_push_without_fault_succeeds<E>(
    args: GitRefPushArgsView,
    replies: Seq<PushReplyView<E>>,
)
    requires
        push_run(args, replies) is Finished,
        forall|e: E| !work_failed(args, replies, e),
        !request_at_fault(args, replies),
    ensures
        push_run(args, replies)->Finished_0 is Ok,
{
    law_push_fails_for_a_reason(args, replies);
}

} // verus!
