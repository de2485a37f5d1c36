//! What holds of every fetch.

use vstd::prelude::*;

use crate::error::CommandErrorView;
use crate::fetch::bookmark_may_move;
use crate::fetch::default_fetch_remote_view;
use crate::fetch::fetch_answers;
use crate::fetch::fetch_next;
use crate::fetch::fetch_reply_possible;
use crate::fetch::fetch_tx;
use crate::fetch::fetch_wf;
use crate::fetch::fetched_ref_updates;
use crate::fetch::finish_view;
use crate::fetch::in_transaction;
use crate::fetch::matching_remotes;
use crate::fetch::with_commit_view;
use crate::fetch::FetchReplyView;
use crate::fetch::FetchStepView;
use crate::fetch::FetchTxView;
use crate::fetch::GitRefFetchArgsView;
use crate::fetch::RemoteCandidateView;
use crate::names::NameView;
use crate::target::law_normal_target;
use crate::target::normal_target;

verus! {

/// Where a fetch stands after `replies`.
pub open spec fn fetch_run<E>(
    args: GitRefFetchArgsView,
    replies: Seq<FetchReplyView<E>>,
) -> FetchStepView<E>
    decreases replies.len(),
{
    if replies.len() == 0 {
        FetchStepView::OpenWorkspace
    } else {
        fetch_next(args, fetch_run(args, replies.drop_last()), replies.last())
    }
}

/// Whether all replies can come.
pub open spec fn all_possible<E>(
    args: GitRefFetchArgsView,
    replies: Seq<FetchReplyView<E>>,
) -> bool {
    forall|i: int| 0 <= i < replies.len() ==> fetch_reply_possible(args, #[trigger] replies[i])
}

/// A bound on the number of replies that a fetch still needs: two for each commit to import,
/// and a fixed number for the rest.
pub open spec fn fetch_rank<E>(args: GitRefFetchArgsView, step: FetchStepView<E>) -> int {
    let before: int = 2 * args.sources.len() as int;
    match step {
        FetchStepView::OpenWorkspace => before + 16,
        FetchStepView::DefaultRemotes => before + 15,
        FetchStepView::ListRemotes => before + 14,
        FetchStepView::FindBackend { .. } => before + 13,
        FetchStepView::ReadDepth { .. } => before + 12,
        FetchStepView::LoadSettings { .. } => before + 11,
        FetchStepView::Fetch { .. } => before + 10,
        FetchStepView::Import { tx, id: _ } => 9 + 2 * (tx.count(args) - tx.commits.len()),
        FetchStepView::ReportFetched { tx, pieces: _ } => 10 + 2 * (tx.count(args)
            - tx.commits.len()),
        FetchStepView::RecordRefs { .. } => 9,
        FetchStepView::ReadBookmark { .. } => 8,
        FetchStepView::SetBookmark { .. } => 7,
        FetchStepView::CheckRewritable { .. } => 6,
        FetchStepView::MergeTrees { .. } => 6,
        FetchStepView::CreateCommit { .. } => 5,
        FetchStepView::Edit { .. } => 4,
        FetchStepView::ReportCreated { .. } => 3,
        FetchStepView::Finish { .. } => 2,
        FetchStepView::ReinitIndex { .. } => 1,
        FetchStepView::Finished(_) => 0,
    }
}

/// The parts of every step of a run fit together.
pub proof fn law_fetch_steps_fit<E>(args: GitRefFetchArgsView, replies: Seq<FetchReplyView<E>>)
    requires
        all_possible(args, replies),
    ensures
        fetch_wf(args, fetch_run(args, replies)),
    decreases replies.len(),
{
    if replies.len() > 0 {
        let before = replies.drop_last();
        assert forall|i: int| 0 <= i < before.len() implies fetch_reply_possible(
            args,
            #[trigger] before[i],
        ) by {
            assert(before[i] == replies[i]);
        }
        law_fetch_steps_fit(args, before);
        assert(fetch_reply_possible(args, replies[replies.len() - 1]));
    }
}

/// Every reply to the work that was asked for brings a fetch nearer to its end, and any other
/// reply changes nothing.
pub proof fn law_fetch_progress<E>(
    args: GitRefFetchArgsView,
    step: FetchStepView<E>,
    reply: FetchReplyView<E>,
)
    requires
        fetch_wf(args, step),
        fetch_reply_possible(args, reply),
    ensures
        0 <= fetch_rank(args, fetch_next(args, step, reply)),
        fetch_answers(step, reply) ==> fetch_rank(args, fetch_next(args, step, reply))
            < fetch_rank(args, step),
        !fetch_answers(step, reply) ==> fetch_next(args, step, reply) == step,
{
}

/// Only a fetch that has ended waits for no reply.
pub proof fn law_fetch_waits_until_its_end<E>(step: FetchStepView<E>)
    ensures
        step is Finished <==> forall|reply: FetchReplyView<E>| !fetch_answers(step, reply),
{
    if !(step is Finished) {
        let done = FetchReplyView::<E>::Done;
        let remotes = FetchReplyView::<E>::Remotes(Seq::empty());
        let backend = FetchReplyView::<E>::Backend { is_shallow: false };
        let depth = FetchReplyView::<E>::Depth(None);
        let fetched = FetchReplyView::<E>::Fetched { ids: Ok(Seq::empty()), boundary_changed: false };
        let commit = FetchReplyView::<E>::Commit(Seq::empty());
        let bookmark = FetchReplyView::<E>::Bookmark(Seq::empty());
        assert(fetch_answers(step, done) || fetch_answers(step, remotes) || fetch_answers(
            step,
            backend,
        ) || fetch_answers(step, depth) || fetch_answers(step, fetched) || fetch_answers(
            step,
            commit,
        ) || fetch_answers(step, bookmark));
    }
}

/// A transaction that was started is left by way of the index alone: whatever is replied
/// within it, the next step is within it too or sees to the index, and after that the fetch
/// ends. Once something was fetched, the index is told what the fetch told of the boundary.
pub proof fn law_fetch_leaves_by_the_index<E>(
    args: GitRefFetchArgsView,
    step: FetchStepView<E>,
    reply: FetchReplyView<E>,
)
    requires
        fetch_answers(step, reply),
    ensures
        in_transaction(step) ==> in_transaction(fetch_next(args, step, reply)) || fetch_next(
            args,
            step,
            reply,
        ) is ReinitIndex,
        fetch_next(args, step, reply) is ReinitIndex ==> in_transaction(step),
        step is ReinitIndex ==> fetch_next(args, step, reply) is Finished,
        fetch_tx(step) matches Some(tx) ==> (fetch_next(args, step, reply) matches
            FetchStepView::ReinitIndex { boundary_changed, .. } ==> boundary_changed
            == tx.boundary_changed),
{
}

/// An error of the transaction is what the fetch ends with, whatever comes of the index; an
/// error of the index is what it ends with if the transaction went well.
pub proof fn law_first_error_wins<E>(
    args: GitRefFetchArgsView,
    boundary_changed: bool,
    outcome: Result<(), CommandErrorView<E>>,
    reply: FetchReplyView<E>,
)
    requires
        reply is Done || reply is Failed,
    ensures
        fetch_next(args, FetchStepView::ReinitIndex { boundary_changed, outcome }, reply)
            == FetchStepView::Finished(
            match outcome {
                Err(first) => Err(first),
                Ok(_) => match reply {
                    FetchReplyView::Failed(e) => Err(CommandErrorView::Outside(e)),
                    _ => outcome,
                },
            },
        ),
{
}

/// Whether the fetch was answered at `k`.
pub open spec fn fetched_at<E>(
    args: GitRefFetchArgsView,
    replies: Seq<FetchReplyView<E>>,
    k: int,
) -> bool {
    &&& 0 <= k < replies.len()
    &&& fetch_run(args, replies.take(k)) is Fetch
    &&& replies[k] is Fetched
}

/// Whether the Git repository was found at `k`, and whether it was shallow.
pub open spec fn backend_at<E>(
    args: GitRefFetchArgsView,
    replies: Seq<FetchReplyView<E>>,
    k: int,
    is_shallow: bool,
) -> bool {
    &&& 0 <= k < replies.len()
    &&& fetch_run(args, replies.take(k)) is FindBackend
    &&& replies[k] == (FetchReplyView::<E>::Backend { is_shallow })
}

/// Whether `step` was done at `k`.
pub open spec fn done_at<E>(
    args: GitRefFetchArgsView,
    replies: Seq<FetchReplyView<E>>,
    k: int,
    step: FetchStepView<E>,
) -> bool {
    &&& 0 <= k < replies.len()
    &&& fetch_run(args, replies.take(k)) == step
    &&& replies[k] is Done
}

/// Whether `step` was done.
#[verifier::opaque]
pub open spec fn was_done<E>(
    args: GitRefFetchArgsView,
    replies: Seq<FetchReplyView<E>>,
    step: FetchStepView<E>,
) -> bool {
    exists|k: int| done_at(args, replies, k, step)
}

/// Whether the bookmark was found at `existing` when it was looked up at `k`.
pub open spec fn bookmark_at<E>(
    args: GitRefFetchArgsView,
    replies: Seq<FetchReplyView<E>>,
    k: int,
    existing: Seq<Option<Seq<u8>>>,
) -> bool {
    &&& 0 <= k < replies.len()
    &&& fetch_run(args, replies.take(k)) is ReadBookmark
    &&& replies[k] == FetchReplyView::<E>::Bookmark(existing)
}

/// Whether the bookmark was looked up and may move to the fetched commit.
#[verifier::opaque]
pub open spec fn bookmark_was_free<E>(
    args: GitRefFetchArgsView,
    replies: Seq<FetchReplyView<E>>,
    commit: Seq<u8>,
) -> bool {
    exists|k: int, existing: Seq<Option<Seq<u8>>>| #[trigger]
        bookmark_at(args, replies, k, existing) && bookmark_may_move(args, existing, commit)
}

/// Whether the Git repository was found to be shallow.
#[verifier::opaque]
pub open spec fn found_shallow<E>(
    args: GitRefFetchArgsView,
    replies: Seq<FetchReplyView<E>>,
) -> bool {
    exists|k: int| backend_at(args, replies, k, true)
}

/// Whether the request could be met: what makes sense of one commit only has one source, and
/// history is excluded in a shallow repository only.
pub open spec fn request_ok<E>(
    args: GitRefFetchArgsView,
    replies: Seq<FetchReplyView<E>>,
) -> bool {
    &&& args.has_single_target_option() ==> args.sources.len() == 1
    &&& args.shallow_exclude is Some ==> found_shallow(args, replies)
}

/// Whether each source was recorded to point to the commit imported for it.
pub open spec fn refs_recorded<E>(
    args: GitRefFetchArgsView,
    replies: Seq<FetchReplyView<E>>,
    tx: FetchTxView,
) -> bool {
    was_done(
        args,
        replies,
        FetchStepView::RecordRefs { tx, updates: fetched_ref_updates(args.sources, tx.commits) },
    )
}

/// Whether the bookmark that the user asks for, if any, was set to the fetched commit.
pub open spec fn bookmark_done<E>(
    args: GitRefFetchArgsView,
    replies: Seq<FetchReplyView<E>>,
    tx: FetchTxView,
) -> bool {
    args.bookmark matches Some(bookmark) ==> {
        &&& bookmark_was_free(args, replies, tx.commits[0])
        &&& was_done(
            args,
            replies,
            FetchStepView::SetBookmark { tx, bookmark, target: normal_target(tx.commits[0]) },
        )
    }
}

/// Whether a new commit was written on `parent` at `k`, and is `commit`.
pub open spec fn created_at<E>(
    args: GitRefFetchArgsView,
    replies: Seq<FetchReplyView<E>>,
    k: int,
    tx: FetchTxView,
    commit: Seq<u8>,
) -> bool {
    &&& 0 <= k < replies.len()
    &&& fetch_run(args, replies.take(k)) == (FetchStepView::<E>::CreateCommit {
        tx,
        parent: tx.commits[0],
    })
    &&& replies[k] == FetchReplyView::<E>::Commit(commit)
}

/// Whether a new commit was written on the fetched one.
#[verifier::opaque]
pub open spec fn was_created<E>(
    args: GitRefFetchArgsView,
    replies: Seq<FetchReplyView<E>>,
    tx: FetchTxView,
    commit: Seq<u8>,
) -> bool {
    exists|k: int| created_at(args, replies, k, tx, commit)
}

/// Whether the working copy is where the user asks: at the fetched commit, which may be
/// rewritten, or at a new commit on it.
pub open spec fn working_copy_done<E>(
    args: GitRefFetchArgsView,
    replies: Seq<FetchReplyView<E>>,
    tx: FetchTxView,
) -> bool {
    if args.edit {
        &&& was_done(args, replies, FetchStepView::CheckRewritable { tx, commit: tx.commits[0] })
        &&& was_done(
            args,
            replies,
            FetchStepView::Edit { tx, commit: tx.commits[0], created: false },
        )
    } else {
        args.new ==> exists|commit: Seq<u8>|
            {
                &&& was_created(args, replies, tx, commit)
                &&& #[trigger] was_done(
                    args,
                    replies,
                    FetchStepView::Edit { tx, commit, created: true },
                )
            }
    }
}

/// Whether the fetch brought the commits `ids`, and told whether the boundary changed.
#[verifier::opaque]
pub open spec fn brought<E>(
    args: GitRefFetchArgsView,
    replies: Seq<FetchReplyView<E>>,
    ids: Seq<Seq<u8>>,
    boundary_changed: bool,
) -> bool {
    exists|k: int|
        fetched_at(args, replies, k) && #[trigger] replies[k] == (FetchReplyView::<E>::Fetched {
            ids: Ok(ids),
            boundary_changed,
        })
}

/// Whether the fetched commit at place `i` of `tx` was imported at `k`, after those before it,
/// and what it was imported as.
pub open spec fn imported_at<E>(
    args: GitRefFetchArgsView,
    replies: Seq<FetchReplyView<E>>,
    k: int,
    tx: FetchTxView,
    i: int,
) -> bool {
    &&& 0 <= k < replies.len()
    &&& fetch_run(args, replies.take(k)) == (FetchStepView::<E>::Import {
        tx: FetchTxView { commits: tx.commits.take(i), ..tx },
        id: tx.ids[i],
    })
    &&& replies[k] == FetchReplyView::<E>::Commit(tx.commits[i])
}

/// Whether the fetched commit at place `i` of `tx` was imported, after those before it, and
/// what it was imported as.
pub open spec fn was_imported<E>(
    args: GitRefFetchArgsView,
    replies: Seq<FetchReplyView<E>>,
    tx: FetchTxView,
    i: int,
) -> bool {
    exists|k: int| imported_at(args, replies, k, tx, i)
}

/// Whether the commits of `tx` are what the fetched commits were imported as, one by one.
#[verifier::opaque]
pub open spec fn all_imported<E>(
    args: GitRefFetchArgsView,
    replies: Seq<FetchReplyView<E>>,
    tx: FetchTxView,
) -> bool {
    forall|i: int|
        0 <= i < tx.commits.len() ==> #[trigger] was_imported(args, replies, tx, i)
}

/// Whether all that the user asks for was done in `tx`, and `tx` was finished.
pub open spec fn all_done<E>(
    args: GitRefFetchArgsView,
    replies: Seq<FetchReplyView<E>>,
    tx: FetchTxView,
) -> bool {
    &&& request_ok(args, replies)
    &&& brought(args, replies, tx.ids, tx.boundary_changed)
    &&& all_imported(args, replies, tx)
    &&& tx.complete(args)
    &&& refs_recorded(args, replies, tx)
    &&& bookmark_done(args, replies, tx)
    &&& working_copy_done(args, replies, tx)
    &&& was_done(args, replies, finish_view(args, tx))
}

/// What the history of a run says of the step that it stands at.
spec fn fetch_inv<E>(
    args: GitRefFetchArgsView,
    replies: Seq<FetchReplyView<E>>,
    step: FetchStepView<E>,
) -> bool {
    &&& step is FindBackend || step is ReadDepth || in_transaction(step) ==> (
    args.has_single_target_option() ==> args.sources.len() == 1)
    &&& step is ReadDepth || in_transaction(step) ==> request_ok(args, replies)
    &&& fetch_tx(step) matches Some(tx) ==> brought(
        args,
        replies,
        tx.ids,
        tx.boundary_changed,
    )
    &&& match step {
        FetchStepView::RecordRefs { tx, updates } => updates == fetched_ref_updates(
            args.sources,
            tx.commits,
        ),
        FetchStepView::ReadBookmark { tx, bookmark } => {
            &&& refs_recorded(args, replies, tx)
            &&& args.bookmark == Some(bookmark)
        },
        FetchStepView::SetBookmark { tx, bookmark, target } => {
            &&& refs_recorded(args, replies, tx)
            &&& args.bookmark == Some(bookmark)
            &&& target == normal_target(tx.commits[0])
            &&& bookmark_was_free(args, replies, tx.commits[0])
        },
        FetchStepView::CheckRewritable { tx, commit } => {
            &&& refs_recorded(args, replies, tx)
            &&& bookmark_done(args, replies, tx)
            &&& args.edit
            &&& commit == tx.commits[0]
        },
        FetchStepView::MergeTrees { tx, commit } => {
            &&& refs_recorded(args, replies, tx)
            &&& bookmark_done(args, replies, tx)
            &&& !args.edit && args.new
            &&& commit == tx.commits[0]
        },
        FetchStepView::CreateCommit { tx, parent } => {
            &&& refs_recorded(args, replies, tx)
            &&& bookmark_done(args, replies, tx)
            &&& !args.edit && args.new
            &&& parent == tx.commits[0]
        },
        FetchStepView::Edit { tx, commit, created } => {
            &&& refs_recorded(args, replies, tx)
            &&& bookmark_done(args, replies, tx)
            &&& if created {
                &&& !args.edit && args.new
                &&& was_created(args, replies, tx, commit)
            } else {
                &&& args.edit
                &&& commit == tx.commits[0]
                &&& was_done(args, replies, FetchStepView::CheckRewritable { tx, commit })
            }
        },
        FetchStepView::ReportCreated { tx, pieces: _ } => {
            &&& refs_recorded(args, replies, tx)
            &&& bookmark_done(args, replies, tx)
            &&& working_copy_done(args, replies, tx)
        },
        FetchStepView::Finish { tx, description: _ } => {
            &&& refs_recorded(args, replies, tx)
            &&& bookmark_done(args, replies, tx)
            &&& working_copy_done(args, replies, tx)
            &&& step == finish_view::<E>(args, tx)
        },
        FetchStepView::ReinitIndex { boundary_changed: _, outcome: Ok(_) } => exists|
            tx: FetchTxView,
        |
            all_done(args, replies, tx),
        FetchStepView::Finished(Ok(_)) => exists|tx: FetchTxView| all_done(args, replies, tx),
        _ => true,
    }
}

/// What was imported stays imported.
proof fn lemma_imports_stay<E>(
    args: GitRefFetchArgsView,
    replies: Seq<FetchReplyView<E>>,
    tx: FetchTxView,
)
    requires
        replies.len() > 0,
        all_imported(args, replies.drop_last(), tx),
    ensures
        all_imported(args, replies, tx),
{
    reveal(all_imported);
    let before = replies.drop_last();
    assert forall|i: int| 0 <= i < tx.commits.len() implies #[trigger] was_imported(
        args,
        replies,
        tx,
        i,
    ) by {
        assert(was_imported(args, before, tx, i));
        let k = choose|k: int| imported_at(args, before, k, tx, i);
        assert(before.take(k) =~= replies.take(k));
        assert(imported_at(args, replies, k, tx, i));
    }
}

/// The commits of a transaction are what was imported.
proof fn lemma_imports<E>(args: GitRefFetchArgsView, replies: Seq<FetchReplyView<E>>)
    requires
        all_possible(args, replies),
    ensures
        fetch_tx(fetch_run(args, replies)) matches Some(tx) ==> all_imported(args, replies, tx),
    decreases replies.len(),
{
    if replies.len() > 0 {
        let before = replies.drop_last();
        let last = replies.len() - 1;
        assert forall|i: int| 0 <= i < before.len() implies fetch_reply_possible(
            args,
            #[trigger] before[i],
        ) by {
            assert(before[i] == replies[i]);
        }
        lemma_imports(args, before);
        law_fetch_steps_fit(args, before);
        assert(replies.take(last) =~= before);
        let step = fetch_run(args, before);
        if let Some(tx) = fetch_tx(step) {
            lemma_imports_stay(args, replies, tx);
        }
        match (step, replies.last()) {
            (FetchStepView::Fetch { .. }, FetchReplyView::Fetched { .. }) => {
                reveal(all_imported);
            },
            (FetchStepView::Import { tx, id }, FetchReplyView::Commit(commit)) => {
                let now = fetch_tx(fetch_run(args, replies))->0;
                assert(now == with_commit_view(tx, commit));
                assert(all_imported(args, replies, now)) by {
                    reveal(all_imported);
                    let n = tx.commits.len() as int;
                    assert forall|i: int| 0 <= i < now.commits.len() implies #[trigger] was_imported(
                        args,
                        replies,
                        now,
                        i,
                    ) by {
                        if i < n {
                            assert(was_imported(args, replies, tx, i));
                            let k = choose|k: int| imported_at(args, replies, k, tx, i);
                            assert(now.commits.take(i) =~= tx.commits.take(i));
                            assert(imported_at(args, replies, k, now, i));
                        } else {
                            assert(now.commits.take(n) =~= tx.commits);
                            assert(imported_at(args, replies, last, now, n));
                        }
                    }
                }
            },
            _ => {},
        }
    }
}

/// What was done stays done.
proof fn lemma_history_stays<E>(args: GitRefFetchArgsView, replies: Seq<FetchReplyView<E>>)
    requires
        replies.len() > 0,
    ensures
        request_ok(args, replies.drop_last()) ==> request_ok(args, replies),
        forall|step: FetchStepView<E>|
            was_done(args, replies.drop_last(), step) ==> #[trigger] was_done(args, replies, step),
        forall|commit: Seq<u8>|
            bookmark_was_free(args, replies.drop_last(), commit) ==> #[trigger] bookmark_was_free(
                args,
                replies,
                commit,
            ),
        forall|tx: FetchTxView, commit: Seq<u8>|
            was_created(args, replies.drop_last(), tx, commit) ==> #[trigger] was_created(
                args,
                replies,
                tx,
                commit,
            ),
        forall|ids: Seq<Seq<u8>>, changed: bool|
            brought(args, replies.drop_last(), ids, changed) ==> #[trigger] brought(
                args,
                replies,
                ids,
                changed,
            ),
        forall|tx: FetchTxView|
            refs_recorded(args, replies.drop_last(), tx) ==> #[trigger] refs_recorded(
                args,
                replies,
                tx,
            ),
        forall|tx: FetchTxView|
            bookmark_done(args, replies.drop_last(), tx) ==> #[trigger] bookmark_done(
                args,
                replies,
                tx,
            ),
        forall|tx: FetchTxView|
            working_copy_done(args, replies.drop_last(), tx) ==> #[trigger] working_copy_done(
                args,
                replies,
                tx,
            ),
        forall|tx: FetchTxView|
            all_done(args, replies.drop_last(), tx) ==> #[trigger] all_done(args, replies, tx),
{
    assert forall|tx: FetchTxView|
        all_imported(args, replies.drop_last(), tx) implies #[trigger] all_imported(
        args,
        replies,
        tx,
    ) by {
        lemma_imports_stay(args, replies, tx);
    }
    reveal(found_shallow);
    reveal(was_done);
    reveal(was_created);
    reveal(bookmark_was_free);
    reveal(brought);
    let before = replies.drop_last();
    assert forall|k: int| 0 <= k < before.len() implies #[trigger] before.take(k) == replies.take(k)
        && before[k] == replies[k] by {
        assert(before.take(k) =~= replies.take(k));
    }
    if request_ok(args, before) && args.shallow_exclude is Some {
        let k = choose|k: int| backend_at(args, before, k, true);
        assert(before.take(k) == replies.take(k));
        assert(backend_at(args, replies, k, true));
    }
    assert forall|step: FetchStepView<E>| was_done(args, before, step) implies #[trigger] was_done(
        args,
        replies,
        step,
    ) by {
        let k = choose|k: int| done_at(args, before, k, step);
        assert(before.take(k) == replies.take(k));
        assert(done_at(args, replies, k, step));
    }
    assert forall|commit: Seq<u8>|
        bookmark_was_free(args, before, commit) implies #[trigger] bookmark_was_free(
        args,
        replies,
        commit,
    ) by {
        let (k, existing) = choose|k: int, existing: Seq<Option<Seq<u8>>>| #[trigger]
            bookmark_at(args, before, k, existing) && bookmark_may_move(args, existing, commit);
        assert(before.take(k) == replies.take(k));
        assert(bookmark_at(args, replies, k, existing));
    }
    assert forall|tx: FetchTxView, commit: Seq<u8>|
        was_created(args, before, tx, commit) implies #[trigger] was_created(
        args,
        replies,
        tx,
        commit,
    ) by {
        let k = choose|k: int| created_at(args, before, k, tx, commit);
        assert(before.take(k) == replies.take(k));
        assert(created_at(args, replies, k, tx, commit));
    }
    assert forall|ids: Seq<Seq<u8>>, changed: bool|
        brought(args, before, ids, changed) implies #[trigger] brought(
        args,
        replies,
        ids,
        changed,
    ) by {
        let k = choose|k: int|
            fetched_at(args, before, k) && #[trigger] before[k] == (FetchReplyView::<E>::Fetched {
                ids: Ok(ids),
                boundary_changed: changed,
            });
        assert(before.take(k) == replies.take(k));
        assert(fetched_at(args, replies, k));
        assert(replies[k] == before[k]);
    }
    assert forall|tx: FetchTxView|
        working_copy_done(args, before, tx) implies #[trigger] working_copy_done(
        args,
        replies,
        tx,
    ) by {
        if !args.edit && args.new {
            let commit = choose|commit: Seq<u8>|
                was_created(args, before, tx, commit) && #[trigger] was_done(
                    args,
                    before,
                    FetchStepView::Edit { tx, commit, created: true },
                );
            assert(was_created(args, replies, tx, commit));
            assert(was_done(
                args,
                replies,
                FetchStepView::<E>::Edit { tx, commit, created: true },
            ));
        }
    }
}

/// Whether a step comes before anything is recorded.
spec fn is_early<E>(step: FetchStepView<E>) -> bool {
    !in_transaction(step) && !(step is ReinitIndex) && !(step is Finished) || step is LoadSettings
        || step is Fetch || step is Import || step is ReportFetched
}

/// Whether a step comes after the working copy is seen to.
spec fn is_late<E>(step: FetchStepView<E>) -> bool {
    step is ReportCreated || step is Finish || step is ReinitIndex || step is Finished
}

proof fn lemma_early_step<E>(args: GitRefFetchArgsView, replies: Seq<FetchReplyView<E>>)
    requires
        replies.len() > 0,
        fetch_inv(args, replies.drop_last(), fetch_run(args, replies.drop_last())),
        is_early(fetch_run(args, replies.drop_last())),
    ensures
        fetch_inv(args, replies, fetch_run(args, replies)),
{
    let last = replies.len() - 1;
    lemma_history_stays(args, replies);
    assert(replies.take(last) =~= replies.drop_last());
    match (fetch_run(args, replies.drop_last()), replies.last()) {
        (FetchStepView::FindBackend { .. }, FetchReplyView::Backend { is_shallow }) => {
            assert(is_shallow ==> found_shallow(args, replies)) by {
                reveal(found_shallow);
                assert(backend_at(args, replies, last, is_shallow));
            }
        },
        (FetchStepView::Fetch { .. }, FetchReplyView::Fetched { .. }) => {
            reveal(brought);
            assert(fetched_at(args, replies, last));
        },
        _ => {},
    }
}

proof fn lemma_middle_step<E>(args: GitRefFetchArgsView, replies: Seq<FetchReplyView<E>>)
    requires
        replies.len() > 0,
        fetch_inv(args, replies.drop_last(), fetch_run(args, replies.drop_last())),
        !is_early(fetch_run(args, replies.drop_last())),
        !is_late(fetch_run(args, replies.drop_last())),
    ensures
        fetch_inv(args, replies, fetch_run(args, replies)),
{
    let last = replies.len() - 1;
    let step = fetch_run(args, replies.drop_last());
    lemma_history_stays(args, replies);
    assert(replies.take(last) =~= replies.drop_last());
    if replies.last() is Done {
        assert(was_done(args, replies, step)) by {
            reveal(was_done);
            assert(done_at(args, replies, last, step));
        }
    }
    match (step, replies.last()) {
        (FetchStepView::ReadBookmark { .. }, FetchReplyView::Bookmark(existing)) => {
            reveal(bookmark_was_free);
            assert(bookmark_at(args, replies, last, existing));
        },
        (FetchStepView::CreateCommit { tx, .. }, FetchReplyView::Commit(commit)) => {
            reveal(was_created);
            assert(created_at(args, replies, last, tx, commit));
        },
        _ => {},
    }
}

proof fn lemma_late_step<E>(args: GitRefFetchArgsView, replies: Seq<FetchReplyView<E>>)
    requires
        replies.len() > 0,
        fetch_wf(args, fetch_run(args, replies.drop_last())),
        fetch_tx(fetch_run(args, replies.drop_last())) matches Some(tx) ==> all_imported(
            args,
            replies.drop_last(),
            tx,
        ),
        fetch_inv(args, replies.drop_last(), fetch_run(args, replies.drop_last())),
        is_late(fetch_run(args, replies.drop_last())),
    ensures
        fetch_inv(args, replies, fetch_run(args, replies)),
{
    let last = replies.len() - 1;
    let before = replies.drop_last();
    let step = fetch_run(args, before);
    lemma_history_stays(args, replies);
    assert(replies.take(last) =~= before);
    if let FetchStepView::Finish { tx, .. } = step {
        if replies.last() is Done {
            assert(was_done(args, replies, step)) by {
                reveal(was_done);
                assert(done_at(args, replies, last, step));
            }
            lemma_imports_stay(args, replies, tx);
            assert(all_done(args, replies, tx));
        }
    }
    if exists|tx: FetchTxView| all_done(args, before, tx) {
        let tx = choose|tx: FetchTxView| all_done(args, before, tx);
        assert(all_done(args, replies, tx));
    }
}

proof fn lemma_fetch_inv<E>(args: GitRefFetchArgsView, replies: Seq<FetchReplyView<E>>)
    requires
        all_possible(args, replies),
    ensures
        fetch_inv(args, replies, fetch_run(args, replies)),
    decreases replies.len(),
{
    if replies.len() > 0 {
        let before = replies.drop_last();
        assert forall|i: int| 0 <= i < before.len() implies fetch_reply_possible(
            args,
            #[trigger] before[i],
        ) by {
            assert(before[i] == replies[i]);
        }
        lemma_fetch_inv(args, before);
        law_fetch_steps_fit(args, before);
        if is_early(fetch_run(args, before)) {
            lemma_early_step(args, replies);
        } else if is_late(fetch_run(args, before)) {
            lemma_imports(args, before);
            lemma_late_step(args, replies);
        } else {
            lemma_middle_step(args, replies);
        }
    }
}

/// A fetch succeeds only if all that the user asks for was done in one transaction, which was
/// finished: the fetched commits were imported one by one, each source is recorded as the
/// commit that was imported for it, the bookmark was free to move and is set to the commit, and
/// the working copy is where the user wants it.
pub proof fn law_fetch_success<E>(args: GitRefFetchArgsView, replies: Seq<FetchReplyView<E>>)
    requires
        all_possible(args, replies),
        fetch_run(args, replies) == FetchStepView::<E>::Finished(Ok(())),
    ensures
        exists|tx: FetchTxView| all_done(args, replies, tx),
{
    lemma_fetch_inv(args, replies);
}

/// The refs are recorded when all commits are imported: each source points to what the fetched
/// commit at its place was imported as.
pub proof fn law_refs_are_what_was_imported<E>(
    args: GitRefFetchArgsView,
    replies: Seq<FetchReplyView<E>>,
)
    requires
        all_possible(args, replies),
    ensures
        fetch_run(args, replies) matches FetchStepView::RecordRefs { tx, updates } ==> {
            &&& tx.complete(args)
            &&& all_imported(args, replies, tx)
            &&& updates == fetched_ref_updates(args.sources, tx.commits)
        },
{
    lemma_fetch_inv(args, replies);
    lemma_imports(args, replies);
    law_fetch_steps_fit(args, replies);
}

/// No transaction is started unless the request can be met.
pub proof fn law_fetch_is_checked_first<E>(
    args: GitRefFetchArgsView,
    replies: Seq<FetchReplyView<E>>,
)
    requires
        all_possible(args, replies),
        in_transaction(fetch_run(args, replies)),
    ensures
        request_ok(args, replies),
{
    lemma_fetch_inv(args, replies);
}

/// A bookmark is set only if the user asks for it, to the only commit that was fetched, and
/// only if it was absent or there already, or the user lets it move.
pub proof fn law_bookmark_is_protected<E>(
    args: GitRefFetchArgsView,
    replies: Seq<FetchReplyView<E>>,
)
    requires
        all_possible(args, replies),
    ensures
        fetch_run(args, replies) matches FetchStepView::SetBookmark { tx, bookmark, target } ==> {
            &&& args.bookmark == Some(bookmark)
            &&& args.sources.len() == 1
            &&& tx.commits.len() == 1
            &&& target == normal_target(tx.commits[0])
            &&& bookmark_was_free(args, replies, tx.commits[0])
        },
{
    lemma_fetch_inv(args, replies);
    law_fetch_steps_fit(args, replies);
}

/// The working copy is moved only if the user asks for it: to the fetched commit itself, once
/// it is known that it may be rewritten, or else to a new commit on it.
pub proof fn law_working_copy_moves_on_request<E>(
    args: GitRefFetchArgsView,
    replies: Seq<FetchReplyView<E>>,
)
    requires
        all_possible(args, replies),
    ensures
        fetch_run(args, replies) matches FetchStepView::Edit { tx, commit, created } ==> {
            &&& args.sources.len() == 1
            &&& created <==> !args.edit
            &&& created ==> args.new && was_created(args, replies, tx, commit)
            &&& !created ==> commit == tx.commits[0] && was_done(
                args,
                replies,
                FetchStepView::CheckRewritable { tx, commit },
            )
        },
{
    lemma_fetch_inv(args, replies);
}

/// A fetch never turns back: a later step has a lower rank, or is the same step.
pub proof fn law_fetch_never_turns_back<E>(
    args: GitRefFetchArgsView,
    replies: Seq<FetchReplyView<E>>,
    i: int,
    j: int,
)
    requires
        all_possible(args, replies),
        0 <= i <= j <= replies.len(),
    ensures
        fetch_rank(args, fetch_run(args, replies.take(j))) < fetch_rank(
            args,
            fetch_run(args, replies.take(i)),
        ) || fetch_run(args, replies.take(j)) == fetch_run(args, replies.take(i)),
    decreases j,
{
    if i < j {
        law_fetch_never_turns_back(args, replies, i, j - 1);
        assert(replies.take(j).drop_last() =~= replies.take(j - 1));
        assert(fetch_reply_possible(args, replies[j - 1]));
        law_fetch_steps_fit(args, replies.take(j - 1));
        law_fetch_progress(args, fetch_run(args, replies.take(j - 1)), replies[j - 1]);
    }
}

/// Whether `remote` was picked as the default one at `k`.
pub open spec fn default_at<E>(
    args: GitRefFetchArgsView,
    replies: Seq<FetchReplyView<E>>,
    k: int,
    remote: NameView,
) -> bool {
    &&& 0 <= k < replies.len()
    &&& fetch_run(args, replies.take(k)) is ListRemotes
    &&& replies[k] matches FetchReplyView::Remotes(candidates) && default_fetch_remote_view::<E>(
        candidates,
    ) == Ok::<NameView, CommandErrorView<E>>(remote)
}

/// Whether the depth that the user asks for was turned into `depth` at `k`.
pub open spec fn depth_at<E>(
    args: GitRefFetchArgsView,
    replies: Seq<FetchReplyView<E>>,
    k: int,
    depth: Option<u32>,
) -> bool {
    &&& 0 <= k < replies.len()
    &&& fetch_run(args, replies.take(k)) matches FetchStepView::ReadDepth { remote: _, depth: asked }
        && asked == args.depth
    &&& replies[k] == FetchReplyView::<E>::Depth(depth)
}

/// Whether `remote` is the one that the user names, or else the default one.
#[verifier::opaque]
pub open spec fn remote_ok<E>(
    args: GitRefFetchArgsView,
    replies: Seq<FetchReplyView<E>>,
    remote: NameView,
) -> bool {
    match args.remote {
        Some(named) => remote == named,
        None => exists|k: int| default_at(args, replies, k, remote),
    }
}

/// Whether `depth` came of the depth that the user asks for.
#[verifier::opaque]
pub open spec fn depth_ok<E>(
    args: GitRefFetchArgsView,
    replies: Seq<FetchReplyView<E>>,
    depth: Option<u32>,
) -> bool {
    exists|k: int| depth_at(args, replies, k, depth)
}

spec fn request_inv<E>(
    args: GitRefFetchArgsView,
    replies: Seq<FetchReplyView<E>>,
    step: FetchStepView<E>,
) -> bool {
    match step {
        FetchStepView::DefaultRemotes | FetchStepView::ListRemotes => args.remote is None,
        FetchStepView::FindBackend { remote } => remote_ok(args, replies, remote),
        FetchStepView::ReadDepth { remote, depth } => remote_ok(args, replies, remote) && depth
            == args.depth,
        FetchStepView::LoadSettings { remote, depth } => remote_ok(args, replies, remote)
            && depth_ok(args, replies, depth),
        FetchStepView::Fetch { remote, sources, depth, shallow_exclude } => {
            &&& remote_ok(args, replies, remote)
            &&& depth_ok(args, replies, depth)
            &&& sources == args.sources
            &&& shallow_exclude == args.shallow_exclude
        },
        _ => fetch_tx(step) matches Some(tx) ==> remote_ok(args, replies, tx.remote),
    }
}

proof fn lemma_request<E>(args: GitRefFetchArgsView, replies: Seq<FetchReplyView<E>>)
    ensures
        request_inv(args, replies, fetch_run(args, replies)),
    decreases replies.len(),
{
    if replies.len() > 0 {
        let before = replies.drop_last();
        let reply = replies.last();
        let last = replies.len() - 1;
        let step = fetch_run(args, before);
        lemma_request(args, before);
        assert(replies.take(last) =~= before);
        assert forall|remote: NameView| remote_ok(args, before, remote) implies #[trigger] remote_ok(
            args,
            replies,
            remote,
        ) by {
            reveal(remote_ok);
            if args.remote is None {
                let k = choose|k: int| default_at(args, before, k, remote);
                assert(before.take(k) =~= replies.take(k));
                assert(default_at(args, replies, k, remote));
            }
        }
        assert forall|depth: Option<u32>| depth_ok(args, before, depth) implies #[trigger] depth_ok(
            args,
            replies,
            depth,
        ) by {
            reveal(depth_ok);
            let k = choose|k: int| depth_at(args, before, k, depth);
            assert(before.take(k) =~= replies.take(k));
            assert(depth_at(args, replies, k, depth));
        }
        match (step, reply) {
            (FetchStepView::OpenWorkspace, FetchReplyView::Done) => {
                reveal(remote_ok);
            },
            (FetchStepView::ListRemotes, FetchReplyView::Remotes(candidates)) => {
                if let Ok(remote) = default_fetch_remote_view::<E>(candidates) {
                    assert(remote_ok(args, replies, remote)) by {
                        reveal(remote_ok);
                        assert(default_at(args, replies, last, remote));
                    }
                }
            },
            (FetchStepView::ReadDepth { .. }, FetchReplyView::Depth(depth)) => {
                assert(depth_ok(args, replies, depth)) by {
                    reveal(depth_ok);
                    assert(depth_at(args, replies, last, depth));
                }
            },
            _ => {},
        }
    }
}

/// What is fetched is what the user asks for: all the sources, without the history that the
/// user excludes, to the depth that came of the user's, from the remote that the user names or
/// else the default one. The fetched refs are recorded for that remote.
pub proof fn law_fetch_request<E>(args: GitRefFetchArgsView, replies: Seq<FetchReplyView<E>>)
    ensures
        fetch_run(args, replies) matches FetchStepView::Fetch {
            remote,
            sources,
            depth,
            shallow_exclude,
        } ==> {
            &&& remote_ok(args, replies, remote)
            &&& depth_ok(args, replies, depth)
            &&& sources == args.sources
            &&& shallow_exclude == args.shallow_exclude
        },
        fetch_run(args, replies) matches FetchStepView::RecordRefs { tx, updates: _ }
            ==> remote_ok(args, replies, tx.remote),
{
    lemma_request(args, replies);
}

/// Whether the fetch told that the shallow boundary changed.
pub open spec fn boundary_was_changed<E>(
    args: GitRefFetchArgsView,
    replies: Seq<FetchReplyView<E>>,
) -> bool {
    exists|k: int| #[trigger] fetched_at(args, replies, k) && replies[k]->boundary_changed
}

spec fn boundary_inv<E>(
    args: GitRefFetchArgsView,
    replies: Seq<FetchReplyView<E>>,
    step: FetchStepView<E>,
) -> bool {
    match step {
        FetchStepView::ReinitIndex { boundary_changed, outcome: _ } => boundary_changed
            == boundary_was_changed(args, replies),
        FetchStepView::Finished(_) => true,
        _ => match fetch_tx(step) {
            Some(tx) => tx.boundary_changed == boundary_was_changed(args, replies),
            None => forall|k: int| !fetched_at(args, replies, k),
        },
    }
}

proof fn lemma_boundary<E>(args: GitRefFetchArgsView, replies: Seq<FetchReplyView<E>>)
    ensures
        boundary_inv(args, replies, fetch_run(args, replies)),
    decreases replies.len(),
{
    if replies.len() > 0 {
        let before = replies.drop_last();
        let last = replies.len() - 1;
        lemma_boundary(args, before);
        assert(replies.take(last) =~= before);
        assert forall|k: int| 0 <= k < last implies fetched_at(args, before, k)
            == #[trigger] fetched_at(args, replies, k) && before[k] == replies[k] by {
            assert(before.take(k) =~= replies.take(k));
        }
        if boundary_was_changed(args, before) {
            let k = choose|k: int| #[trigger]
                fetched_at(args, before, k) && before[k]->boundary_changed;
            assert(fetched_at(args, replies, k));
        }
        if boundary_was_changed(args, replies) && !fetched_at(args, replies, last) {
            let k = choose|k: int| #[trigger]
                fetched_at(args, replies, k) && replies[k]->boundary_changed;
            assert(fetched_at(args, before, k));
        }
        if fetched_at(args, replies, last) {
            assert forall|k: int| #[trigger] fetched_at(args, replies, k) implies k == last by {
                if k < last {
                    assert(fetched_at(args, before, k));
                }
            }
        }
    }
}

/// Whether the index was seen to at `j`, and told whether the fetch changed the boundary.
pub open spec fn index_seen_to_at<E>(
    args: GitRefFetchArgsView,
    replies: Seq<FetchReplyView<E>>,
    j: int,
) -> bool {
    &&& 0 <= j < replies.len()
    &&& fetch_run(args, replies.take(j)) is ReinitIndex
    &&& fetch_run(args, replies.take(j))->ReinitIndex_boundary_changed == boundary_was_changed(
        args,
        replies.take(j),
    )
    &&& fetch_answers(fetch_run(args, replies.take(j)), replies[j])
}

/// Once a transaction was started, the fetch does not end before the index was seen to,
/// whether the transaction went well or not. The index is told of a changed boundary if and
/// only if the fetch told of one.
pub proof fn law_index_is_seen_to<E>(
    args: GitRefFetchArgsView,
    replies: Seq<FetchReplyView<E>>,
    i: int,
)
    requires
        0 <= i <= replies.len(),
        in_transaction(fetch_run(args, replies.take(i))),
    ensures
        in_transaction(fetch_run(args, replies)) || fetch_run(args, replies) is ReinitIndex || (
        fetch_run(args, replies) is Finished && exists|j: int|
            i < j && #[trigger] index_seen_to_at(args, replies, j)),
    decreases replies.len(),
{
    if i == replies.len() {
        assert(replies.take(i) =~= replies);
    } else {
        let before = replies.drop_last();
        let last = replies.len() - 1;
        assert(before.take(i) =~= replies.take(i));
        law_index_is_seen_to(args, before, i);
        assert(replies.take(last) =~= before);
        let step = fetch_run(args, before);
        if fetch_answers(step, replies.last()) {
            law_fetch_leaves_by_the_index(args, step, replies.last());
        }
        if step is ReinitIndex {
            lemma_boundary(args, before);
            if fetch_answers(step, replies.last()) {
                assert(index_seen_to_at(args, replies, last));
                if i == last {
                    assert(replies.take(i) == before);
                }
            }
        }
        if step is Finished {
            let j = choose|j: int| i < j && #[trigger] index_seen_to_at(args, before, j);
            assert(before.take(j) =~= replies.take(j));
            assert(index_seen_to_at(args, replies, j));
        }
    }
}

/// Whether the transaction was finished at `k`.
pub open spec fn finished_at<E>(
    args: GitRefFetchArgsView,
    replies: Seq<FetchReplyView<E>>,
    k: int,
) -> bool {
    &&& 0 <= k < replies.len()
    &&& fetch_run(args, replies.take(k)) is Finish
    &&& replies[k] is Done
}

/// Whether the index failed with `e` at `j`, after the transaction went well.
pub open spec fn index_failed_at<E>(
    args: GitRefFetchArgsView,
    replies: Seq<FetchReplyView<E>>,
    j: int,
    e: E,
) -> bool {
    &&& 0 <= j < replies.len()
    &&& fetch_run(args, replies.take(j)) matches FetchStepView::ReinitIndex {
        boundary_changed: _,
        outcome: Ok(_),
    }
    &&& replies[j] == FetchReplyView::<E>::Failed(e)
}

/// Whether the index failed with `e`, after the transaction went well.
pub open spec fn index_failed<E>(
    args: GitRefFetchArgsView,
    replies: Seq<FetchReplyView<E>>,
    e: E,
) -> bool {
    exists|j: int| index_failed_at(args, replies, j, e)
}

/// Whether a step comes after a transaction that went well, and shows no failure but one of
/// the index.
pub open spec fn after_success<E>(
    args: GitRefFetchArgsView,
    replies: Seq<FetchReplyView<E>>,
    step: FetchStepView<E>,
) -> bool {
    match step {
        FetchStepView::ReinitIndex { boundary_changed: _, outcome } => outcome is Ok,
        FetchStepView::Finished(Ok(_)) => true,
        FetchStepView::Finished(Err(CommandErrorView::Outside(e))) => index_failed(
            args,
            replies,
            e,
        ),
        _ => false,
    }
}

/// A transaction that was finished went well: after that the fetch fails by the index alone,
/// and then with the failure of the index.
pub proof fn law_finished_transaction_went_well<E>(
    args: GitRefFetchArgsView,
    replies: Seq<FetchReplyView<E>>,
    k: int,
)
    requires
        finished_at(args, replies, k),
    ensures
        after_success(args, replies, fetch_run(args, replies)),
    decreases replies.len(),
{
    let before = replies.drop_last();
    let last = replies.len() - 1;
    assert(replies.take(last) =~= before);
    if k < last {
        assert(before.take(k) =~= replies.take(k));
        assert(finished_at(args, before, k));
        law_finished_transaction_went_well(args, before, k);
        match fetch_run(args, before) {
            FetchStepView::ReinitIndex { .. } => {
                if let FetchReplyView::Failed(e) = replies.last() {
                    assert(index_failed_at(args, replies, last, e));
                    assert(index_failed(args, replies, e));
                }
            },
            FetchStepView::Finished(Err(CommandErrorView::Outside(e))) => {
                let j = choose|j: int| index_failed_at(args, before, j, e);
                assert(before.take(j) =~= replies.take(j));
                assert(index_failed_at(args, replies, j, e));
                assert(index_failed(args, replies, e));
            },
            _ => {},
        }
    }
}

/// A transaction that failed is not finished, neither before nor after: where a run comes to
/// the index with an error, whatever is replied then, the transaction was never finished.
pub proof fn law_failed_transaction_is_not_finished<E>(
    args: GitRefFetchArgsView,
    replies: Seq<FetchReplyView<E>>,
    j: int,
)
    requires
        0 <= j <= replies.len(),
        fetch_run(args, replies.take(j)) matches FetchStepView::ReinitIndex {
            boundary_changed: _,
            outcome: Err(_),
        },
    ensures
        forall|k: int| !finished_at(args, replies, k),
{
    assert forall|k: int| !finished_at(args, replies, k) by {
        if finished_at(args, replies, k) {
            if k < j {
                let until = replies.take(j);
                assert(until.take(k) =~= replies.take(k));
                assert(finished_at(args, until, k));
                law_finished_transaction_went_well(args, until, k);
            } else {
                lemma_nothing_after_the_index(args, replies.take(k), j);
                assert(replies.take(k).take(j) =~= replies.take(j));
            }
        }
    }
}

proof fn lemma_nothing_after_the_index<E>(
    args: GitRefFetchArgsView,
    replies: Seq<FetchReplyView<E>>,
    j: int,
)
    requires
        0 <= j <= replies.len(),
    ensures
        fetch_run(args, replies.take(j)) is ReinitIndex ==> fetch_run(args, replies) is ReinitIndex
            || fetch_run(args, replies) is Finished,
    decreases replies.len(),
{
    if j == replies.len() {
        assert(replies.take(j) =~= replies);
    } else {
        assert(replies.drop_last().take(j) =~= replies.take(j));
        lemma_nothing_after_the_index(args, replies.drop_last(), j);
    }
}

/// A fetch that ends with an error leaves nothing behind, unless it is an error of the index
/// alone: its transaction was never finished.
pub proof fn law_failed_fetch_finishes_nothing<E>(
    args: GitRefFetchArgsView,
    replies: Seq<FetchReplyView<E>>,
)
    requires
        fetch_run(args, replies) matches FetchStepView::Finished(Err(_)),
        forall|e: E| !index_failed(args, replies, e),
    ensures
        forall|k: int| !finished_at(args, replies, k),
{
    assert forall|k: int| !finished_at(args, replies, k) by {
        if finished_at(args, replies, k) {
            law_finished_transaction_went_well(args, replies, k);
        }
    }
}

/// A fetch that is refused leaves nothing behind: its transaction was never finished.
pub proof fn law_refused_fetch_finishes_nothing<E>(
    args: GitRefFetchArgsView,
    replies: Seq<FetchReplyView<E>>,
)
    requires
        fetch_run(args, replies) matches FetchStepView::Finished(
            Err(CommandErrorView::User { .. }),
        ),
    ensures
        forall|k: int| !finished_at(args, replies, k),
{
    assert forall|k: int| !finished_at(args, replies, k) by {
        if finished_at(args, replies, k) {
            law_finished_transaction_went_well(args, replies, k);
        }
    }
}

/// Whether work that was asked for failed with `e` at `k`.
pub open spec fn failed_at<E>(
    args: GitRefFetchArgsView,
    replies: Seq<FetchReplyView<E>>,
    k: int,
    e: E,
) -> bool {
    &&& 0 <= k < replies.len()
    &&& fetch_answers(fetch_run(args, replies.take(k)), replies[k])
    &&& match replies[k] {
        FetchReplyView::Failed(failure) => failure == e,
        FetchReplyView::Fetched { ids: Err(failure), boundary_changed: _ } => failure == e,
        _ => false,
    }
}

/// Whether the default configuration gave no single remote at `k`.
pub open spec fn no_default_at<E>(
    args: GitRefFetchArgsView,
    replies: Seq<FetchReplyView<E>>,
    k: int,
) -> bool {
    &&& 0 <= k < replies.len()
    &&& fetch_run(args, replies.take(k)) is ListRemotes
    &&& replies[k] matches FetchReplyView::Remotes(candidates) && matching_remotes(candidates).len()
        != 1
}

/// Whether the bookmark was found at `k` where it may not be moved from.
pub open spec fn bookmark_taken_at<E>(
    args: GitRefFetchArgsView,
    replies: Seq<FetchReplyView<E>>,
    k: int,
) -> bool {
    &&& 0 <= k < replies.len()
    &&& fetch_run(args, replies.take(k)) matches FetchStepView::ReadBookmark { tx, bookmark: _ }
        && (replies[k] matches FetchReplyView::Bookmark(existing) && !bookmark_may_move(
        args,
        existing,
        tx.commits[0],
    ))
}

/// Whether work that was asked for failed with `e`.
pub open spec fn work_failed<E>(
    args: GitRefFetchArgsView,
    replies: Seq<FetchReplyView<E>>,
    e: E,
) -> bool {
    exists|k: int| failed_at(args, replies, k, e)
}

/// Whether the request cannot be met as it stands.
pub open spec fn request_at_fault<E>(
    args: GitRefFetchArgsView,
    replies: Seq<FetchReplyView<E>>,
) -> bool {
    ||| args.has_single_target_option() && args.sources.len() != 1
    ||| exists|k: int| no_default_at(args, replies, k)
    ||| args.shallow_exclude is Some && exists|k: int| backend_at(args, replies, k, false)
    ||| exists|k: int| bookmark_taken_at(args, replies, k)
}

/// Whether there is a reason for a fetch to end with `error`.
pub open spec fn has_reason<E>(
    args: GitRefFetchArgsView,
    replies: Seq<FetchReplyView<E>>,
    error: CommandErrorView<E>,
) -> bool {
    match error {
        CommandErrorView::Outside(e) => work_failed(args, replies, e),
        CommandErrorView::User { .. } => request_at_fault(args, replies),
    }
}

proof fn lemma_reason_stays<E>(
    args: GitRefFetchArgsView,
    replies: Seq<FetchReplyView<E>>,
    error: CommandErrorView<E>,
)
    requires
        replies.len() > 0,
        has_reason(args, replies.drop_last(), error),
    ensures
        has_reason(args, replies, error),
{
    let before = replies.drop_last();
    assert forall|k: int| 0 <= k < before.len() implies #[trigger] before.take(k) == replies.take(k)
        && before[k] == replies[k] by {
        assert(before.take(k) =~= replies.take(k));
    }
    match error {
        CommandErrorView::Outside(e) => {
            let k = choose|k: int| failed_at(args, before, k, e);
            assert(before.take(k) == replies.take(k));
            assert(failed_at(args, replies, k, e));
        },
        CommandErrorView::User { .. } => {
            if exists|k: int| no_default_at(args, before, k) {
                let k = choose|k: int| no_default_at(args, before, k);
                assert(before.take(k) == replies.take(k));
                assert(no_default_at(args, replies, k));
            }
            if exists|k: int| backend_at(args, before, k, false) {
                let k = choose|k: int| backend_at(args, before, k, false);
                assert(before.take(k) == replies.take(k));
                assert(backend_at(args, replies, k, false));
            }
            if exists|k: int| bookmark_taken_at(args, before, k) {
                let k = choose|k: int| bookmark_taken_at(args, before, k);
                assert(before.take(k) == replies.take(k));
                assert(bookmark_taken_at(args, replies, k));
            }
        },
    }
}

/// The error that a step holds.
pub open spec fn error_of<E>(step: FetchStepView<E>) -> Option<CommandErrorView<E>> {
    match step {
        FetchStepView::ReinitIndex { boundary_changed: _, outcome: Err(e) } => Some(e),
        FetchStepView::Finished(Err(e)) => Some(e),
        _ => None,
    }
}

/// A fetch fails for a reason alone: work that it asked for failed, and then the error is that
/// failure; or the request cannot be met as it stands: several sources where there may be one,
/// no single default remote, history excluded in a repository that is not shallow, or a
/// bookmark that may not be moved.
pub proof fn law_fetch_fails_for_a_reason<E>(
    args: GitRefFetchArgsView,
    replies: Seq<FetchReplyView<E>>,
)
    ensures
        error_of(fetch_run(args, replies)) is Some ==> has_reason(
            args,
            replies,
            error_of(fetch_run(args, replies))->0,
        ),
    decreases replies.len(),
{
    if replies.len() > 0 {
        let before = replies.drop_last();
        let reply = replies.last();
        let last = replies.len() - 1;
        law_fetch_fails_for_a_reason(args, before);
        assert(replies.take(last) =~= before);
        let step = fetch_run(args, before);
        if error_of(step) is Some {
            lemma_reason_stays(args, replies, error_of(step)->0);
        }
        if fetch_answers(step, reply) {
            if let FetchReplyView::Failed(e) = reply {
                assert(failed_at(args, replies, last, e));
                assert(work_failed(args, replies, e));
            }
            if let FetchReplyView::Fetched { ids: Err(e), boundary_changed: _ } = reply {
                assert(failed_at(args, replies, last, e));
                assert(work_failed(args, replies, e));
            }
            if let FetchReplyView::Remotes(candidates) = reply {
                if matching_remotes(candidates).len() != 1 {
                    assert(no_default_at(args, replies, last));
                }
            }
            if let FetchReplyView::Backend { is_shallow } = reply {
                assert(backend_at(args, replies, last, is_shallow));
            }
            if let FetchReplyView::Bookmark(existing) = reply {
                if !bookmark_may_move(args, existing, fetch_tx(step)->0.commits[0]) {
                    assert(bookmark_taken_at(args, replies, last));
                }
            }
        }
    }
}

/// A fetch that has ended, in which no work failed and whose request is not at fault, has
/// succeeded.
pub proof fn law_fetch_without_fault_succeeds<E>(
    args: GitRefFetchArgsView,
    replies: Seq<FetchReplyView<E>>,
)
    requires
        fetch_run(args, replies) is Finished,
        forall|e: E| !work_failed(args, replies, e),
        !request_at_fault(args, replies),
    ensures
        fetch_run(args, replies)->Finished_0 is Ok,
{
    law_fetch_fails_for_a_reason(args, replies);
}

/// A bookmark that is found where the fetch would set it is no obstacle, with or without leave
/// to move it.
pub proof fn law_repeated_fetch_is_not_refused<E>(
    args: GitRefFetchArgsView,
    tx: FetchTxView,
    bookmark: NameView,
)
    requires
        tx.commits.len() > 0,
    ensures
        fetch_next(
            args,
            FetchStepView::<E>::ReadBookmark { tx, bookmark },
            FetchReplyView::Bookmark(normal_target(tx.commits[0])),
        ) == (FetchStepView::<E>::SetBookmark {
            tx,
            bookmark,
            target: normal_target(tx.commits[0]),
        }),
{
    law_normal_target(tx.commits[0]);
}

/// Whether a commit was imported as `commit` at `k`, after `n` others.
pub open spec fn nth_import_at<E>(
    args: GitRefFetchArgsView,
    replies: Seq<FetchReplyView<E>>,
    k: int,
    n: int,
    commit: Seq<u8>,
) -> bool {
    &&& 0 <= k < replies.len()
    &&& fetch_run(args, replies.take(k)) matches FetchStepView::Import { tx, id: _ }
        && tx.commits.len() == n
    &&& replies[k] == FetchReplyView::<E>::Commit(commit)
}

/// Whether the replies to a fetch are those to one that comes again after `tx`: the remote
/// gives the commits that it gave, they are imported as before, and the bookmark is found where
/// `tx` set it. The default remote is still a single one, and a repository that has to be
/// shallow is.
pub open spec fn comes_again<E>(
    args: GitRefFetchArgsView,
    replies: Seq<FetchReplyView<E>>,
    tx: FetchTxView,
) -> bool {
    &&& forall|ids: Seq<Seq<u8>>, changed: bool| #[trigger]
        brought(args, replies, ids, changed) ==> ids == tx.ids
    &&& forall|k: int, n: int, commit: Seq<u8>| #[trigger]
        nth_import_at(args, replies, k, n, commit) && n < tx.commits.len() ==> commit
            == tx.commits[n]
    &&& forall|k: int, existing: Seq<Option<Seq<u8>>>| #[trigger]
        bookmark_at(args, replies, k, existing) ==> existing == normal_target(tx.commits[0])
    &&& forall|k: int| !no_default_at(args, replies, k)
    &&& args.shallow_exclude is Some ==> forall|k: int| !backend_at(args, replies, k, false)
}

/// The commits of a transaction of a fetch that comes again are those of the one before.
proof fn lemma_same_commits<E>(
    args: GitRefFetchArgsView,
    replies: Seq<FetchReplyView<E>>,
    tx: FetchTxView,
    again: FetchTxView,
    i: int,
)
    requires
        comes_again(args, replies, tx),
        all_imported(args, replies, again),
        0 <= i < again.commits.len(),
        i < tx.commits.len(),
    ensures
        again.commits[i] == tx.commits[i],
{
    reveal(all_imported);
    assert(was_imported(args, replies, again, i));
    let k = choose|k: int| imported_at(args, replies, k, again, i);
    assert(nth_import_at(args, replies, k, i, again.commits[i]));
}

/// A fetch that succeeded succeeds again, if its work does: with the same arguments, though the
/// bookmark now exists and there is no leave to move it. It records the same refs, and sets the
/// bookmark to the same commit.
pub proof fn law_fetch_can_be_repeated<E>(
    args: GitRefFetchArgsView,
    first: Seq<FetchReplyView<E>>,
    tx: FetchTxView,
    second: Seq<FetchReplyView<E>>,
)
    requires
        all_done(args, first, tx),
        all_possible(args, second),
        comes_again(args, second, tx),
        fetch_run(args, second) is Finished,
        forall|e: E| !work_failed(args, second, e),
    ensures
        fetch_run(args, second)->Finished_0 is Ok,
        exists|again: FetchTxView| #[trigger]
            all_done(args, second, again) && again.commits == tx.commits && again.ids == tx.ids,
{
    assert forall|k: int| !bookmark_taken_at(args, second, k) by {
        if bookmark_taken_at(args, second, k) {
            let until = second.take(k);
            let now = fetch_tx(fetch_run(args, until))->0;
            assert forall|i: int| 0 <= i < until.len() implies fetch_reply_possible(
                args,
                #[trigger] until[i],
            ) by {
                assert(until[i] == second[i]);
            }
            law_fetch_steps_fit(args, until);
            lemma_imports(args, until);
            assert(now.commits[0] == tx.commits[0]) by {
                reveal(all_imported);
                assert(was_imported(args, until, now, 0));
                let j = choose|j: int| imported_at(args, until, j, now, 0);
                assert(until.take(j) =~= second.take(j));
                assert(nth_import_at(args, second, j, 0, now.commits[0]));
            }
            let existing = second[k]->Bookmark_0;
            assert(bookmark_at(args, second, k, existing));
            law_normal_target(tx.commits[0]);
        }
    }
    law_fetch_without_fault_succeeds(args, second);
    lemma_fetch_inv(args, second);
    let again = choose|again: FetchTxView| all_done(args, second, again);
    assert forall|i: int| 0 <= i < again.commits.len() implies again.commits[i] == tx.commits[i] by {
        lemma_same_commits(args, second, tx, again, i);
    }
    assert(again.commits =~= tx.commits);
}

/// Whether the candidate at `i` matches, and no other.
pub open spec fn only_match(candidates: Seq<RemoteCandidateView>, i: int) -> bool {
    &&& 0 <= i < candidates.len()
    &&& candidates[i].is_match
    &&& forall|j: int| 0 <= j < candidates.len() && j != i ==> !(#[trigger] candidates[j]).is_match
}

/// The default remote is picked if and only if it is the only candidate that matches.
pub proof fn law_default_remote_is_unique<E>(
    candidates: Seq<RemoteCandidateView>,
    remote: NameView,
)
    ensures
        default_fetch_remote_view::<E>(candidates) == Ok::<NameView, CommandErrorView<E>>(remote)
            <==> exists|i: int| #[trigger]
            only_match(candidates, i) && candidates[i].remote == remote,
{
    if matching_remotes(candidates).len() == 1 {
        lemma_one_matches(candidates);
    }
    assert forall|i: int| #[trigger] only_match(candidates, i) implies matching_remotes(candidates)
        == seq![candidates[i]] by {
        lemma_only_match(candidates, i);
    }
}

proof fn lemma_none_matches(candidates: Seq<RemoteCandidateView>)
    ensures
        matching_remotes(candidates).len() == 0 <==> forall|j: int|
            0 <= j < candidates.len() ==> !(#[trigger] candidates[j]).is_match,
    decreases candidates.len(),
{
    reveal(Seq::filter);
    if candidates.len() > 0 {
        let rest = candidates.drop_last();
        lemma_none_matches(rest);
        if matching_remotes(candidates).len() == 0 {
            assert forall|j: int| 0 <= j < candidates.len() implies !(
            #[trigger] candidates[j]).is_match by {
                if j < rest.len() {
                    assert(!rest[j].is_match);
                }
            }
        } else if !candidates.last().is_match {
            let j = choose|j: int| 0 <= j < rest.len() && (#[trigger] rest[j]).is_match;
            assert(candidates[j].is_match);
        } else {
            assert(candidates[candidates.len() - 1].is_match);
        }
    }
}

proof fn lemma_only_match(candidates: Seq<RemoteCandidateView>, i: int)
    requires
        only_match(candidates, i),
    ensures
        matching_remotes(candidates) == seq![candidates[i]],
    decreases candidates.len(),
{
    reveal(Seq::filter);
    let rest = candidates.drop_last();
    assert(forall|j: int| 0 <= j < rest.len() ==> #[trigger] rest[j] == candidates[j]);
    if i == candidates.len() - 1 {
        lemma_none_matches(rest);
        assert(matching_remotes(candidates) =~= seq![candidates[i]]);
    } else {
        assert(!candidates[candidates.len() - 1].is_match);
        lemma_only_match(rest, i);
    }
}

proof fn lemma_one_matches(candidates: Seq<RemoteCandidateView>)
    requires
        matching_remotes(candidates).len() == 1,
    ensures
        exists|i: int| #[trigger]
            only_match(candidates, i) && candidates[i] == matching_remotes(candidates)[0],
    decreases candidates.len(),
{
    reveal(Seq::filter);
    let rest = candidates.drop_last();
    let last = candidates.len() - 1;
    assert(forall|j: int| 0 <= j < rest.len() ==> #[trigger] rest[j] == candidates[j]);
    if candidates.last().is_match {
        lemma_none_matches(rest);
        assert forall|j: int| 0 <= j < candidates.len() && j != last implies !(
        #[trigger] candidates[j]).is_match by {
            assert(!rest[j].is_match);
        }
        assert(only_match(candidates, last));
    } else {
        lemma_one_matches(rest);
        let i = choose|i: int| #[trigger]
            only_match(rest, i) && rest[i] == matching_remotes(rest)[0];
        assert forall|j: int| 0 <= j < candidates.len() && j != i implies !(
        #[trigger] candidates[j]).is_match by {
            if j < last {
                assert(!rest[j].is_match);
            }
        }
        assert(only_match(candidates, i));
    }
}

} // verus!
