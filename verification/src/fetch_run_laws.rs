//! What a fetch has done by the time that it asks for a change, and in which order.

use vstd::prelude::*;

use crate::fetch::fetched_ref_updates;
use crate::fetch::FetchReplyView;
use crate::fetch::FetchStepView;
use crate::fetch::FetchTxView;
use crate::fetch::FetchedRefUpdateView;
use crate::fetch::GitRefFetchArgsView;
use crate::fetch_laws::all_done;
use crate::fetch_laws::all_possible;
use crate::fetch_laws::created_at;
use crate::fetch_laws::done_at;
use crate::fetch_laws::fetch_run;
use crate::fetch_laws::law_fetch_success;
use crate::fetch_laws::law_refs_are_what_was_imported;
use crate::fetch_laws::was_created;
use crate::fetch_laws::was_done;
use crate::fetch_step_laws::law_bookmark_needs_leave;
use crate::fetch_step_laws::law_ref_updates;
use crate::names::NameView;
use crate::text::joined;

verus! {

/// Whether `updates` record every source that a commit of `tx` was imported for, each under its
/// own name, as pointing to that commit and to nothing else.
pub open spec fn records_sources(
    args: GitRefFetchArgsView,
    tx: FetchTxView,
    updates: Seq<FetchedRefUpdateView>,
) -> bool {
    &&& updates.len() == tx.commits.len()
    &&& forall|i: int|
        0 <= i < updates.len() ==> {
            &&& (#[trigger] updates[i]).ref_name == args.sources[i]
            &&& updates[i].target == seq![Some(tx.commits[i])]
        }
}

/// The refs that a fetch records are its sources, all of them that a commit was fetched for and
/// in their order, and each points to the commit that was imported in its place.
pub proof fn law_refs_are_recorded_under_their_sources<E>(
    args: GitRefFetchArgsView,
    replies: Seq<FetchReplyView<E>>,
)
    requires
        all_possible(args, replies),
    ensures
        fetch_run(args, replies) matches FetchStepView::RecordRefs { tx, updates } ==> {
            &&& updates.len() == tx.commits.len()
            &&& updates.len() == args.sources.len() || updates.len() == tx.ids.len()
            &&& updates.len() <= args.sources.len()
            &&& updates.len() <= tx.ids.len()
            &&& forall|i: int|
                0 <= i < updates.len() ==> {
                    &&& (#[trigger] updates[i]).ref_name == args.sources[i]
                    &&& updates[i].target.len() == 1
                    &&& updates[i].target[0] == Some(tx.commits[i])
                }
        },
{
    law_refs_are_what_was_imported(args, replies);
    if let FetchStepView::RecordRefs { tx, updates: _ } = fetch_run(args, replies) {
        law_ref_updates(args.sources, tx.commits);
    }
}

/// Whether the bookmark was found absent at `k`, or at the commit that `tx` fetched.
pub open spec fn found_free_at<E>(
    args: GitRefFetchArgsView,
    replies: Seq<FetchReplyView<E>>,
    k: int,
    tx: FetchTxView,
    bookmark: NameView,
) -> bool {
    &&& 0 <= k < replies.len()
    &&& fetch_run(args, replies.take(k)) == (FetchStepView::<E>::ReadBookmark { tx, bookmark })
    &&& replies[k] == FetchReplyView::<E>::Bookmark(seq![None]) || replies[k]
        == FetchReplyView::<E>::Bookmark(seq![Some(tx.commits[0])])
}

/// Whether the bookmark was found absent, or at the commit that `tx` fetched.
pub open spec fn found_free<E>(
    args: GitRefFetchArgsView,
    replies: Seq<FetchReplyView<E>>,
    tx: FetchTxView,
    bookmark: NameView,
) -> bool {
    exists|k: int| found_free_at(args, replies, k, tx, bookmark)
}

/// A bookmark is set without leave to move only if it was found absent, or at the very commit
/// that was fetched and in no conflict, whatever else the user asks for.
pub proof fn law_bookmark_moves_by_leave_alone<E>(
    args: GitRefFetchArgsView,
    replies: Seq<FetchReplyView<E>>,
)
    requires
        !args.replace,
    ensures
        fetch_run(args, replies) matches FetchStepView::SetBookmark { tx, bookmark, target } ==> {
            &&& found_free(args, replies, tx, bookmark)
            &&& target == seq![Some(tx.commits[0])]
        },
    decreases replies.len(),
{
    if replies.len() > 0 {
        let before = replies.drop_last();
        let last = replies.len() - 1;
        law_bookmark_moves_by_leave_alone(args, before);
        assert(replies.take(last) =~= before);
        if let FetchStepView::SetBookmark { tx, bookmark, target: _ } = fetch_run(args, replies) {
            match (fetch_run(args, before), replies.last()) {
                (
                    FetchStepView::ReadBookmark { tx: _, bookmark: _ },
                    FetchReplyView::Bookmark(existing),
                ) => {
                    law_bookmark_needs_leave::<E>(args, tx, bookmark, existing);
                    assert(found_free_at(args, replies, last, tx, bookmark));
                },
                _ => {
                    let k = choose|k: int| found_free_at(args, before, k, tx, bookmark);
                    assert(before.take(k) =~= replies.take(k));
                    assert(found_free_at(args, replies, k, tx, bookmark));
                },
            }
        }
    }
}

/// A new commit is written only once the tree of the commit below it was merged, and that is
/// the commit that was fetched.
pub proof fn law_tree_is_merged_first<E>(
    args: GitRefFetchArgsView,
    replies: Seq<FetchReplyView<E>>,
)
    ensures
        fetch_run(args, replies) matches FetchStepView::MergeTrees { tx, commit } ==> commit
            == tx.commits[0] && args.new && !args.edit,
        fetch_run(args, replies) matches FetchStepView::CreateCommit { tx, parent } ==> {
            &&& parent == tx.commits[0]
            &&& args.new
            &&& !args.edit
            &&& was_done(args, replies, FetchStepView::MergeTrees { tx, commit: parent })
        },
    decreases replies.len(),
{
    if replies.len() > 0 {
        let before = replies.drop_last();
        let last = replies.len() - 1;
        law_tree_is_merged_first(args, before);
        assert(replies.take(last) =~= before);
        reveal(was_done);
        match fetch_run(args, replies) {
            FetchStepView::CreateCommit { tx, parent } => {
                let merge = FetchStepView::<E>::MergeTrees { tx, commit: parent };
                if fetch_run(args, before) is MergeTrees {
                    assert(done_at(args, replies, last, merge));
                } else {
                    let k = choose|k: int| done_at(args, before, k, merge);
                    assert(before.take(k) =~= replies.take(k));
                    assert(done_at(args, replies, k, merge));
                }
            },
            _ => {},
        }
    }
}

/// Whether the tree of the commit that `tx` fetched was merged at `m`, and a new commit was
/// written on that commit at `k`, and is `commit`.
pub open spec fn merged_and_created<E>(
    args: GitRefFetchArgsView,
    replies: Seq<FetchReplyView<E>>,
    m: int,
    k: int,
    tx: FetchTxView,
    commit: Seq<u8>,
) -> bool {
    &&& 0 <= m < k < replies.len()
    &&& fetch_run(args, replies.take(m)) == (FetchStepView::<E>::MergeTrees {
        tx,
        commit: tx.commits[0],
    })
    &&& replies[m] is Done
    &&& fetch_run(args, replies.take(k)) == (FetchStepView::<E>::CreateCommit {
        tx,
        parent: tx.commits[0],
    })
    &&& replies[k] == FetchReplyView::<E>::Commit(commit)
}

/// Whether a new commit was written in `tx` once the tree of the commit below it was merged, and
/// was then edited.
pub open spec fn new_commit_edited<E>(
    args: GitRefFetchArgsView,
    replies: Seq<FetchReplyView<E>>,
    tx: FetchTxView,
) -> bool {
    exists|m: int, k: int, commit: Seq<u8>| #[trigger]
        merged_and_created(args, replies, m, k, tx, commit) && was_done(
            args,
            replies,
            FetchStepView::Edit { tx, commit, created: true },
        )
}

/// Whether what the user asks for was done in `tx`, said step by step: the sources were
/// recorded, the bookmark was found free or may be moved and was set, the fetched commit was
/// found rewritable and edited or else a new commit on it was edited, and `tx` was finished.
pub open spec fn carried_out<E>(
    args: GitRefFetchArgsView,
    replies: Seq<FetchReplyView<E>>,
    tx: FetchTxView,
) -> bool {
    &&& exists|updates: Seq<FetchedRefUpdateView>| #[trigger]
        records_sources(args, tx, updates) && was_done(
            args,
            replies,
            FetchStepView::RecordRefs { tx, updates },
        )
    &&& args.bookmark matches Some(bookmark) ==> {
        &&& was_done(
            args,
            replies,
            FetchStepView::SetBookmark { tx, bookmark, target: seq![Some(tx.commits[0])] },
        )
        &&& args.replace || found_free(args, replies, tx, bookmark)
    }
    &&& args.edit ==> {
        &&& was_done(args, replies, FetchStepView::CheckRewritable { tx, commit: tx.commits[0] })
        &&& was_done(
            args,
            replies,
            FetchStepView::Edit { tx, commit: tx.commits[0], created: false },
        )
    }
    &&& args.new && !args.edit ==> new_commit_edited(args, replies, tx)
    &&& was_done(
        args,
        replies,
        FetchStepView::Finish {
            tx,
            description: "fetch refs or commit IDs "@ + joined(args.sources, ", "@)
                + " from git remote "@ + tx.remote.symbol,
        },
    )
}

proof fn lemma_bookmark_carried_out<E>(
    args: GitRefFetchArgsView,
    replies: Seq<FetchReplyView<E>>,
    tx: FetchTxView,
    bookmark: NameView,
)
    requires
        !args.replace,
        was_done(
            args,
            replies,
            FetchStepView::SetBookmark { tx, bookmark, target: seq![Some(tx.commits[0])] },
        ),
    ensures
        found_free(args, replies, tx, bookmark),
{
    reveal(was_done);
    let set = FetchStepView::<E>::SetBookmark {
        tx,
        bookmark,
        target: seq![Some(tx.commits[0])],
    };
    let n = choose|n: int| done_at(args, replies, n, set);
    law_bookmark_moves_by_leave_alone(args, replies.take(n));
    let k = choose|k: int| found_free_at(args, replies.take(n), k, tx, bookmark);
    assert(replies.take(n).take(k) =~= replies.take(k));
    assert(found_free_at(args, replies, k, tx, bookmark));
}

proof fn lemma_new_commit_carried_out<E>(
    args: GitRefFetchArgsView,
    replies: Seq<FetchReplyView<E>>,
    tx: FetchTxView,
    commit: Seq<u8>,
)
    requires
        was_created(args, replies, tx, commit),
        was_done(args, replies, FetchStepView::Edit { tx, commit, created: true }),
    ensures
        new_commit_edited(args, replies, tx),
{
    reveal(was_created);
    let k = choose|k: int| created_at(args, replies, k, tx, commit);
    law_tree_is_merged_first(args, replies.take(k));
    let merge = FetchStepView::<E>::MergeTrees { tx, commit: tx.commits[0] };
    let m = choose|m: int| done_at(args, replies.take(k), m, merge);
    assert(done_at(args, replies.take(k), m, merge)) by {
        reveal(was_done);
    }
    assert(replies.take(k).take(m) =~= replies.take(m));
    assert(merged_and_created(args, replies, m, k, tx, commit));
}

/// A fetch that succeeds has carried out what the user asks for, in one transaction that it then
/// finished. In particular, a new commit is there only with the merged tree of the fetched one.
pub proof fn law_fetch_success_step_by_step<E>(
    args: GitRefFetchArgsView,
    replies: Seq<FetchReplyView<E>>,
)
    requires
        all_possible(args, replies),
        fetch_run(args, replies) == FetchStepView::<E>::Finished(Ok(())),
    ensures
        exists|tx: FetchTxView| carried_out(args, replies, tx),
{
    law_fetch_success(args, replies);
    let tx = choose|tx: FetchTxView| all_done(args, replies, tx);
    let updates = fetched_ref_updates(args.sources, tx.commits);
    law_ref_updates(args.sources, tx.commits);
    assert(records_sources(args, tx, updates));
    if let Some(bookmark) = args.bookmark {
        if !args.replace {
            lemma_bookmark_carried_out(args, replies, tx, bookmark);
        }
    }
    if args.new && !args.edit {
        let commit = choose|commit: Seq<u8>|
            was_created(args, replies, tx, commit) && #[trigger] was_done(
                args,
                replies,
                FetchStepView::Edit { tx, commit, created: true },
            );
        lemma_new_commit_carried_out(args, replies, tx, commit);
    }
    assert(carried_out(args, replies, tx));
}

} // verus!
