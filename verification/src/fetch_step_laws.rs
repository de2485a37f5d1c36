//! What each step of a fetch comes to, said of the user's arguments and the reply alone.
//!
//! Every law here takes one step and all replies to it. Messages, status lines and the
//! description of the transaction are written out, and sources, commits and bookmarks are
//! followed from the arguments and replies to where they are used.

use vstd::prelude::*;

use crate::error::CommandErrorView;
use crate::fetch::bookmark_may_move;
use crate::fetch::default_fetch_remote_view;
use crate::fetch::do_fetch_view;
use crate::fetch::fetch_from_remote_view;
use crate::fetch::fetch_into_backend_view;
use crate::fetch::fetch_next;
use crate::fetch::fetch_reply_possible;
use crate::fetch::fetch_tx;
use crate::fetch::fetch_wf;
use crate::fetch::fetched_ref_updates;
use crate::fetch::import_next_view;
use crate::fetch::in_transaction;
use crate::fetch::matching_remotes;
use crate::fetch::move_bookmark_view;
use crate::fetch::update_working_copy_view;
use crate::fetch::FetchReplyView;
use crate::fetch::FetchStepView;
use crate::fetch::FetchTxView;
use crate::fetch::FetchedRefUpdateView;
use crate::fetch::GitRefFetchArgsView;
use crate::fetch::RemoteCandidateView;
use crate::names::NameView;
use crate::names::PieceView;
use crate::text::joined;

verus! {

/// A fetch of at least one source starts with a step that fits, and every reply can come but
/// one: that a fetch succeeded without a source or without a commit.
pub proof fn law_fetch_accepts<E>(args: GitRefFetchArgsView, reply: FetchReplyView<E>)
    ensures
        fetch_wf(args, FetchStepView::<E>::OpenWorkspace),
        !(reply is Fetched) ==> fetch_reply_possible(args, reply),
        reply matches FetchReplyView::Fetched { ids, boundary_changed: _ } ==> (
        fetch_reply_possible(args, reply) <==> ids is Err || ids->Ok_0.len() > 0
            && args.sources.len() > 0),
        args.has_single_target_option() <==> args.new || args.edit || args.bookmark is Some,
{
}

/// The transaction of a fetch has the steps from reading the settings to finishing it, and
/// knows what was fetched from the first import on.
pub proof fn law_fetch_transaction<E>(step: FetchStepView<E>)
    ensures
        match step {
            FetchStepView::OpenWorkspace
            | FetchStepView::DefaultRemotes
            | FetchStepView::ListRemotes
            | FetchStepView::FindBackend { .. }
            | FetchStepView::ReadDepth { .. }
            | FetchStepView::ReinitIndex { .. }
            | FetchStepView::Finished(_) => !in_transaction(step) && fetch_tx(step) is None,
            FetchStepView::LoadSettings { .. } | FetchStepView::Fetch { .. } => in_transaction(step)
                && fetch_tx(step) is None,
            FetchStepView::Import { tx, .. }
            | FetchStepView::ReportFetched { tx, .. }
            | FetchStepView::RecordRefs { tx, .. }
            | FetchStepView::ReadBookmark { tx, .. }
            | FetchStepView::SetBookmark { tx, .. }
            | FetchStepView::CheckRewritable { tx, .. }
            | FetchStepView::MergeTrees { tx, .. }
            | FetchStepView::CreateCommit { tx, .. }
            | FetchStepView::Edit { tx, .. }
            | FetchStepView::ReportCreated { tx, .. }
            | FetchStepView::Finish { tx, .. } => in_transaction(step) && fetch_tx(step) == Some(
                tx,
            ),
        },
{
}

/// There are as many commits to import as there are pairs of a source and a fetched commit.
pub proof fn law_import_count(args: GitRefFetchArgsView, tx: FetchTxView)
    ensures
        tx.count(args) <= args.sources.len(),
        tx.count(args) <= tx.ids.len(),
        tx.count(args) == args.sources.len() || tx.count(args) == tx.ids.len(),
        tx.complete(args) <==> tx.commits.len() == tx.count(args) && tx.commits.len() > 0,
{
}

/// A fetch opens the workspace, and then asks for the default remotes if and only if the user
/// names no remote.
pub proof fn law_fetch_opens<E>(args: GitRefFetchArgsView, reply: FetchReplyView<E>)
    ensures
        match reply {
            FetchReplyView::Done => match args.remote {
                Some(remote) => fetch_next(args, FetchStepView::OpenWorkspace, reply)
                    == fetch_from_remote_view::<E>(args, remote),
                None => fetch_next(args, FetchStepView::OpenWorkspace, reply) is DefaultRemotes,
            },
            FetchReplyView::Failed(e) => fetch_next(args, FetchStepView::OpenWorkspace, reply)
                == FetchStepView::<E>::Finished(Err(CommandErrorView::Outside(e))),
            _ => fetch_next(args, FetchStepView::OpenWorkspace, reply) is OpenWorkspace,
        },
        match reply {
            FetchReplyView::Done => fetch_next(
                args,
                FetchStepView::DefaultRemotes,
                reply,
            ) is ListRemotes,
            FetchReplyView::Failed(e) => fetch_next(args, FetchStepView::DefaultRemotes, reply)
                == FetchStepView::<E>::Finished(Err(CommandErrorView::Outside(e))),
            _ => fetch_next(args, FetchStepView::DefaultRemotes, reply) is DefaultRemotes,
        },
{
}

/// A request that makes sense of one commit only is refused if and only if there is not exactly
/// one source; any other goes on to the remote that was found.
pub proof fn law_fetch_single_target<E>(args: GitRefFetchArgsView, remote: NameView)
    ensures
        args.sources.len() == 1 || !args.new && !args.edit && args.bookmark is None
            ==> fetch_from_remote_view::<E>(args, remote) == (FetchStepView::<E>::FindBackend {
            remote,
        }),
        args.sources.len() != 1 && (args.new || args.edit || args.bookmark is Some)
            ==> fetch_from_remote_view::<E>(args, remote) == FetchStepView::<E>::Finished(
            Err(
                CommandErrorView::User {
                    message: "--new, --edit, and --bookmark require exactly one fetch target"@,
                    hint: None,
                },
            ),
        ),
{
}

proof fn lemma_no_match(candidates: Seq<RemoteCandidateView>)
    requires
        forall|i: int| 0 <= i < candidates.len() ==> !(#[trigger] candidates[i]).is_match,
    ensures
        matching_remotes(candidates).len() == 0,
    decreases candidates.len(),
{
    reveal(Seq::filter);
    if candidates.len() > 0 {
        let rest = candidates.drop_last();
        assert forall|i: int| 0 <= i < rest.len() implies !(#[trigger] rest[i]).is_match by {
            assert(rest[i] == candidates[i]);
        }
        lemma_no_match(rest);
        assert(!candidates[candidates.len() - 1].is_match);
    }
}

proof fn lemma_matches_count(candidates: Seq<RemoteCandidateView>, i: int)
    requires
        0 <= i < candidates.len(),
        candidates[i].is_match,
    ensures
        matching_remotes(candidates).len() >= 1,
    decreases candidates.len(),
{
    reveal(Seq::filter);
    if i < candidates.len() - 1 {
        lemma_matches_count(candidates.drop_last(), i);
    }
}

proof fn lemma_two_matches(candidates: Seq<RemoteCandidateView>, i: int, j: int)
    requires
        0 <= i < j < candidates.len(),
        candidates[i].is_match,
        candidates[j].is_match,
    ensures
        matching_remotes(candidates).len() >= 2,
    decreases candidates.len(),
{
    reveal(Seq::filter);
    let rest = candidates.drop_last();
    if j < candidates.len() - 1 {
        lemma_two_matches(rest, i, j);
    } else {
        lemma_matches_count(rest, i);
    }
}

/// Where no remote is fetched from by default, and where two are, there is no default remote,
/// and the error says which of the two it is.
pub proof fn law_no_default_remote<E>(
    candidates: Seq<RemoteCandidateView>,
    i: int,
    j: int,
)
    ensures
        (forall|k: int| 0 <= k < candidates.len() ==> !(#[trigger] candidates[k]).is_match)
            ==> default_fetch_remote_view::<E>(candidates) == Err::<NameView, CommandErrorView<E>>(
            CommandErrorView::User { message: "No git remotes to fetch from"@, hint: None },
        ),
        0 <= i < j < candidates.len() && candidates[i].is_match && candidates[j].is_match
            ==> default_fetch_remote_view::<E>(candidates) == Err::<NameView, CommandErrorView<E>>(
            CommandErrorView::User {
                message: "Default git fetch configuration matches multiple remotes"@,
                hint: Some("Use `--remote` to select one remote for `jj git ref fetch`."@),
            },
        ),
{
    if forall|k: int| 0 <= k < candidates.len() ==> !(#[trigger] candidates[k]).is_match {
        lemma_no_match(candidates);
    }
    if 0 <= i < j < candidates.len() && candidates[i].is_match && candidates[j].is_match {
        lemma_two_matches(candidates, i, j);
    }
}

/// The default remote among those that were listed is the one that is fetched from; where there
/// is none, the fetch ends with the error that says so.
pub proof fn law_fetch_takes_the_default_remote<E>(
    args: GitRefFetchArgsView,
    reply: FetchReplyView<E>,
)
    ensures
        match reply {
            FetchReplyView::Remotes(candidates) => match default_fetch_remote_view::<E>(
                candidates,
            ) {
                Ok(remote) => fetch_next(args, FetchStepView::ListRemotes, reply)
                    == fetch_from_remote_view::<E>(args, remote),
                Err(e) => fetch_next(args, FetchStepView::ListRemotes, reply)
                    == FetchStepView::<E>::Finished(Err(e)),
            },
            FetchReplyView::Failed(e) => fetch_next(args, FetchStepView::ListRemotes, reply)
                == FetchStepView::<E>::Finished(Err(CommandErrorView::Outside(e))),
            _ => fetch_next(args, FetchStepView::ListRemotes, reply) is ListRemotes,
        },
{
}

/// History is excluded in a shallow repository only: the request for it is refused elsewhere,
/// and nothing else is refused. What goes on is the user's depth.
pub proof fn law_fetch_shallow_exclude<E>(
    args: GitRefFetchArgsView,
    remote: NameView,
    is_shallow: bool,
)
    ensures
        is_shallow || args.shallow_exclude is None ==> fetch_into_backend_view::<E>(
            args,
            remote,
            is_shallow,
        ) == (FetchStepView::<E>::ReadDepth { remote, depth: args.depth }),
        !is_shallow && args.shallow_exclude is Some ==> fetch_into_backend_view::<E>(
            args,
            remote,
            is_shallow,
        ) == FetchStepView::<E>::Finished(
            Err(
                CommandErrorView::User {
                    message:
                        "--shallow-exclude is only supported in an existing shallow repository"@,
                    hint: None,
                },
            ),
        ),
{
}

/// Before the transaction, each reply is handed on as it came, with the same remote, and a
/// failure ends the fetch with that very failure.
pub proof fn law_fetch_prepares<E>(
    args: GitRefFetchArgsView,
    remote: NameView,
    depth: Option<u32>,
    reply: FetchReplyView<E>,
)
    ensures
        match reply {
            FetchReplyView::Backend { is_shallow } => fetch_next(
                args,
                FetchStepView::FindBackend { remote },
                reply,
            ) == fetch_into_backend_view::<E>(args, remote, is_shallow),
            FetchReplyView::Failed(e) => fetch_next(
                args,
                FetchStepView::FindBackend { remote },
                reply,
            ) == FetchStepView::<E>::Finished(Err(CommandErrorView::Outside(e))),
            _ => fetch_next(args, FetchStepView::FindBackend { remote }, reply) == (
            FetchStepView::<E>::FindBackend { remote }),
        },
        match reply {
            FetchReplyView::Depth(found) => fetch_next(
                args,
                FetchStepView::ReadDepth { remote, depth },
                reply,
            ) == (FetchStepView::<E>::LoadSettings { remote, depth: found }),
            FetchReplyView::Failed(e) => fetch_next(
                args,
                FetchStepView::ReadDepth { remote, depth },
                reply,
            ) == FetchStepView::<E>::Finished(Err(CommandErrorView::Outside(e))),
            _ => fetch_next(args, FetchStepView::ReadDepth { remote, depth }, reply) == (
            FetchStepView::<E>::ReadDepth { remote, depth }),
        },
{
}

/// What is fetched are all the user's sources, from the remote that was found, to the depth
/// that was found, without the history that the user excludes.
pub proof fn law_fetch_asks_for_the_sources<E>(
    args: GitRefFetchArgsView,
    remote: NameView,
    depth: Option<u32>,
    reply: FetchReplyView<E>,
)
    ensures
        match reply {
            FetchReplyView::Done => fetch_next(
                args,
                FetchStepView::LoadSettings { remote, depth },
                reply,
            ) == (FetchStepView::<E>::Fetch {
                remote,
                sources: args.sources,
                depth,
                shallow_exclude: args.shallow_exclude,
            }),
            FetchReplyView::Failed(e) => fetch_next(
                args,
                FetchStepView::LoadSettings { remote, depth },
                reply,
            ) == (FetchStepView::<E>::ReinitIndex {
                boundary_changed: false,
                outcome: Err(CommandErrorView::Outside(e)),
            }),
            _ => fetch_next(args, FetchStepView::LoadSettings { remote, depth }, reply) == (
            FetchStepView::<E>::LoadSettings { remote, depth }),
        },
{
}

/// The commits that a fetch brought are the ones to import, with none imported yet; a fetch that
/// failed ends in that failure, and the index learns what became of the boundary either way.
pub proof fn law_fetch_brings_commits<E>(
    args: GitRefFetchArgsView,
    remote: NameView,
    sources: Seq<Seq<char>>,
    depth: Option<u32>,
    shallow_exclude: Option<Seq<char>>,
    reply: FetchReplyView<E>,
)
    ensures
        ({
            let step = FetchStepView::<E>::Fetch { remote, sources, depth, shallow_exclude };
            match reply {
                FetchReplyView::Fetched { ids: Ok(ids), boundary_changed } => fetch_next(
                    args,
                    step,
                    reply,
                ) == import_next_view::<E>(
                    args,
                    FetchTxView { remote, boundary_changed, ids, commits: Seq::empty() },
                ),
                FetchReplyView::Fetched { ids: Err(e), boundary_changed } => fetch_next(
                    args,
                    step,
                    reply,
                ) == (FetchStepView::<E>::ReinitIndex {
                    boundary_changed,
                    outcome: Err(CommandErrorView::Outside(e)),
                }),
                _ => fetch_next(args, step, reply) == step,
            }
        }),
{
}

/// Commits are imported in the order in which they were fetched, each one exactly at its turn,
/// until every source that has a commit is seen to. Then each source is recorded as the commit
/// at its place.
pub proof fn law_import_in_order<E>(args: GitRefFetchArgsView, tx: FetchTxView)
    ensures
        tx.commits.len() < args.sources.len() && tx.commits.len() < tx.ids.len()
            ==> import_next_view::<E>(args, tx) == (FetchStepView::<E>::Import {
            tx,
            id: tx.ids[tx.commits.len() as int],
        }),
        tx.commits.len() >= args.sources.len() || tx.commits.len() >= tx.ids.len() ==> {
            let updates = import_next_view::<E>(args, tx)->RecordRefs_updates;
            &&& import_next_view::<E>(args, tx) is RecordRefs
            &&& import_next_view::<E>(args, tx)->RecordRefs_tx == tx
            &&& tx.commits.len() <= args.sources.len() ==> updates.len() == tx.commits.len()
            &&& forall|i: int|
                0 <= i < updates.len() ==> {
                    &&& (#[trigger] updates[i]).ref_name == args.sources[i]
                    &&& updates[i].target == seq![Some(tx.commits[i])]
                }
        },
{
}

/// An imported commit is added to those before it and reported under the name of its own source,
/// and nothing else of the transaction changes.
pub proof fn law_fetch_imports<E>(
    args: GitRefFetchArgsView,
    tx: FetchTxView,
    id: Seq<u8>,
    reply: FetchReplyView<E>,
)
    ensures
        ({
            let step = FetchStepView::<E>::Import { tx, id };
            let next = fetch_next(args, step, reply);
            match reply {
                FetchReplyView::Commit(commit) => {
                    &&& next is ReportFetched
                    &&& next->ReportFetched_tx.remote == tx.remote
                    &&& next->ReportFetched_tx.boundary_changed == tx.boundary_changed
                    &&& next->ReportFetched_tx.ids == tx.ids
                    &&& next->ReportFetched_tx.commits.len() == tx.commits.len() + 1
                    &&& next->ReportFetched_tx.commits.last() == commit
                    &&& forall|i: int|
                        0 <= i < tx.commits.len() ==> next->ReportFetched_tx.commits[i]
                            == tx.commits[i]
                    &&& next->ReportFetched_pieces == seq![
                        PieceView::Text(
                            "Fetched "@ + args.sources[tx.commits.len() as int] + " as "@,
                        ),
                        PieceView::Summary(commit),
                        PieceView::Text("\n"@),
                    ]
                },
                FetchReplyView::Failed(e) => next == (FetchStepView::<E>::ReinitIndex {
                    boundary_changed: tx.boundary_changed,
                    outcome: Err(CommandErrorView::Outside(e)),
                }),
                _ => next == step,
            }
        }),
{
}

/// With one commit reported, the next is imported.
pub proof fn law_fetch_reports<E>(
    args: GitRefFetchArgsView,
    tx: FetchTxView,
    pieces: Seq<PieceView>,
    reply: FetchReplyView<E>,
)
    ensures
        match reply {
            FetchReplyView::Done => fetch_next(
                args,
                FetchStepView::ReportFetched { tx, pieces },
                reply,
            ) == import_next_view::<E>(args, tx),
            FetchReplyView::Failed(e) => fetch_next(
                args,
                FetchStepView::ReportFetched { tx, pieces },
                reply,
            ) == (FetchStepView::<E>::ReinitIndex {
                boundary_changed: tx.boundary_changed,
                outcome: Err(CommandErrorView::Outside(e)),
            }),
            _ => fetch_next(args, FetchStepView::ReportFetched { tx, pieces }, reply) == (
            FetchStepView::<E>::ReportFetched { tx, pieces }),
        },
{
}

/// Every source that a commit was imported for is recorded under its own name, as pointing to
/// that commit and to nothing else.
pub proof fn law_ref_updates(sources: Seq<Seq<char>>, commits: Seq<Seq<u8>>)
    ensures
        ({
            let updates = fetched_ref_updates(sources, commits);
            &&& updates.len() <= sources.len()
            &&& updates.len() <= commits.len()
            &&& updates.len() == sources.len() || updates.len() == commits.len()
            &&& forall|i: int|
                0 <= i < updates.len() ==> {
                    &&& (#[trigger] updates[i]).ref_name == sources[i]
                    &&& updates[i].target.len() == 1
                    &&& updates[i].target[0] == Some(commits[i])
                }
        }),
{
}

/// Recording two lists of sources one after the other is recording both at once: what is
/// recorded of one source has nothing to do with the others.
pub proof fn law_ref_updates_are_independent(
    sources: Seq<Seq<char>>,
    commits: Seq<Seq<u8>>,
    more_sources: Seq<Seq<char>>,
    more_commits: Seq<Seq<u8>>,
)
    requires
        sources.len() == commits.len(),
    ensures
        fetched_ref_updates(sources + more_sources, commits + more_commits) == fetched_ref_updates(
            sources,
            commits,
        ) + fetched_ref_updates(more_sources, more_commits),
{
    assert(fetched_ref_updates(sources + more_sources, commits + more_commits)
        =~= fetched_ref_updates(sources, commits) + fetched_ref_updates(
        more_sources,
        more_commits,
    ));
}

/// With the refs recorded, the bookmark is looked up if and only if the user names one.
/// Recording cannot fail.
pub proof fn law_fetch_records<E>(
    args: GitRefFetchArgsView,
    tx: FetchTxView,
    updates: Seq<FetchedRefUpdateView>,
    reply: FetchReplyView<E>,
)
    ensures
        match reply {
            FetchReplyView::Done => match args.bookmark {
                Some(bookmark) => fetch_next(
                    args,
                    FetchStepView::RecordRefs { tx, updates },
                    reply,
                ) == (FetchStepView::<E>::ReadBookmark { tx, bookmark }),
                None => fetch_next(args, FetchStepView::RecordRefs { tx, updates }, reply)
                    == update_working_copy_view::<E>(args, tx),
            },
            _ => fetch_next(args, FetchStepView::RecordRefs { tx, updates }, reply) == (
            FetchStepView::<E>::RecordRefs { tx, updates }),
        },
{
}

/// A bookmark that is absent, or at the fetched commit and nowhere else, may be set without
/// leave; any other needs it. No other option stands in for that leave.
pub proof fn law_bookmark_may_move(
    args: GitRefFetchArgsView,
    existing: Seq<Option<Seq<u8>>>,
    commit: Seq<u8>,
)
    ensures
        bookmark_may_move(args, existing, commit) <==> args.replace || existing == seq![
            None::<Seq<u8>>,
        ] || existing == seq![Some(commit)],
{
    if existing == seq![Some(commit)] {
        assert(existing.len() == 1 && existing[0] == Some(commit));
    }
    if existing.len() == 1 && existing[0] == Some(commit) {
        assert(existing =~= seq![Some(commit)]);
    }
}

/// A bookmark that is at another commit or in conflict is not moved without leave, whatever else
/// the user asks for: the index is seen to and the fetch ends with an error that names the
/// bookmark and the way out. In every other case the bookmark is set to the fetched commit.
pub proof fn law_bookmark_needs_leave<E>(
    args: GitRefFetchArgsView,
    tx: FetchTxView,
    bookmark: NameView,
    existing: Seq<Option<Seq<u8>>>,
)
    ensures
        !args.replace && existing != seq![None::<Seq<u8>>] && existing != seq![
            Some(tx.commits[0]),
        ] ==> move_bookmark_view::<E>(args, tx, bookmark, existing) == (FetchStepView::<
            E,
        >::ReinitIndex {
            boundary_changed: tx.boundary_changed,
            outcome: Err(
                CommandErrorView::User {
                    message: "Bookmark already exists: "@ + bookmark.symbol,
                    hint: Some("Use --replace to move it to the fetched ref."@),
                },
            ),
        }),
        args.replace || existing == seq![None::<Seq<u8>>] || existing == seq![Some(tx.commits[0])]
            ==> move_bookmark_view::<E>(args, tx, bookmark, existing) == (FetchStepView::<
            E,
        >::SetBookmark { tx, bookmark, target: seq![Some(tx.commits[0])] }),
{
    law_bookmark_may_move(args, existing, tx.commits[0]);
}

/// The bookmark that was looked up is the one that is set, for what it was found at. Neither
/// looking it up nor setting it can fail.
pub proof fn law_fetch_sets_the_bookmark<E>(
    args: GitRefFetchArgsView,
    tx: FetchTxView,
    bookmark: NameView,
    target: Seq<Option<Seq<u8>>>,
    reply: FetchReplyView<E>,
)
    ensures
        match reply {
            FetchReplyView::Bookmark(existing) => fetch_next(
                args,
                FetchStepView::ReadBookmark { tx, bookmark },
                reply,
            ) == move_bookmark_view::<E>(args, tx, bookmark, existing),
            _ => fetch_next(args, FetchStepView::ReadBookmark { tx, bookmark }, reply) == (
            FetchStepView::<E>::ReadBookmark { tx, bookmark }),
        },
        match reply {
            FetchReplyView::Done => fetch_next(
                args,
                FetchStepView::SetBookmark { tx, bookmark, target },
                reply,
            ) == update_working_copy_view::<E>(args, tx),
            _ => fetch_next(args, FetchStepView::SetBookmark { tx, bookmark, target }, reply) == (
            FetchStepView::<E>::SetBookmark { tx, bookmark, target }),
        },
{
}

/// The working copy goes to the fetched commit itself under `edit`, which first has to be
/// rewritable; to a new commit on it under `new`, whose tree is merged first; and else stays.
/// The bookmark has no say in it.
pub proof fn law_working_copy_choice<E>(args: GitRefFetchArgsView, tx: FetchTxView)
    ensures
        args.edit ==> update_working_copy_view::<E>(args, tx) == (FetchStepView::<
            E,
        >::CheckRewritable { tx, commit: tx.commits[0] }),
        args.new && !args.edit ==> update_working_copy_view::<E>(args, tx) == (FetchStepView::<
            E,
        >::MergeTrees { tx, commit: tx.commits[0] }),
        !args.new && !args.edit ==> update_working_copy_view::<E>(args, tx) == (FetchStepView::<
            E,
        >::Finish {
            tx,
            description: "fetch refs or commit IDs "@ + joined(args.sources, ", "@)
                + " from git remote "@ + tx.remote.symbol,
        }),
{
}

/// A commit that may be rewritten is edited; a tree that was merged becomes that of a new commit
/// on the same one; and the new commit is edited, and known to be new.
pub proof fn law_fetch_moves_the_working_copy<E>(
    args: GitRefFetchArgsView,
    tx: FetchTxView,
    commit: Seq<u8>,
    reply: FetchReplyView<E>,
)
    ensures
        match reply {
            FetchReplyView::Done => fetch_next(
                args,
                FetchStepView::CheckRewritable { tx, commit },
                reply,
            ) == (FetchStepView::<E>::Edit { tx, commit, created: false }),
            FetchReplyView::Failed(e) => fetch_next(
                args,
                FetchStepView::CheckRewritable { tx, commit },
                reply,
            ) == (FetchStepView::<E>::ReinitIndex {
                boundary_changed: tx.boundary_changed,
                outcome: Err(CommandErrorView::Outside(e)),
            }),
            _ => fetch_next(args, FetchStepView::CheckRewritable { tx, commit }, reply) == (
            FetchStepView::<E>::CheckRewritable { tx, commit }),
        },
        match reply {
            FetchReplyView::Done => fetch_next(
                args,
                FetchStepView::MergeTrees { tx, commit },
                reply,
            ) == (FetchStepView::<E>::CreateCommit { tx, parent: commit }),
            FetchReplyView::Failed(e) => fetch_next(
                args,
                FetchStepView::MergeTrees { tx, commit },
                reply,
            ) == (FetchStepView::<E>::ReinitIndex {
                boundary_changed: tx.boundary_changed,
                outcome: Err(CommandErrorView::Outside(e)),
            }),
            _ => fetch_next(args, FetchStepView::MergeTrees { tx, commit }, reply) == (
            FetchStepView::<E>::MergeTrees { tx, commit }),
        },
        match reply {
            FetchReplyView::Commit(new) => fetch_next(
                args,
                FetchStepView::CreateCommit { tx, parent: commit },
                reply,
            ) == (FetchStepView::<E>::Edit { tx, commit: new, created: true }),
            FetchReplyView::Failed(e) => fetch_next(
                args,
                FetchStepView::CreateCommit { tx, parent: commit },
                reply,
            ) == (FetchStepView::<E>::ReinitIndex {
                boundary_changed: tx.boundary_changed,
                outcome: Err(CommandErrorView::Outside(e)),
            }),
            _ => fetch_next(args, FetchStepView::CreateCommit { tx, parent: commit }, reply) == (
            FetchStepView::<E>::CreateCommit { tx, parent: commit }),
        },
{
}

/// A new commit that is edited is reported, and then the transaction is finished; an old one is
/// not reported. The description names all sources and the remote.
pub proof fn law_fetch_edits<E>(
    args: GitRefFetchArgsView,
    tx: FetchTxView,
    commit: Seq<u8>,
    created: bool,
    pieces: Seq<PieceView>,
    reply: FetchReplyView<E>,
)
    ensures
        match reply {
            FetchReplyView::Done => if created {
                fetch_next(args, FetchStepView::Edit { tx, commit, created }, reply) == (
                FetchStepView::<E>::ReportCreated {
                    tx,
                    pieces: seq![
                        PieceView::Text("Created new commit "@),
                        PieceView::Summary(commit),
                        PieceView::Text("\n"@),
                    ],
                })
            } else {
                fetch_next(args, FetchStepView::Edit { tx, commit, created }, reply) == (
                FetchStepView::<E>::Finish {
                    tx,
                    description: "fetch refs or commit IDs "@ + joined(args.sources, ", "@)
                        + " from git remote "@ + tx.remote.symbol,
                })
            },
            FetchReplyView::Failed(e) => fetch_next(
                args,
                FetchStepView::Edit { tx, commit, created },
                reply,
            ) == (FetchStepView::<E>::ReinitIndex {
                boundary_changed: tx.boundary_changed,
                outcome: Err(CommandErrorView::Outside(e)),
            }),
            _ => fetch_next(args, FetchStepView::Edit { tx, commit, created }, reply) == (
            FetchStepView::<E>::Edit { tx, commit, created }),
        },
        match reply {
            FetchReplyView::Done => fetch_next(
                args,
                FetchStepView::ReportCreated { tx, pieces },
                reply,
            ) == (FetchStepView::<E>::Finish {
                tx,
                description: "fetch refs or commit IDs "@ + joined(args.sources, ", "@)
                    + " from git remote "@ + tx.remote.symbol,
            }),
            FetchReplyView::Failed(e) => fetch_next(
                args,
                FetchStepView::ReportCreated { tx, pieces },
                reply,
            ) == (FetchStepView::<E>::ReinitIndex {
                boundary_changed: tx.boundary_changed,
                outcome: Err(CommandErrorView::Outside(e)),
            }),
            _ => fetch_next(args, FetchStepView::ReportCreated { tx, pieces }, reply) == (
            FetchStepView::<E>::ReportCreated { tx, pieces }),
        },
{
}

/// A transaction that is finished has gone well, and the index is told what became of the
/// boundary. The index has no say in an outcome that is an error, and a fetch that has ended
/// stays as it ended.
pub proof fn law_fetch_ends<E>(
    args: GitRefFetchArgsView,
    tx: FetchTxView,
    description: Seq<char>,
    boundary_changed: bool,
    outcome: Result<(), CommandErrorView<E>>,
    reply: FetchReplyView<E>,
)
    ensures
        match reply {
            FetchReplyView::Done => fetch_next(
                args,
                FetchStepView::Finish { tx, description },
                reply,
            ) == (FetchStepView::<E>::ReinitIndex {
                boundary_changed: tx.boundary_changed,
                outcome: Ok(()),
            }),
            FetchReplyView::Failed(e) => fetch_next(
                args,
                FetchStepView::Finish { tx, description },
                reply,
            ) == (FetchStepView::<E>::ReinitIndex {
                boundary_changed: tx.boundary_changed,
                outcome: Err(CommandErrorView::Outside(e)),
            }),
            _ => fetch_next(args, FetchStepView::Finish { tx, description }, reply) == (
            FetchStepView::<E>::Finish { tx, description }),
        },
        !(reply is Done) && !(reply is Failed) ==> fetch_next(
            args,
            FetchStepView::ReinitIndex { boundary_changed, outcome },
            reply,
        ) == (FetchStepView::<E>::ReinitIndex { boundary_changed, outcome }),
        reply is Done || outcome is Err && reply is Failed ==> fetch_next(
            args,
            FetchStepView::ReinitIndex { boundary_changed, outcome },
            reply,
        ) == FetchStepView::<E>::Finished(outcome),
        outcome is Ok && reply is Failed ==> fetch_next(
            args,
            FetchStepView::ReinitIndex { boundary_changed, outcome },
            reply,
        ) == FetchStepView::<E>::Finished(Err(CommandErrorView::Outside(reply->Failed_0))),
        fetch_next(args, FetchStepView::Finished(outcome), reply) == FetchStepView::<E>::Finished(
            outcome,
        ),
{
}

/// The fetch itself is part of the whole: from the settings to the last report, what it makes of
/// a reply is what the whole fetch makes of it, and it leaves every other step as it is.
pub proof fn law_do_fetch<E>(
    args: GitRefFetchArgsView,
    step: FetchStepView<E>,
    reply: FetchReplyView<E>,
)
    ensures
        step is LoadSettings && reply is Done ==> do_fetch_view(args, step, reply) == fetch_next(
            args,
            step,
            reply,
        ),
        step is Fetch && reply is Fetched ==> do_fetch_view(args, step, reply) == fetch_next(
            args,
            step,
            reply,
        ),
        step is Import && reply is Commit ==> do_fetch_view(args, step, reply) == fetch_next(
            args,
            step,
            reply,
        ),
        step is ReportFetched && reply is Done ==> do_fetch_view(args, step, reply) == fetch_next(
            args,
            step,
            reply,
        ),
        !(step is LoadSettings) && !(step is Fetch) && !(step is Import) && !(step is ReportFetched)
            ==> do_fetch_view(args, step, reply) == step,
{
}

} // verus!
