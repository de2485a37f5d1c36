//! `fetch`: raw refs or commits come from a remote.
//!
//! A fetch is a sequence of [`FetchStep`]s. Each step names one piece of work that has to be
//! done outside; [`cmd_git_ref_fetch`] takes the reply and gives the next step. The steps from
//! [`FetchStep::LoadSettings`] to [`FetchStep::Finish`] belong to one transaction.

use vstd::prelude::*;

use crate::error::outcome_view;
use crate::error::user_error;
use crate::error::user_error_view;
use crate::error::user_error_with_hint;
use crate::error::CommandError;
use crate::error::CommandErrorView;
use crate::ids::commit_ids;
use crate::ids::CommitId;
use crate::names::make_summary_line;
use crate::names::opt_name;
use crate::names::pieces_view;
use crate::names::summary_line;
use crate::names::Name;
use crate::names::NameView;
use crate::names::Piece;
use crate::names::PieceView;
use crate::target::normal_target;
use crate::target::target_as_normal;
use crate::target::target_is_present;
use crate::target::RefTarget;
use crate::text::clone_opt_string;
use crate::text::clone_strings;
use crate::text::join;
use crate::text::joined;
use crate::text::opt_string;
use crate::text::strings;

verus! {

/// What the user asks of a fetch.
#[derive(Debug, PartialEq, Eq)]
pub struct GitRefFetchArgs {
    /// The remote to fetch from, if not the default one.
    pub remote: Option<Name>,
    /// The remote refs or full commit IDs to fetch; there is at least one.
    pub sources: Vec<String>,
    /// Create and edit a new empty commit on the fetched one.
    pub new: bool,
    /// Edit the fetched commit itself.
    pub edit: bool,
    /// The local bookmark to set to the fetched commit.
    pub bookmark: Option<Name>,
    /// Allow `bookmark` to move an existing bookmark.
    pub replace: bool,
    /// The number of commits to fetch from each target.
    pub depth: Option<u32>,
    /// Fetch the stack after this ref, plus one parent generation.
    pub shallow_exclude: Option<String>,
}

/// [`GitRefFetchArgs`] with its texts as sequences of characters.
pub struct GitRefFetchArgsView {
    pub remote: Option<NameView>,
    pub sources: Seq<Seq<char>>,
    pub new: bool,
    pub edit: bool,
    pub bookmark: Option<NameView>,
    pub replace: bool,
    pub depth: Option<u32>,
    pub shallow_exclude: Option<Seq<char>>,
}

impl View for GitRefFetchArgs {
    type V = GitRefFetchArgsView;

    open spec fn view(&self) -> GitRefFetchArgsView {
        GitRefFetchArgsView {
            remote: opt_name(self.remote),
            sources: strings(self.sources@),
            new: self.new,
            edit: self.edit,
            bookmark: opt_name(self.bookmark),
            replace: self.replace,
            depth: self.depth,
            shallow_exclude: opt_string(self.shallow_exclude),
        }
    }
}

impl GitRefFetchArgsView {
    /// Whether the user asks for something that makes sense of one commit only.
    pub open spec fn has_single_target_option(self) -> bool {
        self.new || self.edit || self.bookmark is Some
    }
}

/// A remote of the repository, and whether the default fetch configuration matches its name.
#[derive(Debug, PartialEq, Eq)]
pub struct RemoteCandidate {
    pub remote: Name,
    pub is_match: bool,
}

/// [`RemoteCandidate`] with its texts as sequences of characters.
pub struct RemoteCandidateView {
    pub remote: NameView,
    pub is_match: bool,
}

impl View for RemoteCandidate {
    type V = RemoteCandidateView;

    open spec fn view(&self) -> RemoteCandidateView {
        RemoteCandidateView { remote: self.remote@, is_match: self.is_match }
    }
}

/// The candidates of a list.
pub open spec fn candidates_view(list: Seq<RemoteCandidate>) -> Seq<RemoteCandidateView> {
    list.map_values(|c: RemoteCandidate| c@)
}

/// A fetched ref and what it points to from now on.
#[derive(Debug, PartialEq, Eq)]
pub struct FetchedRefUpdate {
    pub ref_name: String,
    pub target: RefTarget,
}

/// [`FetchedRefUpdate`] over the views of what it holds.
pub struct FetchedRefUpdateView {
    pub ref_name: Seq<char>,
    pub target: Seq<Option<Seq<u8>>>,
}

impl View for FetchedRefUpdate {
    type V = FetchedRefUpdateView;

    open spec fn view(&self) -> FetchedRefUpdateView {
        FetchedRefUpdateView { ref_name: self.ref_name@, target: self.target@ }
    }
}

/// The updates of a list.
pub open spec fn updates_view(list: Seq<FetchedRefUpdate>) -> Seq<FetchedRefUpdateView> {
    list.map_values(|u: FetchedRefUpdate| u@)
}

/// How far a fetch has come within its transaction.
#[derive(Debug, PartialEq, Eq)]
pub struct FetchTx {
    /// The remote that was fetched from.
    pub remote: Name,
    /// Whether the fetch has moved the shallow boundary of the repository.
    pub boundary_changed: bool,
    /// The fetched commits, one for each source.
    pub ids: Vec<CommitId>,
    /// Those of them that are imported.
    pub commits: Vec<CommitId>,
}

/// [`FetchTx`] over the views of what it holds.
pub struct FetchTxView {
    pub remote: NameView,
    pub boundary_changed: bool,
    pub ids: Seq<Seq<u8>>,
    pub commits: Seq<Seq<u8>>,
}

impl View for FetchTx {
    type V = FetchTxView;

    open spec fn view(&self) -> FetchTxView {
        FetchTxView {
            remote: self.remote@,
            boundary_changed: self.boundary_changed,
            ids: commit_ids(self.ids@),
            commits: commit_ids(self.commits@),
        }
    }
}

impl FetchTxView {
    /// The number of commits to import: sources and fetched commits are taken in pairs.
    pub open spec fn count(self, args: GitRefFetchArgsView) -> nat {
        if args.sources.len() <= self.ids.len() {
            args.sources.len()
        } else {
            self.ids.len()
        }
    }

    /// Whether all commits are imported, and there is one.
    pub open spec fn complete(self, args: GitRefFetchArgsView) -> bool {
        0 < self.commits.len() == self.count(args)
    }
}

/// The work that a fetch asks for next.
#[derive(Debug, PartialEq, Eq)]
pub enum FetchStep<E> {
    /// Open the workspace.
    OpenWorkspace,
    /// Read which remotes are fetched from by default.
    DefaultRemotes,
    /// List the remotes, and say which of them are fetched from by default.
    ListRemotes,
    /// Find the Git repository, and whether it is shallow.
    FindBackend { remote: Name },
    /// Read the depth to fetch to, given the depth that the user asks for.
    ReadDepth { remote: Name, depth: Option<u32> },
    /// Start a transaction, and read the Git settings.
    LoadSettings { remote: Name, depth: Option<u32> },
    /// Fetch `sources` from `remote`.
    Fetch {
        remote: Name,
        sources: Vec<String>,
        depth: Option<u32>,
        shallow_exclude: Option<String>,
    },
    /// Import the fetched commit `id`.
    Import { tx: FetchTx, id: CommitId },
    /// Write a status line about the imported commit.
    ReportFetched { tx: FetchTx, pieces: Vec<Piece> },
    /// Record what the fetched refs of the remote point to.
    RecordRefs { tx: FetchTx, updates: Vec<FetchedRefUpdate> },
    /// Look up the target of a local bookmark.
    ReadBookmark { tx: FetchTx, bookmark: Name },
    /// Set the target of a local bookmark.
    SetBookmark { tx: FetchTx, bookmark: Name, target: RefTarget },
    /// Make sure that `commit` may be rewritten.
    CheckRewritable { tx: FetchTx, commit: CommitId },
    /// Merge the trees of `commit`.
    MergeTrees { tx: FetchTx, commit: CommitId },
    /// Write a new commit on `parent` with the merged tree.
    CreateCommit { tx: FetchTx, parent: CommitId },
    /// Edit `commit`; `created` says that it is the new one.
    Edit { tx: FetchTx, commit: CommitId, created: bool },
    /// Write a status line about the new commit.
    ReportCreated { tx: FetchTx, pieces: Vec<Piece> },
    /// Finish the transaction.
    Finish { tx: FetchTx, description: String },
    /// Rebuild the index if the shallow boundary has changed. `outcome` is how the
    /// transaction ended.
    ReinitIndex { boundary_changed: bool, outcome: Result<(), CommandError<E>> },
    /// Nothing more: the fetch has ended.
    Finished(Result<(), CommandError<E>>),
}

/// [`FetchStep`] over the views of what it holds.
pub enum FetchStepView<E> {
    OpenWorkspace,
    DefaultRemotes,
    ListRemotes,
    FindBackend { remote: NameView },
    ReadDepth { remote: NameView, depth: Option<u32> },
    LoadSettings { remote: NameView, depth: Option<u32> },
    Fetch {
        remote: NameView,
        sources: Seq<Seq<char>>,
        depth: Option<u32>,
        shallow_exclude: Option<Seq<char>>,
    },
    Import { tx: FetchTxView, id: Seq<u8> },
    ReportFetched { tx: FetchTxView, pieces: Seq<PieceView> },
    RecordRefs { tx: FetchTxView, updates: Seq<FetchedRefUpdateView> },
    ReadBookmark { tx: FetchTxView, bookmark: NameView },
    SetBookmark { tx: FetchTxView, bookmark: NameView, target: Seq<Option<Seq<u8>>> },
    CheckRewritable { tx: FetchTxView, commit: Seq<u8> },
    MergeTrees { tx: FetchTxView, commit: Seq<u8> },
    CreateCommit { tx: FetchTxView, parent: Seq<u8> },
    Edit { tx: FetchTxView, commit: Seq<u8>, created: bool },
    ReportCreated { tx: FetchTxView, pieces: Seq<PieceView> },
    Finish { tx: FetchTxView, description: Seq<char> },
    ReinitIndex { boundary_changed: bool, outcome: Result<(), CommandErrorView<E>> },
    Finished(Result<(), CommandErrorView<E>>),
}

impl<E> View for FetchStep<E> {
    type V = FetchStepView<E>;

    open spec fn view(&self) -> FetchStepView<E> {
        match *self {
            FetchStep::OpenWorkspace => FetchStepView::OpenWorkspace,
            FetchStep::DefaultRemotes => FetchStepView::DefaultRemotes,
            FetchStep::ListRemotes => FetchStepView::ListRemotes,
            FetchStep::FindBackend { remote } => FetchStepView::FindBackend { remote: remote@ },
            FetchStep::ReadDepth { remote, depth } => FetchStepView::ReadDepth {
                remote: remote@,
                depth,
            },
            FetchStep::LoadSettings { remote, depth } => FetchStepView::LoadSettings {
                remote: remote@,
                depth,
            },
            FetchStep::Fetch { remote, sources, depth, shallow_exclude } => FetchStepView::Fetch {
                remote: remote@,
                sources: strings(sources@),
                depth,
                shallow_exclude: opt_string(shallow_exclude),
            },
            FetchStep::Import { tx, id } => FetchStepView::Import { tx: tx@, id: id@ },
            FetchStep::ReportFetched { tx, pieces } => FetchStepView::ReportFetched {
                tx: tx@,
                pieces: pieces_view(pieces@),
            },
            FetchStep::RecordRefs { tx, updates } => FetchStepView::RecordRefs {
                tx: tx@,
                updates: updates_view(updates@),
            },
            FetchStep::ReadBookmark { tx, bookmark } => FetchStepView::ReadBookmark {
                tx: tx@,
                bookmark: bookmark@,
            },
            FetchStep::SetBookmark { tx, bookmark, target } => FetchStepView::SetBookmark {
                tx: tx@,
                bookmark: bookmark@,
                target: target@,
            },
            FetchStep::CheckRewritable { tx, commit } => FetchStepView::CheckRewritable {
                tx: tx@,
                commit: commit@,
            },
            FetchStep::MergeTrees { tx, commit } => FetchStepView::MergeTrees {
                tx: tx@,
                commit: commit@,
            },
            FetchStep::CreateCommit { tx, parent } => FetchStepView::CreateCommit {
                tx: tx@,
                parent: parent@,
            },
            FetchStep::Edit { tx, commit, created } => FetchStepView::Edit {
                tx: tx@,
                commit: commit@,
                created,
            },
            FetchStep::ReportCreated { tx, pieces } => FetchStepView::ReportCreated {
                tx: tx@,
                pieces: pieces_view(pieces@),
            },
            FetchStep::Finish { tx, description } => FetchStepView::Finish {
                tx: tx@,
                description: description@,
            },
            FetchStep::ReinitIndex { boundary_changed, outcome } => FetchStepView::ReinitIndex {
                boundary_changed,
                outcome: outcome_view(outcome),
            },
            FetchStep::Finished(outcome) => FetchStepView::Finished(outcome_view(outcome)),
        }
    }
}

/// What came of the work that a [`FetchStep`] asked for.
#[derive(Debug, PartialEq, Eq)]
pub enum FetchReply<E> {
    /// It is done, and there is nothing to hand back.
    Done,
    /// The remotes of the repository.
    Remotes(Vec<RemoteCandidate>),
    /// The Git repository is there.
    Backend { is_shallow: bool },
    /// The depth to fetch to.
    Depth(Option<u32>),
    /// The fetched commits, or why there are none, and whether the shallow boundary changed.
    Fetched { ids: Result<Vec<CommitId>, E>, boundary_changed: bool },
    /// The commit that was imported or created.
    Commit(CommitId),
    /// The target of the bookmark.
    Bookmark(RefTarget),
    /// It failed.
    Failed(E),
}

/// [`FetchReply`] over the views of what it holds.
pub enum FetchReplyView<E> {
    Done,
    Remotes(Seq<RemoteCandidateView>),
    Backend { is_shallow: bool },
    Depth(Option<u32>),
    Fetched { ids: Result<Seq<Seq<u8>>, E>, boundary_changed: bool },
    Commit(Seq<u8>),
    Bookmark(Seq<Option<Seq<u8>>>),
    Failed(E),
}

impl<E> View for FetchReply<E> {
    type V = FetchReplyView<E>;

    open spec fn view(&self) -> FetchReplyView<E> {
        match *self {
            FetchReply::Done => FetchReplyView::Done,
            FetchReply::Remotes(list) => FetchReplyView::Remotes(candidates_view(list@)),
            FetchReply::Backend { is_shallow } => FetchReplyView::Backend { is_shallow },
            FetchReply::Depth(depth) => FetchReplyView::Depth(depth),
            FetchReply::Fetched { ids, boundary_changed } => FetchReplyView::Fetched {
                ids: match ids {
                    Ok(ids) => Ok(commit_ids(ids@)),
                    Err(e) => Err(e),
                },
                boundary_changed,
            },
            FetchReply::Commit(id) => FetchReplyView::Commit(id@),
            FetchReply::Bookmark(target) => FetchReplyView::Bookmark(target@),
            FetchReply::Failed(e) => FetchReplyView::Failed(e),
        }
    }
}

/// The remotes among the candidates that are fetched from by default.
pub open spec fn matching_remotes(candidates: Seq<RemoteCandidateView>) -> Seq<
    RemoteCandidateView,
> {
    candidates.filter(|c: RemoteCandidateView| c.is_match)
}

/// The default remote: the only one that matches the default fetch configuration.
pub open spec fn default_fetch_remote_view<E>(candidates: Seq<RemoteCandidateView>) -> Result<
    NameView,
    CommandErrorView<E>,
> {
    let matching = matching_remotes(candidates);
    if matching.len() == 0 {
        Err(user_error_view("No git remotes to fetch from"@))
    } else if matching.len() == 1 {
        Ok(matching[0].remote)
    } else {
        Err(
            CommandErrorView::User {
                message: "Default git fetch configuration matches multiple remotes"@,
                hint: Some("Use `--remote` to select one remote for `jj git ref fetch`."@),
            },
        )
    }
}

/// Picks the default remote: the only one that matches the default fetch configuration.
pub fn get_default_fetch_remote<E>(candidates: Vec<RemoteCandidate>) -> (res: Result<
    Name,
    CommandError<E>,
>)
    ensures
        match res {
            Ok(remote) => default_fetch_remote_view::<E>(candidates_view(candidates@)) == Ok::<
                NameView,
                CommandErrorView<E>,
            >(remote@),
            Err(e) => default_fetch_remote_view::<E>(candidates_view(candidates@)) == Err::<
                NameView,
                CommandErrorView<E>,
            >(e@),
        },
{
    let ghost all = candidates_view(candidates@);
    let ghost pred = |c: RemoteCandidateView| c.is_match;
    let mut matching: Vec<Name> = Vec::new();
    let mut i: usize = 0;
    assert(all.take(0).filter(pred).len() == 0) by {
        reveal(Seq::filter);
    }
    while i < candidates.len()
        invariant
            i <= candidates@.len(),
            all == candidates_view(candidates@),
            pred == (|c: RemoteCandidateView| c.is_match),
            matching@.len() == all.take(i as int).filter(pred).len(),
            forall|j: int|
                0 <= j < matching@.len() ==> (#[trigger] matching@[j])@ == all.take(
                    i as int,
                ).filter(pred)[j].remote,
        decreases candidates@.len() - i,
    {
        assert(all[i as int] == candidates@[i as int]@);
        assert(all.take(i + 1).drop_last() =~= all.take(i as int));
        proof {
            reveal(Seq::filter);
        }
        if candidates[i].is_match {
            matching.push(candidates[i].remote.clone());
        }
        i = i + 1;
    }
    assert(all.take(i as int) =~= all);
    if matching.len() == 0 {
        Err(user_error("No git remotes to fetch from".to_owned()))
    } else if matching.len() == 1 {
        Ok(matching[0].clone())
    } else {
        Err(
            user_error_with_hint(
                "Default git fetch configuration matches multiple remotes".to_owned(),
                "Use `--remote` to select one remote for `jj git ref fetch`.".to_owned(),
            ),
        )
    }
}

/// The step after the remote is known: what makes sense of one commit only needs exactly one
/// source.
pub open spec fn fetch_from_remote_view<E>(
    args: GitRefFetchArgsView,
    remote: NameView,
) -> FetchStepView<E> {
    if args.has_single_target_option() && args.sources.len() != 1 {
        FetchStepView::Finished(
            Err(
                user_error_view(
                    "--new, --edit, and --bookmark require exactly one fetch target"@,
                ),
            ),
        )
    } else {
        FetchStepView::FindBackend { remote }
    }
}

/// The step after the remote is known.
pub fn fetch_from_remote<E>(args: &GitRefFetchArgs, remote: Name) -> (next: FetchStep<E>)
    ensures
        next@ == fetch_from_remote_view::<E>(args@, remote@),
{
    let has_single_target_option = args.new || args.edit || args.bookmark.is_some();
    if has_single_target_option && args.sources.len() != 1 {
        FetchStep::Finished(
            Err(
                user_error(
                    "--new, --edit, and --bookmark require exactly one fetch target".to_owned(),
                ),
            ),
        )
    } else {
        FetchStep::FindBackend { remote }
    }
}

/// The step after the repository is found: only a shallow one can exclude history.
pub open spec fn fetch_into_backend_view<E>(
    args: GitRefFetchArgsView,
    remote: NameView,
    is_shallow: bool,
) -> FetchStepView<E> {
    if args.shallow_exclude is Some && !is_shallow {
        FetchStepView::Finished(
            Err(
                user_error_view(
                    "--shallow-exclude is only supported in an existing shallow repository"@,
                ),
            ),
        )
    } else {
        FetchStepView::ReadDepth { remote, depth: args.depth }
    }
}

/// The step after the repository is found.
pub fn fetch_into_backend<E>(args: &GitRefFetchArgs, remote: Name, is_shallow: bool) -> (next:
    FetchStep<E>)
    ensures
        next@ == fetch_into_backend_view::<E>(args@, remote@, is_shallow),
{
    if args.shallow_exclude.is_some() && !is_shallow {
        FetchStep::Finished(
            Err(
                user_error(
                    "--shallow-exclude is only supported in an existing shallow repository".to_owned(),
                ),
            ),
        )
    } else {
        FetchStep::ReadDepth { remote, depth: args.depth }
    }
}

/// What the fetched refs point to: each source to the commit that was imported for it.
pub open spec fn fetched_ref_updates(
    sources: Seq<Seq<char>>,
    commits: Seq<Seq<u8>>,
) -> Seq<FetchedRefUpdateView> {
    Seq::new(
        if sources.len() <= commits.len() {
            sources.len()
        } else {
            commits.len()
        },
        |i: int|
            FetchedRefUpdateView { ref_name: sources[i], target: normal_target(commits[i]) },
    )
}

/// The step after a commit is reported: the next one is imported, or all are recorded.
pub open spec fn import_next_view<E>(
    args: GitRefFetchArgsView,
    tx: FetchTxView,
) -> FetchStepView<E> {
    if tx.commits.len() < tx.count(args) {
        FetchStepView::Import { tx, id: tx.ids[tx.commits.len() as int] }
    } else {
        FetchStepView::RecordRefs { tx, updates: fetched_ref_updates(args.sources, tx.commits) }
    }
}

/// The updates of the fetched refs.
fn make_ref_updates(sources: &Vec<String>, commits: &Vec<CommitId>) -> (updates: Vec<
    FetchedRefUpdate,
>)
    ensures
        updates_view(updates@) == fetched_ref_updates(strings(sources@), commit_ids(commits@)),
        updates@.len() <= sources@.len(),
        updates@.len() <= commits@.len(),
        updates@.len() == sources@.len() || updates@.len() == commits@.len(),
        forall|i: int|
            0 <= i < updates@.len() ==> {
                &&& (#[trigger] updates@[i]).ref_name@ == sources@[i]@
                &&& updates@[i].target@ == seq![Some(commits@[i]@)]
            },
{
    let mut updates: Vec<FetchedRefUpdate> = Vec::new();
    let mut i: usize = 0;
    while i < sources.len() && i < commits.len()
        invariant
            i <= sources@.len(),
            i <= commits@.len(),
            updates@.len() == i,
            forall|j: int|
                0 <= j < i ==> {
                    &&& (#[trigger] updates@[j])@ == fetched_ref_updates(
                        strings(sources@),
                        commit_ids(commits@),
                    )[j]
                    &&& updates@[j].ref_name@ == sources@[j]@
                    &&& updates@[j].target@ == seq![Some(commits@[j]@)]
                },
        decreases sources@.len() - i,
    {
        updates.push(
            FetchedRefUpdate {
                ref_name: sources[i].clone(),
                target: RefTarget::normal(commits[i].clone()),
            },
        );
        i = i + 1;
    }
    assert(updates_view(updates@) =~= fetched_ref_updates(
        strings(sources@),
        commit_ids(commits@),
    ));
    updates
}

/// The step after a commit is reported.
fn import_next<E>(args: &GitRefFetchArgs, tx: FetchTx) -> (next: FetchStep<E>)
    ensures
        next@ == import_next_view::<E>(args@, tx@),
{
    let n: usize = tx.commits.len();
    if n < args.sources.len() && n < tx.ids.len() {
        let id = tx.ids[n].clone();
        FetchStep::Import { tx, id }
    } else {
        let updates = make_ref_updates(&args.sources, &tx.commits);
        FetchStep::RecordRefs { tx, updates }
    }
}

/// The transaction after one more commit is imported.
pub open spec fn with_commit_view(tx: FetchTxView, id: Seq<u8>) -> FetchTxView {
    FetchTxView { commits: tx.commits.push(id), ..tx }
}

/// The steps of the fetch itself: the settings are read, the sources fetched, and the fetched
/// commits imported and reported one by one.
pub open spec fn do_fetch_view<E>(
    args: GitRefFetchArgsView,
    step: FetchStepView<E>,
    reply: FetchReplyView<E>,
) -> FetchStepView<E> {
    match step {
        FetchStepView::LoadSettings { remote, depth } => FetchStepView::Fetch {
            remote,
            sources: args.sources,
            depth,
            shallow_exclude: args.shallow_exclude,
        },
        FetchStepView::Fetch { remote, sources: _, depth: _, shallow_exclude: _ } => match reply->ids {
            Ok(ids) => import_next_view(
                args,
                FetchTxView {
                    remote,
                    boundary_changed: reply->boundary_changed,
                    ids,
                    commits: Seq::empty(),
                },
            ),
            Err(e) => FetchStepView::ReinitIndex {
                boundary_changed: reply->boundary_changed,
                outcome: Err(CommandErrorView::Outside(e)),
            },
        },
        FetchStepView::Import { tx, id: _ } => FetchStepView::ReportFetched {
            tx: with_commit_view(tx, reply->Commit_0),
            pieces: summary_line(
                "Fetched "@ + args.sources[tx.commits.len() as int] + " as "@,
                reply->Commit_0,
                "\n"@,
            ),
        },
        FetchStepView::ReportFetched { tx, pieces: _ } => import_next_view(args, tx),
        _ => step,
    }
}

/// How the finished transaction is described.
pub open spec fn fetch_description(args: GitRefFetchArgsView, remote: NameView) -> Seq<char> {
    "fetch refs or commit IDs "@ + joined(args.sources, ", "@) + " from git remote "@
        + remote.symbol
}

/// The step that finishes the transaction.
pub open spec fn finish_view<E>(args: GitRefFetchArgsView, tx: FetchTxView) -> FetchStepView<E> {
    FetchStepView::Finish { tx, description: fetch_description(args, tx.remote) }
}

/// The step that finishes the transaction.
fn finish<E>(args: &GitRefFetchArgs, tx: FetchTx) -> (next: FetchStep<E>)
    ensures
        next@ == finish_view::<E>(args@, tx@),
{
    let mut description: String = "fetch refs or commit IDs ".to_owned();
    description.append(join(&args.sources, ", ").as_str());
    description.append(" from git remote ");
    description.append(tx.remote.symbol.as_str());
    FetchStep::Finish { tx, description }
}

/// The step after the bookmark is set: the fetched commit is edited, or a new one on it, or
/// the working copy is left alone.
pub open spec fn update_working_copy_view<E>(
    args: GitRefFetchArgsView,
    tx: FetchTxView,
) -> FetchStepView<E> {
    if args.edit {
        FetchStepView::CheckRewritable { tx, commit: tx.commits[0] }
    } else if args.new {
        FetchStepView::MergeTrees { tx, commit: tx.commits[0] }
    } else {
        finish_view(args, tx)
    }
}

/// The step after the bookmark is set.
fn update_working_copy<E>(args: &GitRefFetchArgs, tx: FetchTx) -> (next: FetchStep<E>)
    requires
        tx@.commits.len() > 0,
    ensures
        next@ == update_working_copy_view::<E>(args@, tx@),
        args.edit <==> next is CheckRewritable,
        !args.edit && args.new <==> next is MergeTrees,
        !args.edit && !args.new <==> next is Finish,
{
    let commit = tx.commits[0].clone();
    if args.edit {
        FetchStep::CheckRewritable { tx, commit }
    } else if args.new {
        FetchStep::MergeTrees { tx, commit }
    } else {
        finish(args, tx)
    }
}

/// Whether the bookmark may be set to `commit`: it is absent or there already, or the user
/// lets it move.
pub open spec fn bookmark_may_move(
    args: GitRefFetchArgsView,
    existing: Seq<Option<Seq<u8>>>,
    commit: Seq<u8>,
) -> bool {
    !target_is_present(existing) || target_as_normal(existing) == Some(commit) || args.replace
}

/// The step after the bookmark is looked up.
pub open spec fn move_bookmark_view<E>(
    args: GitRefFetchArgsView,
    tx: FetchTxView,
    bookmark: NameView,
    existing: Seq<Option<Seq<u8>>>,
) -> FetchStepView<E> {
    if bookmark_may_move(args, existing, tx.commits[0]) {
        FetchStepView::SetBookmark { tx, bookmark, target: normal_target(tx.commits[0]) }
    } else {
        FetchStepView::ReinitIndex {
            boundary_changed: tx.boundary_changed,
            outcome: Err(
                CommandErrorView::User {
                    message: "Bookmark already exists: "@ + bookmark.symbol,
                    hint: Some("Use --replace to move it to the fetched ref."@),
                },
            ),
        }
    }
}

/// The step after the bookmark is looked up.
pub fn move_bookmark<E>(
    args: &GitRefFetchArgs,
    tx: FetchTx,
    bookmark: Name,
    existing: &RefTarget,
) -> (next: FetchStep<E>)
    requires
        tx@.commits.len() > 0,
    ensures
        next@ == move_bookmark_view::<E>(args@, tx@, bookmark@, existing@),
        next is SetBookmark <==> args.replace || existing@ == seq![None::<Seq<u8>>] || existing@
            == seq![Some(tx@.commits[0])],
        next is ReinitIndex || next is SetBookmark,
{
    let commit = tx.commits[0].clone();
    let is_there = match existing.as_normal() {
        Some(id) => id.same(&commit),
        None => false,
    };
    assert(is_there == (existing@ =~= seq![Some(commit@)]));
    if existing.is_present() && !is_there && !args.replace {
        let mut message: String = "Bookmark already exists: ".to_owned();
        message.append(bookmark.symbol.as_str());
        FetchStep::ReinitIndex {
            boundary_changed: tx.boundary_changed,
            outcome: Err(
                user_error_with_hint(
                    message,
                    "Use --replace to move it to the fetched ref.".to_owned(),
                ),
            ),
        }
    } else {
        FetchStep::SetBookmark { tx, bookmark, target: RefTarget::normal(commit) }
    }
}

/// Whether a reply is one to the work that a step asks for.
pub open spec fn fetch_answers<E>(step: FetchStepView<E>, reply: FetchReplyView<E>) -> bool {
    match step {
        FetchStepView::OpenWorkspace
        | FetchStepView::DefaultRemotes
        | FetchStepView::LoadSettings { .. }
        | FetchStepView::ReportFetched { .. }
        | FetchStepView::CheckRewritable { .. }
        | FetchStepView::MergeTrees { .. }
        | FetchStepView::Edit { .. }
        | FetchStepView::ReportCreated { .. }
        | FetchStepView::Finish { .. }
        | FetchStepView::ReinitIndex { .. } => reply is Done || reply is Failed,
        FetchStepView::RecordRefs { .. } | FetchStepView::SetBookmark { .. } => reply is Done,
        FetchStepView::ListRemotes => reply is Remotes || reply is Failed,
        FetchStepView::FindBackend { .. } => reply is Backend || reply is Failed,
        FetchStepView::ReadDepth { .. } => reply is Depth || reply is Failed,
        FetchStepView::Fetch { .. } => reply is Fetched,
        FetchStepView::Import { .. } | FetchStepView::CreateCommit { .. } => reply is Commit
            || reply is Failed,
        FetchStepView::ReadBookmark { .. } => reply is Bookmark,
        FetchStepView::Finished(_) => false,
    }
}

/// The transaction that a step belongs to, once something was fetched in it.
pub open spec fn fetch_tx<E>(step: FetchStepView<E>) -> Option<FetchTxView> {
    match step {
        FetchStepView::Import { tx, id: _ } => Some(tx),
        FetchStepView::ReportFetched { tx, pieces: _ } => Some(tx),
        FetchStepView::RecordRefs { tx, updates: _ } => Some(tx),
        FetchStepView::ReadBookmark { tx, bookmark: _ } => Some(tx),
        FetchStepView::SetBookmark { tx, bookmark: _, target: _ } => Some(tx),
        FetchStepView::CheckRewritable { tx, commit: _ } => Some(tx),
        FetchStepView::MergeTrees { tx, commit: _ } => Some(tx),
        FetchStepView::CreateCommit { tx, parent: _ } => Some(tx),
        FetchStepView::Edit { tx, commit: _, created: _ } => Some(tx),
        FetchStepView::ReportCreated { tx, pieces: _ } => Some(tx),
        FetchStepView::Finish { tx, description: _ } => Some(tx),
        _ => None,
    }
}

/// Whether a step belongs to the transaction of the fetch.
pub open spec fn in_transaction<E>(step: FetchStepView<E>) -> bool {
    step is LoadSettings || step is Fetch || fetch_tx(step) is Some
}

/// The step after a failure. Within the transaction the index is seen to before the fetch
/// ends; an error of the transaction itself comes before one of the index.
pub open spec fn fetch_failed_view<E>(step: FetchStepView<E>, error: E) -> FetchStepView<E> {
    match step {
        FetchStepView::ReinitIndex { boundary_changed: _, outcome: Err(first) } =>
            FetchStepView::Finished(Err(first)),
        _ => if in_transaction(step) {
            FetchStepView::ReinitIndex {
                boundary_changed: fetch_tx(step) is Some && fetch_tx(step)->0.boundary_changed,
                outcome: Err(CommandErrorView::Outside(error)),
            }
        } else {
            FetchStepView::Finished(Err(CommandErrorView::Outside(error)))
        },
    }
}

/// The step that follows `step` on `reply`. A reply to other work than was asked for leaves
/// the step as it is.
pub open spec fn fetch_next<E>(
    args: GitRefFetchArgsView,
    step: FetchStepView<E>,
    reply: FetchReplyView<E>,
) -> FetchStepView<E> {
    if !fetch_answers(step, reply) {
        step
    } else if reply is Failed {
        fetch_failed_view(step, reply->Failed_0)
    } else {
        match step {
            FetchStepView::OpenWorkspace => match args.remote {
                Some(remote) => fetch_from_remote_view(args, remote),
                None => FetchStepView::DefaultRemotes,
            },
            FetchStepView::DefaultRemotes => FetchStepView::ListRemotes,
            FetchStepView::ListRemotes => match default_fetch_remote_view::<E>(reply->Remotes_0) {
                Ok(remote) => fetch_from_remote_view(args, remote),
                Err(e) => FetchStepView::Finished(Err(e)),
            },
            FetchStepView::FindBackend { remote } => fetch_into_backend_view(
                args,
                remote,
                reply->is_shallow,
            ),
            FetchStepView::ReadDepth { remote, depth: _ } => FetchStepView::LoadSettings {
                remote,
                depth: reply->Depth_0,
            },
            FetchStepView::RecordRefs { tx, updates: _ } => match args.bookmark {
                Some(bookmark) => FetchStepView::ReadBookmark { tx, bookmark },
                None => update_working_copy_view(args, tx),
            },
            FetchStepView::ReadBookmark { tx, bookmark } => move_bookmark_view(
                args,
                tx,
                bookmark,
                reply->Bookmark_0,
            ),
            FetchStepView::SetBookmark { tx, bookmark: _, target: _ } => update_working_copy_view(
                args,
                tx,
            ),
            FetchStepView::CheckRewritable { tx, commit } => FetchStepView::Edit {
                tx,
                commit,
                created: false,
            },
            FetchStepView::MergeTrees { tx, commit } => FetchStepView::CreateCommit {
                tx,
                parent: commit,
            },
            FetchStepView::CreateCommit { tx, parent: _ } => FetchStepView::Edit {
                tx,
                commit: reply->Commit_0,
                created: true,
            },
            FetchStepView::Edit { tx, commit, created } => if created {
                FetchStepView::ReportCreated {
                    tx,
                    pieces: summary_line("Created new commit "@, commit, "\n"@),
                }
            } else {
                finish_view(args, tx)
            },
            FetchStepView::ReportCreated { tx, pieces: _ } => finish_view(args, tx),
            FetchStepView::Finish { tx, description: _ } => FetchStepView::ReinitIndex {
                boundary_changed: tx.boundary_changed,
                outcome: Ok(()),
            },
            FetchStepView::ReinitIndex { boundary_changed: _, outcome } => FetchStepView::Finished(
                outcome,
            ),
            _ => do_fetch_view(args, step, reply),
        }
    }
}

/// Whether the parts of a step fit together: commits are imported in order, one for each pair
/// of a source and a fetched commit, and the later steps come when all are imported.
pub open spec fn fetch_wf<E>(args: GitRefFetchArgsView, step: FetchStepView<E>) -> bool {
    match step {
        FetchStepView::Import { tx, id } => tx.commits.len() < tx.count(args) && id
            == tx.ids[tx.commits.len() as int],
        FetchStepView::ReportFetched { tx, pieces: _ } => 0 < tx.commits.len() <= tx.count(args),
        _ => fetch_tx(step) is Some ==> fetch_tx(step)->0.complete(args),
    }
}

/// Whether a reply can come: a fetch that succeeds brings a commit.
pub open spec fn fetch_reply_possible<E>(
    args: GitRefFetchArgsView,
    reply: FetchReplyView<E>,
) -> bool {
    reply matches FetchReplyView::Fetched { ids: Ok(ids), boundary_changed: _ } ==> ids.len() > 0
        && args.sources.len() > 0
}

/// The step after the failure `e`, where a step can fail.
fn fetch_failed<E>(step: FetchStep<E>, e: E) -> (next: FetchStep<E>)
    ensures
        next@ == (if fetch_answers(step@, FetchReplyView::Failed(e)) {
            fetch_failed_view(step@, e)
        } else {
            step@
        }),
{
    let (boundary_changed, error) = match step {
        FetchStep::ReinitIndex { boundary_changed: _, outcome } => {
            return FetchStep::Finished(
                match outcome {
                    Ok(_) => Err(CommandError::Outside(e)),
                    Err(first) => Err(first),
                },
            );
        },
        FetchStep::LoadSettings { .. } => (false, e),
        FetchStep::Import { tx, .. } => (tx.boundary_changed, e),
        FetchStep::ReportFetched { tx, .. } => (tx.boundary_changed, e),
        FetchStep::CheckRewritable { tx, .. } => (tx.boundary_changed, e),
        FetchStep::MergeTrees { tx, .. } => (tx.boundary_changed, e),
        FetchStep::CreateCommit { tx, .. } => (tx.boundary_changed, e),
        FetchStep::Edit { tx, .. } => (tx.boundary_changed, e),
        FetchStep::ReportCreated { tx, .. } => (tx.boundary_changed, e),
        FetchStep::Finish { tx, .. } => (tx.boundary_changed, e),
        FetchStep::OpenWorkspace
        | FetchStep::DefaultRemotes
        | FetchStep::ListRemotes
        | FetchStep::FindBackend { .. }
        | FetchStep::ReadDepth { .. } => {
            return FetchStep::Finished(Err(CommandError::Outside(e)));
        },
        step => {
            return step;
        },
    };
    FetchStep::ReinitIndex { boundary_changed, outcome: Err(CommandError::Outside(error)) }
}

/// Takes the fetch itself one step further: settings, fetching, importing and reporting, or a
/// failure of any of them.
pub fn do_fetch<E>(args: &GitRefFetchArgs, step: FetchStep<E>, reply: FetchReply<E>) -> (next:
    FetchStep<E>)
    requires
        fetch_wf(args@, step@),
        fetch_answers(step@, reply@),
    ensures
        next@ == (if reply@ is Failed {
            fetch_failed_view(step@, reply@->Failed_0)
        } else {
            do_fetch_view(args@, step@, reply@)
        }),
{
    match (step, reply) {
        (step, FetchReply::Failed(e)) => fetch_failed(step, e),
        (FetchStep::LoadSettings { remote, depth }, FetchReply::Done) => FetchStep::Fetch {
            remote,
            sources: clone_strings(&args.sources),
            depth,
            shallow_exclude: clone_opt_string(&args.shallow_exclude),
        },
        (FetchStep::Fetch { remote, .. }, FetchReply::Fetched { ids, boundary_changed }) => match ids {
            Ok(ids) => {
                let tx = FetchTx { remote, boundary_changed, ids, commits: Vec::new() };
                assert(tx@.commits =~= Seq::empty());
                import_next(args, tx)
            },
            Err(e) => FetchStep::ReinitIndex {
                boundary_changed,
                outcome: Err(CommandError::Outside(e)),
            },
        },
        (FetchStep::Import { tx, .. }, FetchReply::Commit(commit)) => {
            let n: usize = tx.commits.len();
            let mut before: String = "Fetched ".to_owned();
            before.append(args.sources[n].as_str());
            before.append(" as ");
            let pieces = make_summary_line(before, &commit, "\n".to_owned());
            let ghost old_tx = tx@;
            let ghost id = commit@;
            let mut tx = tx;
            tx.commits.push(commit);
            assert(tx@.commits =~= old_tx.commits.push(id));
            FetchStep::ReportFetched { tx, pieces }
        },
        (FetchStep::ReportFetched { tx, .. }, FetchReply::Done) => import_next(args, tx),
        (step, _) => step,
    }
}

/// Takes a fetch one step further. It starts with [`FetchStep::OpenWorkspace`] and ends with
/// [`FetchStep::Finished`].
pub fn cmd_git_ref_fetch<E>(
    args: &GitRefFetchArgs,
    step: FetchStep<E>,
    reply: FetchReply<E>,
) -> (next: FetchStep<E>)
    requires
        fetch_wf(args@, step@),
        fetch_reply_possible(args@, reply@),
    ensures
        next@ == fetch_next(args@, step@, reply@),
        fetch_wf(args@, next@),
{
    match (step, reply) {
        (step @ FetchStep::LoadSettings { .. }, reply @ FetchReply::Failed(_)) => do_fetch(
            args,
            step,
            reply,
        ),
        (step @ FetchStep::Import { .. }, reply @ FetchReply::Failed(_)) => do_fetch(
            args,
            step,
            reply,
        ),
        (step @ FetchStep::ReportFetched { .. }, reply @ FetchReply::Failed(_)) => do_fetch(
            args,
            step,
            reply,
        ),
        (step, FetchReply::Failed(e)) => fetch_failed(step, e),
        (FetchStep::OpenWorkspace, FetchReply::Done) => match &args.remote {
            Some(remote) => fetch_from_remote(args, remote.clone()),
            None => FetchStep::DefaultRemotes,
        },
        (FetchStep::DefaultRemotes, FetchReply::Done) => FetchStep::ListRemotes,
        (FetchStep::ListRemotes, FetchReply::Remotes(candidates)) =>
            match get_default_fetch_remote(candidates) {
                Ok(remote) => fetch_from_remote(args, remote),
                Err(e) => FetchStep::Finished(Err(e)),
            },
        (FetchStep::FindBackend { remote }, FetchReply::Backend { is_shallow }) =>
            fetch_into_backend(args, remote, is_shallow),
        (FetchStep::ReadDepth { remote, .. }, FetchReply::Depth(depth)) =>
            FetchStep::LoadSettings { remote, depth },
        (FetchStep::RecordRefs { tx, .. }, FetchReply::Done) => match &args.bookmark {
            Some(bookmark) => FetchStep::ReadBookmark { tx, bookmark: bookmark.clone() },
            None => update_working_copy(args, tx),
        },
        (FetchStep::ReadBookmark { tx, bookmark }, FetchReply::Bookmark(existing)) =>
            move_bookmark(args, tx, bookmark, &existing),
        (FetchStep::SetBookmark { tx, .. }, FetchReply::Done) => update_working_copy(args, tx),
        (FetchStep::CheckRewritable { tx, commit }, FetchReply::Done) => FetchStep::Edit {
            tx,
            commit,
            created: false,
        },
        (FetchStep::MergeTrees { tx, commit }, FetchReply::Done) => FetchStep::CreateCommit {
            tx,
            parent: commit,
        },
        (FetchStep::CreateCommit { tx, .. }, FetchReply::Commit(commit)) => FetchStep::Edit {
            tx,
            commit,
            created: true,
        },
        (FetchStep::Edit { tx, commit, created }, FetchReply::Done) => if created {
            let before: String = "Created new commit ".to_owned();
            let pieces = make_summary_line(before, &commit, "\n".to_owned());
            FetchStep::ReportCreated { tx, pieces }
        } else {
            finish(args, tx)
        },
        (FetchStep::ReportCreated { tx, .. }, FetchReply::Done) => finish(args, tx),
        (FetchStep::Finish { tx, .. }, FetchReply::Done) => FetchStep::ReinitIndex {
            boundary_changed: tx.boundary_changed,
            outcome: Ok(()),
        },
        (FetchStep::ReinitIndex { outcome, .. }, FetchReply::Done) => FetchStep::Finished(outcome),
        (step @ FetchStep::LoadSettings { .. }, reply @ FetchReply::Done) => do_fetch(
            args,
            step,
            reply,
        ),
        (step @ FetchStep::Fetch { .. }, reply @ FetchReply::Fetched { .. }) => do_fetch(
            args,
            step,
            reply,
        ),
        (step @ FetchStep::Import { .. }, reply @ FetchReply::Commit(_)) => do_fetch(
            args,
            step,
            reply,
        ),
        (step @ FetchStep::ReportFetched { .. }, reply @ FetchReply::Done) => do_fetch(
            args,
            step,
            reply,
        ),
        (step, _) => step,
    }
}

} // verus!
