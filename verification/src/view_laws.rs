//! What the views of arguments, steps and replies keep: every part, at its own place.

use vstd::prelude::*;

use crate::command::ForgetStep;
use crate::command::ForgetStepView;
use crate::command::RefCommand;
use crate::command::RefCommandView;
use crate::command::RefReply;
use crate::command::RefReplyView;
use crate::command::RefStep;
use crate::command::RefStepView;
use crate::error::outcome_view;
use crate::error::user_error_view;
use crate::error::CommandError;
use crate::error::CommandErrorView;
use crate::fetch::candidates_view;
use crate::fetch::updates_view;
use crate::fetch::FetchReply;
use crate::fetch::FetchReplyView;
use crate::fetch::FetchStep;
use crate::fetch::FetchStepView;
use crate::fetch::FetchTx;
use crate::fetch::FetchedRefUpdate;
use crate::fetch::GitRefFetchArgs;
use crate::fetch::RemoteCandidate;
use crate::ids::CommitId;
use crate::list::refs_view;
use crate::list::FetchedRef;
use crate::list::GitRefListArgs;
use crate::list::ListReply;
use crate::list::ListReplyView;
use crate::list::ListReport;
use crate::list::ListStep;
use crate::list::ListStepView;
use crate::list::Notice;
use crate::list::NoticeView;
use crate::names::opt_name;
use crate::names::pieces_view;
use crate::names::Name;
use crate::names::Piece;
use crate::names::PieceView;
use crate::push::GitRefPushArgs;
use crate::push::GitRefUpdate;
use crate::push::GitRefUpdateView;
use crate::push::PushReply;
use crate::push::PushReplyView;
use crate::push::PushStats;
use crate::push::PushStep;
use crate::push::PushStepView;

verus! {

/// The view of a name keeps its name and its symbol, that of an ID its bytes, and a missing name
/// is missing in its view.
pub proof fn law_name_view(name: Name, id: CommitId, maybe: Option<Name>)
    ensures
        name@.name == name.name@,
        name@.symbol == name.symbol@,
        id@ == id.bytes@,
        maybe is None <==> opt_name(maybe) is None,
        maybe is Some ==> opt_name(maybe) == Some(maybe->0@),
{
}

/// The view of a status message keeps its parts in their order.
pub proof fn law_pieces_view(pieces: Seq<Piece>)
    ensures
        pieces_view(pieces).len() == pieces.len(),
        forall|i: int|
            0 <= i < pieces.len() ==> match pieces[i] {
                Piece::Text(text) => #[trigger] pieces_view(pieces)[i] == PieceView::Text(text@),
                Piece::Summary(id) => pieces_view(pieces)[i] == PieceView::Summary(id.bytes@),
            },
{
}

/// The view of an error keeps its message and its hint, or the failure as it came, and the view
/// of an outcome keeps whether it is one.
pub proof fn law_error_view<E>(
    error: CommandError<E>,
    outcome: Result<(), CommandError<E>>,
    message: Seq<char>,
)
    ensures
        match error {
            CommandError::User { message, hint: Some(hint) } => error@ == (CommandErrorView::<
                E,
            >::User { message: message@, hint: Some(hint@) }),
            CommandError::User { message, hint: None } => error@ == (CommandErrorView::<E>::User {
                message: message@,
                hint: None,
            }),
            CommandError::Outside(e) => error@ == CommandErrorView::<E>::Outside(e),
        },
        outcome is Ok <==> outcome_view(outcome) is Ok,
        outcome matches Err(e) ==> outcome_view(outcome) == Err::<(), CommandErrorView<E>>(e@),
        user_error_view::<E>(message) == (CommandErrorView::<E>::User { message, hint: None }),
{
}

/// The view of a push request keeps what the user said, field by field.
pub proof fn law_push_args_view(args: GitRefPushArgs)
    ensures
        args.remote is None <==> args@.remote is None,
        args.remote matches Some(remote) ==> args@.remote == Some(remote@),
        args@.force == args.force,
        args.expected_at is None <==> args@.expected_at is None,
        args.expected_at matches Some(id) ==> args@.expected_at == Some(id@),
        args@.expected_absent == args.expected_absent,
        args@.option.len() == args.option@.len(),
        forall|i: int|
            0 <= i < args.option@.len() ==> #[trigger] args@.option[i] == args.option@[i]@,
        args@.revision == args.revision@,
        args@.ref_name == args.ref_name@,
{
}

/// The view of an update keeps its kind, its ref, what is expected of it and where it is set to.
pub proof fn law_update_view(update: GitRefUpdate)
    ensures
        match update {
            GitRefUpdate::Forced { name, new_target } => {
                &&& update@ == (GitRefUpdateView::Forced { name: name@, new_target: new_target@ })
                &&& update@.target() == new_target@
            },
            GitRefUpdate::WithLease { name, expected: Some(expected), new_target } => {
                &&& update@ == (GitRefUpdateView::WithLease {
                    name: name@,
                    expected: Some(expected@),
                    new_target: new_target@,
                })
                &&& update@.target() == new_target@
            },
            GitRefUpdate::WithLease { name, expected: None, new_target } => {
                &&& update@ == (GitRefUpdateView::WithLease {
                    name: name@,
                    expected: None,
                    new_target: new_target@,
                })
                &&& update@.target() == new_target@
            },
        },
{
}

/// The view of what a remote said keeps the verdict and all the names.
pub proof fn law_push_stats_view(stats: PushStats)
    ensures
        stats@.all_ok == stats.all_ok,
        stats@.up_to_date.len() == stats.up_to_date@.len(),
        forall|i: int|
            0 <= i < stats.up_to_date@.len() ==> #[trigger] stats@.up_to_date[i]
                == stats.up_to_date@[i]@,
{
}

/// The view of a step of a push is the same step over the views of its parts.
pub proof fn law_push_step_view<E>(step: PushStep<E>)
    ensures
        match step {
            PushStep::OpenWorkspace => step@ is OpenWorkspace,
            PushStep::FindBackend => step@ is FindBackend,
            PushStep::DefaultRemote => step@ is DefaultRemote,
            PushStep::ResolveRevision { remote, revision } => step@ == (PushStepView::<
                E,
            >::ResolveRevision { remote: remote@, revision: revision@ }),
            PushStep::LoadSettings { remote, update } => step@ == (PushStepView::<
                E,
            >::LoadSettings { remote: remote@, update: update@ }),
            PushStep::Push { remote, update, options } => {
                &&& step@ is Push
                &&& step@->Push_remote == remote@
                &&& step@->Push_update == update@
                &&& step@->Push_options.len() == options@.len()
                &&& forall|i: int|
                    0 <= i < options@.len() ==> #[trigger] step@->Push_options[i] == options@[i]@
            },
            PushStep::PrintStats { remote, update, stats } => step@ == (PushStepView::<
                E,
            >::PrintStats { remote: remote@, update: update@, stats: stats@ }),
            PushStep::WriteStatus { pieces } => step@ == (PushStepView::<E>::WriteStatus {
                pieces: pieces_view(pieces@),
            }),
            PushStep::Finished(outcome) => step@ == PushStepView::<E>::Finished(
                outcome_view(outcome),
            ),
        },
{
}

/// The view of a reply to a push is the same reply over the views of its parts.
pub proof fn law_push_reply_view<E>(reply: PushReply<E>)
    ensures
        match reply {
            PushReply::Done => reply@ is Done,
            PushReply::Remote(remote) => reply@ == PushReplyView::<E>::Remote(remote@),
            PushReply::Commit { id, root } => reply@ == (PushReplyView::<E>::Commit {
                id: id.bytes@,
                root: root.bytes@,
            }),
            PushReply::Pushed(stats) => reply@ == PushReplyView::<E>::Pushed(stats@),
            PushReply::Failed(e) => reply@ == PushReplyView::<E>::Failed(e),
        },
{
}

/// The view of a fetch request keeps what the user said, field by field.
pub proof fn law_fetch_args_view(args: GitRefFetchArgs)
    ensures
        args.remote is None <==> args@.remote is None,
        args.remote matches Some(remote) ==> args@.remote == Some(remote@),
        args@.sources.len() == args.sources@.len(),
        forall|i: int|
            0 <= i < args.sources@.len() ==> #[trigger] args@.sources[i] == args.sources@[i]@,
        args@.new == args.new,
        args@.edit == args.edit,
        args.bookmark is None <==> args@.bookmark is None,
        args.bookmark matches Some(bookmark) ==> args@.bookmark == Some(bookmark@),
        args@.replace == args.replace,
        args@.depth == args.depth,
        args.shallow_exclude is None <==> args@.shallow_exclude is None,
        args.shallow_exclude matches Some(name) ==> args@.shallow_exclude == Some(name@),
{
}

/// The views of candidates keep their remotes and whether they match, in their order.
pub proof fn law_candidates_view(list: Seq<RemoteCandidate>)
    ensures
        candidates_view(list).len() == list.len(),
        forall|i: int|
            0 <= i < list.len() ==> {
                &&& (#[trigger] candidates_view(list)[i]).remote == list[i].remote@
                &&& candidates_view(list)[i].is_match == list[i].is_match
            },
{
}

/// The views of recorded refs keep their names and targets, in their order.
pub proof fn law_updates_view(list: Seq<FetchedRefUpdate>)
    ensures
        updates_view(list).len() == list.len(),
        forall|i: int|
            0 <= i < list.len() ==> {
                &&& (#[trigger] updates_view(list)[i]).ref_name == list[i].ref_name@
                &&& updates_view(list)[i].target == list[i].target@
            },
{
}

/// The view of a transaction keeps its remote, what became of the boundary, and all commits in
/// their order.
pub proof fn law_fetch_tx_view(tx: FetchTx)
    ensures
        tx@.remote == tx.remote@,
        tx@.boundary_changed == tx.boundary_changed,
        tx@.ids.len() == tx.ids@.len(),
        forall|i: int| 0 <= i < tx.ids@.len() ==> #[trigger] tx@.ids[i] == tx.ids@[i].bytes@,
        tx@.commits.len() == tx.commits@.len(),
        forall|i: int|
            0 <= i < tx.commits@.len() ==> #[trigger] tx@.commits[i] == tx.commits@[i].bytes@,
{
}

/// The view of a step of a fetch is the same step over the views of its parts.
pub proof fn law_fetch_step_view<E>(step: FetchStep<E>)
    ensures
        match step {
            FetchStep::OpenWorkspace => step@ is OpenWorkspace,
            FetchStep::DefaultRemotes => step@ is DefaultRemotes,
            FetchStep::ListRemotes => step@ is ListRemotes,
            FetchStep::FindBackend { remote } => step@ == (FetchStepView::<E>::FindBackend {
                remote: remote@,
            }),
            FetchStep::ReadDepth { remote, depth } => step@ == (FetchStepView::<E>::ReadDepth {
                remote: remote@,
                depth,
            }),
            FetchStep::LoadSettings { remote, depth } => step@ == (FetchStepView::<
                E,
            >::LoadSettings { remote: remote@, depth }),
            FetchStep::Fetch { remote, sources, depth, shallow_exclude } => {
                &&& step@ is Fetch
                &&& step@->Fetch_remote == remote@
                &&& step@->Fetch_sources.len() == sources@.len()
                &&& forall|i: int|
                    0 <= i < sources@.len() ==> #[trigger] step@->Fetch_sources[i] == sources@[i]@
                &&& step@->Fetch_depth == depth
                &&& shallow_exclude is None <==> step@->shallow_exclude is None
                &&& shallow_exclude matches Some(name) ==> step@->shallow_exclude == Some(name@)
            },
            FetchStep::Import { tx, id } => step@ == (FetchStepView::<E>::Import {
                tx: tx@,
                id: id.bytes@,
            }),
            FetchStep::ReportFetched { tx, pieces } => step@ == (FetchStepView::<
                E,
            >::ReportFetched { tx: tx@, pieces: pieces_view(pieces@) }),
            FetchStep::RecordRefs { tx, updates } => step@ == (FetchStepView::<E>::RecordRefs {
                tx: tx@,
                updates: updates_view(updates@),
            }),
            FetchStep::ReadBookmark { tx, bookmark } => step@ == (FetchStepView::<
                E,
            >::ReadBookmark { tx: tx@, bookmark: bookmark@ }),
            FetchStep::SetBookmark { tx, bookmark, target } => step@ == (FetchStepView::<
                E,
            >::SetBookmark { tx: tx@, bookmark: bookmark@, target: target@ }),
            FetchStep::CheckRewritable { tx, commit } => step@ == (FetchStepView::<
                E,
            >::CheckRewritable { tx: tx@, commit: commit.bytes@ }),
            FetchStep::MergeTrees { tx, commit } => step@ == (FetchStepView::<E>::MergeTrees {
                tx: tx@,
                commit: commit.bytes@,
            }),
            FetchStep::CreateCommit { tx, parent } => step@ == (FetchStepView::<
                E,
            >::CreateCommit { tx: tx@, parent: parent.bytes@ }),
            FetchStep::Edit { tx, commit, created } => step@ == (FetchStepView::<E>::Edit {
                tx: tx@,
                commit: commit.bytes@,
                created,
            }),
            FetchStep::ReportCreated { tx, pieces } => step@ == (FetchStepView::<
                E,
            >::ReportCreated { tx: tx@, pieces: pieces_view(pieces@) }),
            FetchStep::Finish { tx, description } => step@ == (FetchStepView::<E>::Finish {
                tx: tx@,
                description: description@,
            }),
            FetchStep::ReinitIndex { boundary_changed, outcome } => step@ == (FetchStepView::<
                E,
            >::ReinitIndex { boundary_changed, outcome: outcome_view(outcome) }),
            FetchStep::Finished(outcome) => step@ == FetchStepView::<E>::Finished(
                outcome_view(outcome),
            ),
        },
{
}

/// The view of a reply to a fetch is the same reply over the views of its parts.
pub proof fn law_fetch_reply_view<E>(reply: FetchReply<E>)
    ensures
        match reply {
            FetchReply::Done => reply@ is Done,
            FetchReply::Remotes(list) => reply@ == FetchReplyView::<E>::Remotes(
                candidates_view(list@),
            ),
            FetchReply::Backend { is_shallow } => reply@ == (FetchReplyView::<E>::Backend {
                is_shallow,
            }),
            FetchReply::Depth(depth) => reply@ == FetchReplyView::<E>::Depth(depth),
            FetchReply::Fetched { ids: Ok(ids), boundary_changed } => {
                &&& reply@ is Fetched
                &&& reply@->boundary_changed == boundary_changed
                &&& reply@->ids is Ok
                &&& reply@->ids->Ok_0.len() == ids@.len()
                &&& forall|i: int|
                    0 <= i < ids@.len() ==> #[trigger] reply@->ids->Ok_0[i] == ids@[i].bytes@
            },
            FetchReply::Fetched { ids: Err(e), boundary_changed } => reply@ == (FetchReplyView::<
                E,
            >::Fetched { ids: Err(e), boundary_changed }),
            FetchReply::Commit(id) => reply@ == FetchReplyView::<E>::Commit(id.bytes@),
            FetchReply::Bookmark(target) => reply@ == FetchReplyView::<E>::Bookmark(target@),
            FetchReply::Failed(e) => reply@ == FetchReplyView::<E>::Failed(e),
        },
{
}

/// The view of a listing request keeps both filters, and the views of refs keep their remotes,
/// names and targets, in their order.
pub proof fn law_list_args_view(args: GitRefListArgs, refs: Seq<FetchedRef>)
    ensures
        args.remote is None <==> args@.remote is None,
        args.remote matches Some(remote) ==> args@.remote == Some(remote@),
        args.ref_name is None <==> args@.ref_name is None,
        args.ref_name matches Some(ref_name) ==> args@.ref_name == Some(ref_name@),
        refs_view(refs).len() == refs.len(),
        forall|i: int|
            0 <= i < refs.len() ==> {
                &&& (#[trigger] refs_view(refs)[i]).remote == refs[i].remote@
                &&& refs_view(refs)[i].ref_name == refs[i].ref_name@
                &&& refs_view(refs)[i].target == refs[i].target@
            },
{
}

/// The view of a report keeps all its lines and its notice.
pub proof fn law_list_report_view(report: ListReport)
    ensures
        report@.lines.len() == report.lines@.len(),
        forall|i: int|
            0 <= i < report.lines@.len() ==> #[trigger] report@.lines[i] == report.lines@[i]@,
        match report.notice {
            Some(Notice::Status(text)) => report@.notice == Some(NoticeView::Status(text@)),
            Some(Notice::Hint(text)) => report@.notice == Some(NoticeView::Hint(text@)),
            None => report@.notice is None,
        },
{
}

/// The views of steps of a listing and of replies to them are the same over the views of their
/// parts.
pub proof fn law_list_step_view<E>(step: ListStep<E>, reply: ListReply<E>)
    ensures
        match step {
            ListStep::OpenWorkspace => step@ is OpenWorkspace,
            ListStep::Canonicalize { ref_name } => step@ == (ListStepView::<E>::Canonicalize {
                ref_name: ref_name@,
            }),
            ListStep::ReadRefs { ref_filter: Some(name) } => step@ == (ListStepView::<
                E,
            >::ReadRefs { ref_filter: Some(name@) }),
            ListStep::ReadRefs { ref_filter: None } => step@ == (ListStepView::<E>::ReadRefs {
                ref_filter: None,
            }),
            ListStep::Print { report } => step@ == (ListStepView::<E>::Print { report: report@ }),
            ListStep::Finished(outcome) => step@ == ListStepView::<E>::Finished(
                outcome_view(outcome),
            ),
        },
        match reply {
            ListReply::Done => reply@ is Done,
            ListReply::Canonical(name) => reply@ == ListReplyView::<E>::Canonical(name@),
            ListReply::Refs(refs) => reply@ == ListReplyView::<E>::Refs(refs_view(refs@)),
            ListReply::Failed(e) => reply@ == ListReplyView::<E>::Failed(e),
        },
{
}

/// The views of commands, of their steps and of the replies to them are the same over the views
/// of their parts.
pub proof fn law_command_view<F, E>(
    command: RefCommand<F>,
    forget_step: ForgetStep<E>,
    step: RefStep<E>,
    reply: RefReply<E>,
)
    ensures
        match command {
            RefCommand::Fetch(args) => command@ == RefCommandView::<F>::Fetch(args@),
            RefCommand::Forget(args) => command@ == RefCommandView::<F>::Forget(args),
            RefCommand::List(args) => command@ == RefCommandView::<F>::List(args@),
            RefCommand::Push(args) => command@ == RefCommandView::<F>::Push(args@),
        },
        match forget_step {
            ForgetStep::Run => forget_step@ is Run,
            ForgetStep::Finished(outcome) => forget_step@ == ForgetStepView::<E>::Finished(
                outcome_view(outcome),
            ),
        },
        match step {
            RefStep::Fetch(inner) => step@ == RefStepView::<E>::Fetch(inner@),
            RefStep::Forget(inner) => step@ == RefStepView::<E>::Forget(inner@),
            RefStep::List(inner) => step@ == RefStepView::<E>::List(inner@),
            RefStep::Push(inner) => step@ == RefStepView::<E>::Push(inner@),
        },
        match reply {
            RefReply::Fetch(inner) => reply@ == RefReplyView::<E>::Fetch(inner@),
            RefReply::Forget(inner) => reply@ == RefReplyView::<E>::Forget(inner),
            RefReply::List(inner) => reply@ == RefReplyView::<E>::List(inner@),
            RefReply::Push(inner) => reply@ == RefReplyView::<E>::Push(inner@),
        },
{
}

} // verus!
