//! `push`: one revision goes to one raw ref of a remote.
//!
//! A push is a sequence of [`PushStep`]s. Each step names one piece of work that has to be
//! done outside; [`cmd_git_ref_push`] takes the reply and gives the next step.

use vstd::prelude::*;

use crate::error::outcome_view;
use crate::error::user_error;
use crate::error::user_error_view;
use crate::error::CommandError;
use crate::error::CommandErrorView;
use crate::ids::clone_opt_object_id;
use crate::ids::hash_kind;
use crate::ids::hash_kind_name;
use crate::ids::is_hash_len;
use crate::ids::opt_object_id;
use crate::ids::CommitId;
use crate::ids::ObjectId;
use crate::names::make_summary_line;
use crate::names::opt_name;
use crate::names::pieces_view;
use crate::names::summary_line;
use crate::names::Name;
use crate::names::NameView;
use crate::names::Piece;
use crate::names::PieceView;
use crate::text::clone_strings;
use crate::text::contains_string;
use crate::text::hex;
use crate::text::starts_with;
use crate::text::strings;

verus! {

/// What the user asks of a push.
///
/// One of `force`, `expected_at` and `expected_absent` says what the remote ref may be before
/// the push.
#[derive(Debug, PartialEq, Eq)]
pub struct GitRefPushArgs {
    /// The remote to push to, if not the default one.
    pub remote: Option<Name>,
    /// Push without checking the current position of the remote ref.
    pub force: bool,
    /// Push only if the remote ref is currently at this object.
    pub expected_at: Option<ObjectId>,
    /// Push only if the remote ref does not exist.
    pub expected_absent: bool,
    /// Options that are handed to the remote.
    pub option: Vec<String>,
    /// The revision to push.
    pub revision: String,
    /// The fully qualified destination ref.
    pub ref_name: String,
}

/// [`GitRefPushArgs`] with its texts as sequences of characters and its ID as bytes.
pub struct GitRefPushArgsView {
    pub remote: Option<NameView>,
    pub force: bool,
    pub expected_at: Option<Seq<u8>>,
    pub expected_absent: bool,
    pub option: Seq<Seq<char>>,
    pub revision: Seq<char>,
    pub ref_name: Seq<char>,
}

impl View for GitRefPushArgs {
    type V = GitRefPushArgsView;

    open spec fn view(&self) -> GitRefPushArgsView {
        GitRefPushArgsView {
            remote: opt_name(self.remote),
            force: self.force,
            expected_at: opt_object_id(self.expected_at),
            expected_absent: self.expected_absent,
            option: strings(self.option@),
            revision: self.revision@,
            ref_name: self.ref_name@,
        }
    }
}

impl GitRefPushArgsView {
    /// Whether the user has said what the remote ref may be before the push.
    pub open spec fn safety_chosen(self) -> bool {
        self.force || self.expected_at is Some || self.expected_absent
    }
}

/// A change of one ref on a remote.
#[derive(Debug, PartialEq, Eq)]
pub enum GitRefUpdate {
    /// The ref is set, whatever it was.
    Forced { name: String, new_target: ObjectId },
    /// The ref is set if it is at `expected`; `None` expects that there is no such ref.
    WithLease { name: String, expected: Option<ObjectId>, new_target: ObjectId },
}

/// [`GitRefUpdate`] with its name as a sequence of characters and its IDs as bytes.
pub enum GitRefUpdateView {
    Forced { name: Seq<char>, new_target: Seq<u8> },
    WithLease { name: Seq<char>, expected: Option<Seq<u8>>, new_target: Seq<u8> },
}

impl View for GitRefUpdate {
    type V = GitRefUpdateView;

    open spec fn view(&self) -> GitRefUpdateView {
        match *self {
            GitRefUpdate::Forced { name, new_target } => GitRefUpdateView::Forced {
                name: name@,
                new_target: new_target@,
            },
            GitRefUpdate::WithLease { name, expected, new_target } => GitRefUpdateView::WithLease {
                name: name@,
                expected: opt_object_id(expected),
                new_target: new_target@,
            },
        }
    }
}

impl GitRefUpdateView {
    /// The object that the ref is set to.
    pub open spec fn target(self) -> Seq<u8> {
        match self {
            GitRefUpdateView::Forced { name: _, new_target } => new_target,
            GitRefUpdateView::WithLease { name: _, expected: _, new_target } => new_target,
        }
    }
}

impl GitRefUpdate {
    /// The object that the ref is set to.
    pub fn target(&self) -> (id: &ObjectId)
        ensures
            id@ == self@.target(),
    {
        match self {
            GitRefUpdate::Forced { name: _, new_target } => new_target,
            GitRefUpdate::WithLease { name: _, expected: _, new_target } => new_target,
        }
    }
}

/// What the remote said of the pushed refs.
#[derive(Debug, PartialEq, Eq)]
pub struct PushStats {
    /// No ref was rejected.
    pub all_ok: bool,
    /// The refs that already pointed to their new target.
    pub up_to_date: Vec<String>,
}

/// [`PushStats`] with its names as sequences of characters.
pub struct PushStatsView {
    pub all_ok: bool,
    pub up_to_date: Seq<Seq<char>>,
}

impl View for PushStats {
    type V = PushStatsView;

    open spec fn view(&self) -> PushStatsView {
        PushStatsView { all_ok: self.all_ok, up_to_date: strings(self.up_to_date@) }
    }
}

/// The work that a push asks for next.
#[derive(Debug, PartialEq, Eq)]
pub enum PushStep<E> {
    /// Open the workspace.
    OpenWorkspace,
    /// Make sure that the repository is stored in Git.
    FindBackend,
    /// Find the default remote for pushes.
    DefaultRemote,
    /// Resolve `revision` to a single commit.
    ResolveRevision { remote: Name, revision: String },
    /// Read the Git settings.
    LoadSettings { remote: Name, update: GitRefUpdate },
    /// Push `update` to `remote`, with `options`.
    Push { remote: Name, update: GitRefUpdate, options: Vec<String> },
    /// Print `stats`.
    PrintStats { remote: Name, update: GitRefUpdate, stats: PushStats },
    /// Write a status line.
    WriteStatus { pieces: Vec<Piece> },
    /// Nothing more: the push has ended.
    Finished(Result<(), CommandError<E>>),
}

/// [`PushStep`] over the views of what it holds.
pub enum PushStepView<E> {
    OpenWorkspace,
    FindBackend,
    DefaultRemote,
    ResolveRevision { remote: NameView, revision: Seq<char> },
    LoadSettings { remote: NameView, update: GitRefUpdateView },
    Push { remote: NameView, update: GitRefUpdateView, options: Seq<Seq<char>> },
    PrintStats { remote: NameView, update: GitRefUpdateView, stats: PushStatsView },
    WriteStatus { pieces: Seq<PieceView> },
    Finished(Result<(), CommandErrorView<E>>),
}

impl<E> View for PushStep<E> {
    type V = PushStepView<E>;

    open spec fn view(&self) -> PushStepView<E> {
        match *self {
            PushStep::OpenWorkspace => PushStepView::OpenWorkspace,
            PushStep::FindBackend => PushStepView::FindBackend,
            PushStep::DefaultRemote => PushStepView::DefaultRemote,
            PushStep::ResolveRevision { remote, revision } => PushStepView::ResolveRevision {
                remote: remote@,
                revision: revision@,
            },
            PushStep::LoadSettings { remote, update } => PushStepView::LoadSettings {
                remote: remote@,
                update: update@,
            },
            PushStep::Push { remote, update, options } => PushStepView::Push {
                remote: remote@,
                update: update@,
                options: strings(options@),
            },
            PushStep::PrintStats { remote, update, stats } => PushStepView::PrintStats {
                remote: remote@,
                update: update@,
                stats: stats@,
            },
            PushStep::WriteStatus { pieces } => PushStepView::WriteStatus {
                pieces: pieces_view(pieces@),
            },
            PushStep::Finished(outcome) => PushStepView::Finished(outcome_view(outcome)),
        }
    }
}

/// What came of the work that a [`PushStep`] asked for.
#[derive(Debug, PartialEq, Eq)]
pub enum PushReply<E> {
    /// It is done, and there is nothing to hand back.
    Done,
    /// The default remote.
    Remote(Name),
    /// The commit that the revision stands for, and the root commit of the repository.
    Commit { id: CommitId, root: CommitId },
    /// What the remote said.
    Pushed(PushStats),
    /// It failed.
    Failed(E),
}

/// [`PushReply`] over the views of what it holds.
pub enum PushReplyView<E> {
    Done,
    Remote(NameView),
    Commit { id: Seq<u8>, root: Seq<u8> },
    Pushed(PushStatsView),
    Failed(E),
}

impl<E> View for PushReply<E> {
    type V = PushReplyView<E>;

    open spec fn view(&self) -> PushReplyView<E> {
        match *self {
            PushReply::Done => PushReplyView::Done,
            PushReply::Remote(remote) => PushReplyView::Remote(remote@),
            PushReply::Commit { id, root } => PushReplyView::Commit { id: id@, root: root@ },
            PushReply::Pushed(stats) => PushReplyView::Pushed(stats@),
            PushReply::Failed(e) => PushReplyView::Failed(e),
        }
    }
}

/// Whether gix takes a text as the full name of a ref.
pub uninterp spec fn gix_full_name(name: Seq<char>) -> bool;

/// `<&gix::refs::FullNameRef>::try_from`: whether the text is the full name of a ref, which
/// depends on the text alone. The rules of the check itself are not stated.
#[verifier::external_body]
fn is_gix_full_name(name: &str) -> (yes: bool)
    ensures
        yes == gix_full_name(name@),
{
    <&gix::refs::FullNameRef>::try_from(name).is_ok()
}

/// The step after the remote is known: the destination has to be a full ref name under
/// `refs/`. `full_name` says whether gix takes it as a full name.
pub open spec fn push_to_remote_view<E>(
    args: GitRefPushArgsView,
    remote: NameView,
    full_name: bool,
) -> PushStepView<E> {
    if "refs/"@.is_prefix_of(args.ref_name) && full_name {
        PushStepView::ResolveRevision { remote, revision: args.revision }
    } else {
        PushStepView::Finished(
            Err(user_error_view("Invalid fully qualified Git ref name: "@ + args.ref_name)),
        )
    }
}

/// The step after the remote is known, given what gix says of the destination.
pub fn push_to_remote<E>(args: &GitRefPushArgs, remote: Name, full_name: bool) -> (next: PushStep<
    E,
>)
    ensures
        next@ == push_to_remote_view::<E>(args@, remote@, full_name),
{
    if starts_with(args.ref_name.as_str(), "refs/") && full_name {
        PushStep::ResolveRevision { remote, revision: args.revision.clone() }
    } else {
        let mut message: String = "Invalid fully qualified Git ref name: ".to_owned();
        message.append(args.ref_name.as_str());
        PushStep::Finished(Err(user_error(message)))
    }
}

/// The update that sets the destination to `new_target`: without a check under `force`, else
/// only if the remote ref is where the user expects it.
pub open spec fn planned_update_view(args: GitRefPushArgsView, new_target: Seq<u8>) -> GitRefUpdateView {
    if args.force {
        GitRefUpdateView::Forced { name: args.ref_name, new_target }
    } else {
        GitRefUpdateView::WithLease { name: args.ref_name, expected: args.expected_at, new_target }
    }
}

/// The update that sets the destination to `new_target`.
pub fn planned_update(args: &GitRefPushArgs, new_target: ObjectId) -> (update: GitRefUpdate)
    ensures
        update@ == planned_update_view(args@, new_target@),
        match update {
            GitRefUpdate::Forced { name, new_target: to } => args.force && name@
                == args.ref_name@ && to@ == new_target@,
            GitRefUpdate::WithLease { name, expected, new_target: to } => !args.force && name@
                == args.ref_name@ && opt_object_id(expected) == opt_object_id(args.expected_at)
                && to@ == new_target@,
        },
{
    if args.force {
        GitRefUpdate::Forced { name: args.ref_name.clone(), new_target }
    } else {
        GitRefUpdate::WithLease {
            name: args.ref_name.clone(),
            expected: clone_opt_object_id(&args.expected_at),
            new_target,
        }
    }
}

/// The step after the revision is resolved. The root commit is not pushed, and an expected ID
/// has to be of the repository's kind.
pub open spec fn push_commit_view<E>(
    args: GitRefPushArgsView,
    remote: NameView,
    id: Seq<u8>,
    root: Seq<u8>,
) -> PushStepView<E> {
    if id == root {
        PushStepView::Finished(Err(user_error_view("Cannot push the root commit to Git"@)))
    } else if args.expected_at is Some && hash_kind(args.expected_at->0) != hash_kind(id) {
        PushStepView::Finished(
            Err(
                user_error_view(
                    "Git object ID for --expected-at uses "@ + hash_kind_name(
                        hash_kind(args.expected_at->0),
                    ) + ", but this repository uses "@ + hash_kind_name(hash_kind(id)),
                ),
            ),
        )
    } else {
        PushStepView::LoadSettings { remote, update: planned_update_view(args, id) }
    }
}

/// The step after the revision is resolved to the commit `id`.
pub fn push_commit<E>(
    args: &GitRefPushArgs,
    remote: Name,
    id: &CommitId,
    root: &CommitId,
) -> (next: PushStep<E>)
    requires
        id@ != root@ ==> is_hash_len(id@.len()),
    ensures
        next@ == push_commit_view::<E>(args@, remote@, id@, root@),
{
    if id.same(root) {
        return PushStep::Finished(
            Err(user_error("Cannot push the root commit to Git".to_owned())),
        );
    }
    let new_target = ObjectId::from_bytes_or_panic(&id.bytes);
    if let Some(expected) = &args.expected_at {
        let expected_kind = expected.kind();
        let new_kind = new_target.kind();
        if expected_kind != new_kind {
            let mut message: String = "Git object ID for --expected-at uses ".to_owned();
            message.append(expected_kind.name().as_str());
            message.append(", but this repository uses ");
            message.append(new_kind.name().as_str());
            return PushStep::Finished(Err(user_error(message)));
        }
    }
    PushStep::LoadSettings { remote, update: planned_update(args, new_target) }
}

/// The destination on the remote, as messages show it.
pub open spec fn ref_at_remote(args: GitRefPushArgsView, remote: NameView) -> Seq<char> {
    args.ref_name + "@"@ + remote.symbol
}

/// What the user expects of the remote ref, as messages show it.
pub open spec fn expectation_view(args: GitRefPushArgsView) -> Seq<char> {
    if args.expected_absent {
        "not exist"@
    } else {
        "point to "@ + hex(args.expected_at->0)
    }
}

/// The step after the statistics are printed. A rejected ref is a failure. So is one that was
/// already at its new target, unless that is where the user expects it or the push is forced.
pub open spec fn push_outcome_view<E>(
    args: GitRefPushArgsView,
    remote: NameView,
    new_target: Seq<u8>,
    stats: PushStatsView,
) -> PushStepView<E> {
    if !stats.all_ok {
        PushStepView::Finished(
            Err(user_error_view("Failed to push Git ref "@ + args.ref_name)),
        )
    } else if !stats.up_to_date.contains(args.ref_name) {
        PushStepView::WriteStatus {
            pieces: summary_line(
                "Pushed "@,
                new_target,
                " to "@ + ref_at_remote(args, remote) + "\n"@,
            ),
        }
    } else if args.force || args.expected_at == Some(new_target) {
        PushStepView::WriteStatus {
            pieces: summary_line(
                "Git ref "@ + ref_at_remote(args, remote) + " already points to "@,
                new_target,
                "\n"@,
            ),
        }
    } else {
        PushStepView::Finished(
            Err(
                user_error_view(
                    "Git ref "@ + ref_at_remote(args, remote) + " already points to "@ + hex(
                        new_target,
                    ) + ", but it was expected to "@ + expectation_view(args),
                ),
            ),
        )
    }
}

/// The destination on the remote, as messages show it.
fn ref_at_remote_text(args: &GitRefPushArgs, remote: &Name) -> (text: String)
    ensures
        text@ == ref_at_remote(args@, remote@),
{
    let mut text: String = args.ref_name.clone();
    text.append("@");
    text.append(remote.symbol.as_str());
    text
}

/// What the user expects of the remote ref, as messages show it.
fn expectation(args: &GitRefPushArgs) -> (text: String)
    requires
        args.expected_absent || args.expected_at is Some,
    ensures
        text@ == expectation_view(args@),
{
    if args.expected_absent {
        return "not exist".to_owned();
    }
    let mut text: String = "point to ".to_owned();
    if let Some(expected) = &args.expected_at {
        text.append(expected.hex().as_str());
    }
    text
}

/// The step after the statistics are printed.
pub fn push_outcome<E>(
    args: &GitRefPushArgs,
    remote: &Name,
    new_target: &ObjectId,
    stats: &PushStats,
) -> (next: PushStep<E>)
    requires
        args@.safety_chosen(),
    ensures
        next@ == push_outcome_view::<E>(args@, remote@, new_target@, stats@),
{
    if !stats.all_ok {
        let mut message: String = "Failed to push Git ref ".to_owned();
        message.append(args.ref_name.as_str());
        return PushStep::Finished(Err(user_error(message)));
    }
    let place = ref_at_remote_text(args, remote);
    let commit = CommitId { bytes: new_target.clone().into_bytes() };
    if !contains_string(&stats.up_to_date, &args.ref_name) {
        let mut after: String = " to ".to_owned();
        after.append(place.as_str());
        after.append("\n");
        return PushStep::WriteStatus {
            pieces: make_summary_line("Pushed ".to_owned(), &commit, after),
        };
    }
    let matches_new_target = match &args.expected_at {
        Some(expected) => expected.same(new_target),
        None => false,
    };
    let mut text: String = "Git ref ".to_owned();
    text.append(place.as_str());
    text.append(" already points to ");
    if !args.force && !matches_new_target {
        text.append(new_target.hex().as_str());
        text.append(", but it was expected to ");
        text.append(expectation(args).as_str());
        return PushStep::Finished(Err(user_error(text)));
    }
    PushStep::WriteStatus { pieces: make_summary_line(text, &commit, "\n".to_owned()) }
}

/// Whether a reply is one to the work that a step asks for.
pub open spec fn push_answers<E>(step: PushStepView<E>, reply: PushReplyView<E>) -> bool {
    match step {
        PushStepView::OpenWorkspace
        | PushStepView::FindBackend
        | PushStepView::LoadSettings { .. }
        | PushStepView::PrintStats { .. }
        | PushStepView::WriteStatus { .. } => reply is Done || reply is Failed,
        PushStepView::DefaultRemote => reply is Remote || reply is Failed,
        PushStepView::ResolveRevision { .. } => reply is Commit || reply is Failed,
        PushStepView::Push { .. } => reply is Pushed || reply is Failed,
        PushStepView::Finished(_) => false,
    }
}

/// The step that follows `step` on `reply`. A failure ends the push with that failure; a reply
/// to other work than was asked for leaves the step as it is.
pub open spec fn push_next<E>(
    args: GitRefPushArgsView,
    step: PushStepView<E>,
    reply: PushReplyView<E>,
) -> PushStepView<E> {
    if !push_answers(step, reply) {
        step
    } else if reply is Failed {
        PushStepView::Finished(Err(CommandErrorView::Outside(reply->Failed_0)))
    } else {
        match step {
            PushStepView::OpenWorkspace => PushStepView::FindBackend,
            PushStepView::FindBackend => match args.remote {
                Some(remote) => push_to_remote_view(args, remote, gix_full_name(args.ref_name)),
                None => PushStepView::DefaultRemote,
            },
            PushStepView::DefaultRemote => push_to_remote_view(
                args,
                reply->Remote_0,
                gix_full_name(args.ref_name),
            ),
            PushStepView::ResolveRevision { remote, revision: _ } => push_commit_view(
                args,
                remote,
                reply->id,
                reply->root,
            ),
            PushStepView::LoadSettings { remote, update } => PushStepView::Push {
                remote,
                update,
                options: args.option,
            },
            PushStepView::Push { remote, update, options: _ } => PushStepView::PrintStats {
                remote,
                update,
                stats: reply->Pushed_0,
            },
            PushStepView::PrintStats { remote, update, stats } => push_outcome_view(
                args,
                remote,
                update.target(),
                stats,
            ),
            PushStepView::WriteStatus { pieces: _ } => PushStepView::Finished(Ok(())),
            PushStepView::Finished(outcome) => step,
        }
    }
}

/// Whether a reply can come: a commit other than the root has an ID that Git can hold.
pub open spec fn push_reply_possible<E>(reply: PushReplyView<E>) -> bool {
    reply matches PushReplyView::Commit { id, root } ==> id == root || is_hash_len(id.len())
}

/// Takes a push one step further. It starts with [`PushStep::OpenWorkspace`] and ends with
/// [`PushStep::Finished`].
pub fn cmd_git_ref_push<E>(
    args: &GitRefPushArgs,
    step: PushStep<E>,
    reply: PushReply<E>,
) -> (next: PushStep<E>)
    requires
        args@.safety_chosen(),
        push_reply_possible(reply@),
    ensures
        next@ == push_next(args@, step@, reply@),
{
    match (step, reply) {
        (PushStep::OpenWorkspace, PushReply::Done) => PushStep::FindBackend,
        (PushStep::FindBackend, PushReply::Done) => match &args.remote {
            Some(remote) => push_to_remote(
                args,
                remote.clone(),
                is_gix_full_name(args.ref_name.as_str()),
            ),
            None => PushStep::DefaultRemote,
        },
        (PushStep::DefaultRemote, PushReply::Remote(remote)) => push_to_remote(
            args,
            remote,
            is_gix_full_name(args.ref_name.as_str()),
        ),
        (PushStep::ResolveRevision { remote, revision: _ }, PushReply::Commit { id, root }) =>
            push_commit(args, remote, &id, &root),
        (PushStep::LoadSettings { remote, update }, PushReply::Done) => PushStep::Push {
            remote,
            update,
            options: clone_strings(&args.option),
        },
        (PushStep::Push { remote, update, options: _ }, PushReply::Pushed(stats)) =>
            PushStep::PrintStats { remote, update, stats },
        (PushStep::PrintStats { remote, update, stats }, PushReply::Done) => push_outcome(
            args,
            &remote,
            update.target(),
            &stats,
        ),
        (PushStep::WriteStatus { pieces: _ }, PushReply::Done) => PushStep::Finished(Ok(())),
        (PushStep::Finished(outcome), _) => PushStep::Finished(outcome),
        (_, PushReply::Failed(e)) => PushStep::Finished(Err(CommandError::Outside(e))),
        (step, _) => step,
    }
}

} // verus!
