//! `list`: the refs that were fetched, and what they point to.
//!
//! A listing is a sequence of [`ListStep`]s. Each step names one piece of work that has to be
//! done outside; [`cmd_git_ref_list`] takes the reply and gives the next step.

use vstd::prelude::*;

use crate::error::outcome_view;
use crate::error::CommandError;
use crate::error::CommandErrorView;
use crate::ids::commit_ids;
use crate::ids::CommitId;
use crate::names::Name;
use crate::names::NameView;
use crate::target::ids_at;
use crate::target::target_has_conflict;
use crate::target::RefTarget;
use crate::text::hex;
use crate::text::join;
use crate::text::joined;
use crate::text::opt_string;
use crate::text::strings;

verus! {

/// What the user asks of a listing.
#[derive(Debug, PartialEq, Eq)]
pub struct GitRefListArgs {
    /// Show refs that were fetched from this remote only.
    pub remote: Option<String>,
    /// Show this ref only.
    pub ref_name: Option<String>,
}

/// [`GitRefListArgs`] with its texts as sequences of characters.
pub struct GitRefListArgsView {
    pub remote: Option<Seq<char>>,
    pub ref_name: Option<Seq<char>>,
}

impl View for GitRefListArgs {
    type V = GitRefListArgsView;

    open spec fn view(&self) -> GitRefListArgsView {
        GitRefListArgsView {
            remote: opt_string(self.remote),
            ref_name: opt_string(self.ref_name),
        }
    }
}

/// A ref that was fetched from a remote.
#[derive(Debug, PartialEq, Eq)]
pub struct FetchedRef {
    pub remote: Name,
    pub ref_name: Name,
    pub target: RefTarget,
}

/// [`FetchedRef`] over the views of what it holds.
pub struct FetchedRefView {
    pub remote: NameView,
    pub ref_name: NameView,
    pub target: Seq<Option<Seq<u8>>>,
}

impl View for FetchedRef {
    type V = FetchedRefView;

    open spec fn view(&self) -> FetchedRefView {
        FetchedRefView {
            remote: self.remote@,
            ref_name: self.ref_name@,
            target: self.target@,
        }
    }
}

/// The refs of a list.
pub open spec fn refs_view(refs: Seq<FetchedRef>) -> Seq<FetchedRefView> {
    refs.map_values(|r: FetchedRef| r@)
}

/// What is said after the refs.
#[derive(Debug, PartialEq, Eq)]
pub enum Notice {
    Status(String),
    Hint(String),
}

/// [`Notice`] with its text as a sequence of characters.
pub enum NoticeView {
    Status(Seq<char>),
    Hint(Seq<char>),
}

impl View for Notice {
    type V = NoticeView;

    open spec fn view(&self) -> NoticeView {
        match *self {
            Notice::Status(text) => NoticeView::Status(text@),
            Notice::Hint(text) => NoticeView::Hint(text@),
        }
    }
}

/// What a listing prints: lines, and then a notice.
#[derive(Debug, PartialEq, Eq)]
pub struct ListReport {
    pub lines: Vec<String>,
    pub notice: Option<Notice>,
}

/// [`ListReport`] over the views of what it holds.
pub struct ListReportView {
    pub lines: Seq<Seq<char>>,
    pub notice: Option<NoticeView>,
}

impl View for ListReport {
    type V = ListReportView;

    open spec fn view(&self) -> ListReportView {
        ListReportView {
            lines: strings(self.lines@),
            notice: match self.notice {
                Some(notice) => Some(notice@),
                None => None,
            },
        }
    }
}

/// Whether a ref passes the filters; a missing filter lets every ref pass.
pub open spec fn is_selected(
    entry: FetchedRefView,
    remote: Option<Seq<char>>,
    ref_name: Option<Seq<char>>,
) -> bool {
    &&& remote is Some ==> entry.remote.name == remote->0
    &&& ref_name is Some ==> entry.ref_name.name == ref_name->0
}

/// The refs that pass the filters, in their order.
pub open spec fn selected_refs(
    refs: Seq<FetchedRefView>,
    remote: Option<Seq<char>>,
    ref_name: Option<Seq<char>>,
) -> Seq<FetchedRefView> {
    refs.filter(|entry: FetchedRefView| is_selected(entry, remote, ref_name))
}

/// Whether a ref is in conflict.
pub open spec fn is_conflicted(entry: FetchedRefView) -> bool {
    target_has_conflict(entry.target)
}

/// The IDs in hexadecimal.
pub open spec fn hex_all(ids: Seq<Seq<u8>>) -> Seq<Seq<char>> {
    ids.map_values(|id: Seq<u8>| hex(id))
}

/// One line for each ID: `mark`, and the ID in hexadecimal.
pub open spec fn marked_lines(mark: Seq<char>, ids: Seq<Seq<u8>>) -> Seq<Seq<char>> {
    ids.map_values(|id: Seq<u8>| mark + hex(id))
}

/// The lines about one ref. A ref in conflict gets one more line for each commit that its
/// target adds, and one for each that it removes.
pub open spec fn ref_lines(entry: FetchedRefView) -> Seq<Seq<char>> {
    let head = entry.remote.symbol + " "@ + entry.ref_name.symbol;
    if is_conflicted(entry) {
        seq![head + " (conflicted):"@] + marked_lines("  + "@, ids_at(entry.target, 0))
            + marked_lines("  - "@, ids_at(entry.target, 1))
    } else {
        seq![head + " "@ + joined(hex_all(ids_at(entry.target, 0)), ", "@)]
    }
}

/// The lines about several refs, one ref after another.
pub open spec fn all_ref_lines(refs: Seq<FetchedRefView>) -> Seq<Seq<char>>
    decreases refs.len(),
{
    if refs.len() == 0 {
        Seq::empty()
    } else {
        all_ref_lines(refs.drop_last()) + ref_lines(refs.last())
    }
}

/// Whether any of the refs is in conflict.
pub open spec fn any_conflicted(refs: Seq<FetchedRefView>) -> bool {
    exists|i: int| 0 <= i < refs.len() && is_conflicted(#[trigger] refs[i])
}

/// What is said after the refs that were listed.
pub open spec fn list_notice(listed: Seq<FetchedRefView>) -> Option<NoticeView> {
    if listed.len() == 0 {
        Some(NoticeView::Status("No fetched Git refs."@))
    } else if any_conflicted(listed) {
        Some(
            NoticeView::Hint(
                "Some fetched Git refs have conflicts. Fetch them again or forget them to resolve."@,
            ),
        )
    } else {
        None
    }
}

/// What a listing of `refs` under the filters prints.
pub open spec fn list_report(
    refs: Seq<FetchedRefView>,
    remote: Option<Seq<char>>,
    ref_name: Option<Seq<char>>,
) -> ListReportView {
    let listed = selected_refs(refs, remote, ref_name);
    ListReportView { lines: all_ref_lines(listed), notice: list_notice(listed) }
}

/// Whether `filter` is missing or has the characters of `name`.
fn passes(filter: &Option<String>, name: &String) -> (yes: bool)
    ensures
        yes == (opt_string(*filter) is Some ==> name@ == opt_string(*filter)->0),
{
    match filter {
        Some(filter) => *filter == *name,
        None => true,
    }
}

/// The IDs in hexadecimal.
fn hex_texts(ids: &Vec<CommitId>) -> (texts: Vec<String>)
    ensures
        strings(texts@) == hex_all(commit_ids(ids@)),
{
    let mut texts: Vec<String> = Vec::new();
    let mut i: usize = 0;
    while i < ids.len()
        invariant
            i <= ids@.len(),
            texts@.len() == i,
            forall|j: int| 0 <= j < i ==> (#[trigger] texts@[j])@ == hex(ids@[j]@),
        decreases ids@.len() - i,
    {
        texts.push(ids[i].hex());
        i = i + 1;
    }
    assert(strings(texts@) =~= hex_all(commit_ids(ids@)));
    texts
}

/// Adds a line for each ID: `mark`, and the ID in hexadecimal.
fn push_marked_lines(lines: &mut Vec<String>, mark: &str, ids: &Vec<CommitId>)
    ensures
        strings(final(lines)@) == strings(old(lines)@) + marked_lines(mark@, commit_ids(ids@)),
{
    let ghost all = marked_lines(mark@, commit_ids(ids@));
    let mut i: usize = 0;
    assert(strings(lines@) =~= strings(old(lines)@) + all.take(0));
    while i < ids.len()
        invariant
            i <= ids@.len(),
            all == marked_lines(mark@, commit_ids(ids@)),
            strings(lines@) == strings(old(lines)@) + all.take(i as int),
        decreases ids@.len() - i,
    {
        let mut line: String = mark.to_owned();
        line.append(ids[i].hex().as_str());
        let ghost before = lines@;
        lines.push(line);
        assert(strings(lines@) =~= strings(before).push(line@));
        assert(all.take(i + 1) =~= all.take(i as int).push(line@));
        assert(strings(lines@) =~= strings(old(lines)@) + all.take(i + 1));
        i = i + 1;
    }
    assert(all.take(i as int) =~= all);
}

/// Adds the lines about one ref.
fn push_ref_lines(lines: &mut Vec<String>, entry: &FetchedRef)
    ensures
        strings(final(lines)@) == strings(old(lines)@) + ref_lines(entry@),
{
    let mut line: String = entry.remote.symbol.clone();
    line.append(" ");
    line.append(entry.ref_name.symbol.as_str());
    let ghost before = lines@;
    if entry.target.has_conflict() {
        line.append(" (conflicted):");
        lines.push(line);
        assert(strings(lines@) =~= strings(before) + seq![line@]);
        push_marked_lines(lines, "  + ", &entry.target.added_ids());
        push_marked_lines(lines, "  - ", &entry.target.removed_ids());
    } else {
        line.append(" ");
        line.append(join(&hex_texts(&entry.target.added_ids()), ", ").as_str());
        lines.push(line);
        assert(strings(lines@) =~= strings(before) + seq![line@]);
    }
    assert(strings(lines@) =~= strings(before) + ref_lines(entry@));
}

/// Makes what a listing of `refs` under the filters prints.
pub fn make_list_report(
    refs: &Vec<FetchedRef>,
    remote: &Option<String>,
    ref_name: &Option<String>,
) -> (report: ListReport)
    ensures
        report@ == list_report(refs_view(refs@), opt_string(*remote), opt_string(*ref_name)),
{
    let ghost all = refs_view(refs@);
    let ghost pred = |entry: FetchedRefView|
        is_selected(entry, opt_string(*remote), opt_string(*ref_name));
    let mut lines: Vec<String> = Vec::new();
    let mut matched: bool = false;
    let mut has_conflict: bool = false;
    let mut i: usize = 0;
    assert(all.take(0).filter(pred) =~= Seq::empty()) by {
        reveal(Seq::filter);
    }
    assert(strings(lines@) =~= Seq::empty());
    while i < refs.len()
        invariant
            i <= refs@.len(),
            all == refs_view(refs@),
            pred == (|entry: FetchedRefView|
                is_selected(entry, opt_string(*remote), opt_string(*ref_name))),
            strings(lines@) == all_ref_lines(all.take(i as int).filter(pred)),
            matched == (all.take(i as int).filter(pred).len() > 0),
            has_conflict == any_conflicted(all.take(i as int).filter(pred)),
        decreases refs@.len() - i,
    {
        let entry = &refs[i];
        let ghost listed = all.take(i as int).filter(pred);
        let ghost now_listed = all.take(i + 1).filter(pred);
        assert(all[i as int] == entry@);
        assert(all.take(i + 1).drop_last() =~= all.take(i as int));
        proof {
            reveal(Seq::filter);
        }
        if passes(remote, &entry.remote.name) && passes(ref_name, &entry.ref_name.name) {
            assert(pred(entry@));
            assert(now_listed == listed.push(entry@));
            assert(now_listed.drop_last() =~= listed);
            matched = true;
            push_ref_lines(&mut lines, entry);
            assert(any_conflicted(now_listed) == (any_conflicted(listed) || is_conflicted(entry@)))
                by {
                if is_conflicted(entry@) {
                    assert(is_conflicted(now_listed[listed.len() as int]));
                }
                if any_conflicted(listed) {
                    let k = choose|k: int| 0 <= k < listed.len() && is_conflicted(#[trigger] listed[k]);
                    assert(is_conflicted(now_listed[k]));
                }
                if any_conflicted(now_listed) && !is_conflicted(entry@) {
                    let k = choose|k: int|
                        0 <= k < now_listed.len() && is_conflicted(#[trigger] now_listed[k]);
                    assert(is_conflicted(listed[k]));
                }
            }
            if entry.target.has_conflict() {
                has_conflict = true;
            }
        }
        i = i + 1;
    }
    assert(all.take(i as int) =~= all);
    let notice = if !matched {
        Some(Notice::Status("No fetched Git refs.".to_owned()))
    } else if has_conflict {
        Some(
            Notice::Hint(
                "Some fetched Git refs have conflicts. Fetch them again or forget them to resolve.".to_owned(),
            ),
        )
    } else {
        None
    };
    ListReport { lines, notice }
}

/// The work that a listing asks for next.
#[derive(Debug, PartialEq, Eq)]
pub enum ListStep<E> {
    /// Open the workspace.
    OpenWorkspace,
    /// Bring `ref_name` into the form that fetched refs are stored under.
    Canonicalize { ref_name: String },
    /// Read the fetched refs.
    ReadRefs { ref_filter: Option<String> },
    /// Print `report`.
    Print { report: ListReport },
    /// Nothing more: the listing has ended.
    Finished(Result<(), CommandError<E>>),
}

/// [`ListStep`] over the views of what it holds.
pub enum ListStepView<E> {
    OpenWorkspace,
    Canonicalize { ref_name: Seq<char> },
    ReadRefs { ref_filter: Option<Seq<char>> },
    Print { report: ListReportView },
    Finished(Result<(), CommandErrorView<E>>),
}

impl<E> View for ListStep<E> {
    type V = ListStepView<E>;

    open spec fn view(&self) -> ListStepView<E> {
        match *self {
            ListStep::OpenWorkspace => ListStepView::OpenWorkspace,
            ListStep::Canonicalize { ref_name } => ListStepView::Canonicalize {
                ref_name: ref_name@,
            },
            ListStep::ReadRefs { ref_filter } => ListStepView::ReadRefs {
                ref_filter: opt_string(ref_filter),
            },
            ListStep::Print { report } => ListStepView::Print { report: report@ },
            ListStep::Finished(outcome) => ListStepView::Finished(outcome_view(outcome)),
        }
    }
}

/// What came of the work that a [`ListStep`] asked for.
#[derive(Debug, PartialEq, Eq)]
pub enum ListReply<E> {
    /// It is done, and there is nothing to hand back.
    Done,
    /// The canonical name of the ref.
    Canonical(String),
    /// The fetched refs, in the order in which they are listed.
    Refs(Vec<FetchedRef>),
    /// It failed.
    Failed(E),
}

/// [`ListReply`] over the views of what it holds.
pub enum ListReplyView<E> {
    Done,
    Canonical(Seq<char>),
    Refs(Seq<FetchedRefView>),
    Failed(E),
}

impl<E> View for ListReply<E> {
    type V = ListReplyView<E>;

    open spec fn view(&self) -> ListReplyView<E> {
        match *self {
            ListReply::Done => ListReplyView::Done,
            ListReply::Canonical(name) => ListReplyView::Canonical(name@),
            ListReply::Refs(refs) => ListReplyView::Refs(refs_view(refs@)),
            ListReply::Failed(e) => ListReplyView::Failed(e),
        }
    }
}

/// Whether a reply is one to the work that a step asks for.
pub open spec fn list_answers<E>(step: ListStepView<E>, reply: ListReplyView<E>) -> bool {
    match step {
        ListStepView::OpenWorkspace | ListStepView::Print { .. } => reply is Done
            || reply is Failed,
        ListStepView::Canonicalize { .. } => reply is Canonical || reply is Failed,
        ListStepView::ReadRefs { .. } => reply is Refs,
        ListStepView::Finished(_) => false,
    }
}

/// The step that follows `step` on `reply`. A failure ends the listing with that failure; a
/// reply to other work than was asked for leaves the step as it is.
pub open spec fn list_next<E>(
    args: GitRefListArgsView,
    step: ListStepView<E>,
    reply: ListReplyView<E>,
) -> ListStepView<E> {
    if !list_answers(step, reply) {
        step
    } else if reply is Failed {
        ListStepView::Finished(Err(CommandErrorView::Outside(reply->Failed_0)))
    } else {
        match step {
            ListStepView::OpenWorkspace => match args.ref_name {
                Some(ref_name) => ListStepView::Canonicalize { ref_name },
                None => ListStepView::ReadRefs { ref_filter: None },
            },
            ListStepView::Canonicalize { ref_name: _ } => ListStepView::ReadRefs {
                ref_filter: Some(reply->Canonical_0),
            },
            ListStepView::ReadRefs { ref_filter } => ListStepView::Print {
                report: list_report(reply->Refs_0, args.remote, ref_filter),
            },
            ListStepView::Print { report: _ } => ListStepView::Finished(Ok(())),
            ListStepView::Finished(_) => step,
        }
    }
}

/// Takes a listing one step further. It starts with [`ListStep::OpenWorkspace`] and ends with
/// [`ListStep::Finished`].
pub fn cmd_git_ref_list<E>(
    args: &GitRefListArgs,
    step: ListStep<E>,
    reply: ListReply<E>,
) -> (next: ListStep<E>)
    ensures
        next@ == list_next(args@, step@, reply@),
{
    match (step, reply) {
        (ListStep::OpenWorkspace, ListReply::Done) => match &args.ref_name {
            Some(ref_name) => ListStep::Canonicalize { ref_name: ref_name.clone() },
            None => ListStep::ReadRefs { ref_filter: None },
        },
        (ListStep::Canonicalize { .. }, ListReply::Canonical(name)) => ListStep::ReadRefs {
            ref_filter: Some(name),
        },
        (ListStep::ReadRefs { ref_filter }, ListReply::Refs(refs)) => ListStep::Print {
            report: make_list_report(&refs, &args.remote, &ref_filter),
        },
        (ListStep::Print { .. }, ListReply::Done) => ListStep::Finished(Ok(())),
        (ListStep::Finished(outcome), _) => ListStep::Finished(outcome),
        (ListStep::ReadRefs { ref_filter }, ListReply::Failed(_)) => ListStep::ReadRefs {
            ref_filter,
        },
        (_, ListReply::Failed(e)) => ListStep::Finished(Err(CommandError::Outside(e))),
        (step, _) => step,
    }
}

} // verus!
