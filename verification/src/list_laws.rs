//! What holds of every listing.

use vstd::prelude::*;

use crate::error::CommandErrorView;
use crate::fetch::fetched_ref_updates;
use crate::fetch::FetchReplyView;
use crate::fetch::FetchStepView;
use crate::fetch::FetchTxView;
use crate::fetch::GitRefFetchArgsView;
use crate::fetch_laws::all_done;
use crate::fetch_laws::done_at;
use crate::fetch_laws::law_fetch_request;
use crate::fetch_laws::remote_ok;
use crate::fetch_laws::was_done;
use crate::list::all_ref_lines;
use crate::list::any_conflicted;
use crate::list::hex_all;
use crate::list::is_conflicted;
use crate::list::is_selected;
use crate::list::list_answers;
use crate::list::list_next;
use crate::list::list_report;
use crate::list::ref_lines;
use crate::list::selected_refs;
use crate::list::FetchedRefView;
use crate::list::GitRefListArgsView;
use crate::list::ListReplyView;
use crate::list::ListReportView;
use crate::list::ListStepView;
use crate::list::NoticeView;
use crate::names::NameView;
use crate::target::ids_at;
use crate::target::law_ids_at;
use crate::target::law_normal_target;
use crate::target::normal_target;
use crate::text::hex;
use crate::text::joined;
use crate::text::law_joined;

verus! {

/// Without filters, every ref is listed.
pub proof fn law_no_filter_lists_all(refs: Seq<FetchedRefView>)
    ensures
        selected_refs(refs, None, None) == refs,
    decreases refs.len(),
{
    reveal(Seq::filter);
    if refs.len() > 0 {
        law_no_filter_lists_all(refs.drop_last());
        assert(refs.drop_last().push(refs.last()) =~= refs);
    } else {
        assert(selected_refs(refs, None, None) =~= refs);
    }
}

/// A ref is listed if and only if it was fetched and passes the filters.
pub proof fn law_listed_refs(
    refs: Seq<FetchedRefView>,
    remote: Option<Seq<char>>,
    ref_name: Option<Seq<char>>,
    entry: FetchedRefView,
)
    ensures
        selected_refs(refs, remote, ref_name).contains(entry) <==> refs.contains(entry)
            && is_selected(entry, remote, ref_name),
    decreases refs.len(),
{
    reveal(Seq::filter);
    if refs.len() > 0 {
        let rest = refs.drop_last();
        law_listed_refs(rest, remote, ref_name, entry);
        let listed_before = selected_refs(rest, remote, ref_name);
        let listed = selected_refs(refs, remote, ref_name);
        if refs.contains(entry) && is_selected(entry, remote, ref_name) {
            let i = choose|i: int| 0 <= i < refs.len() && refs[i] == entry;
            if i < rest.len() {
                assert(rest[i] == entry);
                let j = choose|j: int| 0 <= j < listed_before.len() && listed_before[j] == entry;
                assert(listed[j] == entry);
            } else {
                assert(listed.last() == entry);
            }
        }
        if listed.contains(entry) {
            let j = choose|j: int| 0 <= j < listed.len() && listed[j] == entry;
            if j < listed_before.len() {
                assert(listed_before[j] == entry);
                let i = choose|i: int| 0 <= i < rest.len() && rest[i] == entry;
                assert(refs[i] == entry);
            } else {
                assert(refs[refs.len() - 1] == entry);
            }
        }
    }
}

/// Filtering by both remote and ref is filtering by one and then by the other.
pub proof fn law_filters_combine(
    refs: Seq<FetchedRefView>,
    remote: Option<Seq<char>>,
    ref_name: Option<Seq<char>>,
)
    ensures
        selected_refs(selected_refs(refs, remote, None), None, ref_name) == selected_refs(
            refs,
            remote,
            ref_name,
        ),
    decreases refs.len(),
{
    reveal(Seq::filter);
    if refs.len() > 0 {
        let rest = refs.drop_last();
        law_filters_combine(rest, remote, ref_name);
        let by_remote = selected_refs(rest, remote, None);
        assert(by_remote.push(refs.last()).drop_last() =~= by_remote);
    } else {
        let none = selected_refs(refs, remote, None);
        assert(none =~= Seq::empty());
        assert(selected_refs(none, None, ref_name) =~= selected_refs(refs, remote, ref_name));
    }
}

/// Each listed ref takes at least one line, and exactly one unless it is in conflict.
pub proof fn law_lines_per_ref(entry: FetchedRefView)
    ensures
        ref_lines(entry).len() >= 1,
        !is_conflicted(entry) ==> ref_lines(entry).len() == 1,
        is_conflicted(entry) ==> ref_lines(entry).len() == 1 + ids_at(entry.target, 0).len()
            + ids_at(entry.target, 1).len(),
{
}

/// The line of a ref that points to one commit: the remote, the ref and the commit's ID.
pub proof fn law_line_of_a_normal_ref(entry: FetchedRefView, id: Seq<u8>)
    requires
        entry.target == normal_target(id),
    ensures
        ref_lines(entry) == seq![
            entry.remote.symbol + " "@ + entry.ref_name.symbol + " "@ + hex(id),
        ],
{
    law_normal_target(id);
    let texts = hex_all(ids_at(entry.target, 0));
    assert(texts =~= seq![hex(id)]);
    assert(joined(texts, ", "@) == hex(id));
}

proof fn lemma_no_lines(refs: Seq<FetchedRefView>)
    ensures
        all_ref_lines(refs).len() == 0 <==> refs.len() == 0,
{
    if refs.len() > 0 {
        law_lines_per_ref(refs.last());
    }
}

/// The user is told that there are no refs if and only if no line is printed, and hinted at
/// conflicts if and only if a listed ref is in conflict.
pub proof fn law_notice(
    refs: Seq<FetchedRefView>,
    remote: Option<Seq<char>>,
    ref_name: Option<Seq<char>>,
)
    ensures
        ({
            let report = list_report(refs, remote, ref_name);
            &&& (report.notice matches Some(NoticeView::Status(_))) <==> report.lines.len() == 0
            &&& (report.notice matches Some(NoticeView::Hint(_))) <==> any_conflicted(
                selected_refs(refs, remote, ref_name),
            )
        }),
{
    lemma_no_lines(selected_refs(refs, remote, ref_name));
}

/// Whether the ref at `k` is the only one with its remote and its name.
pub open spec fn is_only_ref(refs: Seq<FetchedRefView>, k: int) -> bool {
    &&& 0 <= k < refs.len()
    &&& forall|j: int|
        0 <= j < refs.len() && j != k ==> !((#[trigger] refs[j]).remote.name
            == refs[k].remote.name && refs[j].ref_name.name == refs[k].ref_name.name)
}

proof fn lemma_nothing_selected(
    refs: Seq<FetchedRefView>,
    remote: Option<Seq<char>>,
    ref_name: Option<Seq<char>>,
)
    requires
        forall|j: int|
            0 <= j < refs.len() ==> !is_selected(#[trigger] refs[j], remote, ref_name),
    ensures
        selected_refs(refs, remote, ref_name) == Seq::<FetchedRefView>::empty(),
    decreases refs.len(),
{
    reveal(Seq::filter);
    if refs.len() > 0 {
        let rest = refs.drop_last();
        assert(forall|j: int| 0 <= j < rest.len() ==> #[trigger] rest[j] == refs[j]);
        lemma_nothing_selected(rest, remote, ref_name);
        assert(!is_selected(refs[refs.len() - 1], remote, ref_name));
    }
}

proof fn lemma_only_ref_selected(refs: Seq<FetchedRefView>, k: int)
    requires
        is_only_ref(refs, k),
    ensures
        selected_refs(refs, Some(refs[k].remote.name), Some(refs[k].ref_name.name)) == seq![
            refs[k],
        ],
    decreases refs.len(),
{
    reveal(Seq::filter);
    let remote = Some(refs[k].remote.name);
    let ref_name = Some(refs[k].ref_name.name);
    let rest = refs.drop_last();
    assert(forall|j: int| 0 <= j < rest.len() ==> #[trigger] rest[j] == refs[j]);
    if k == refs.len() - 1 {
        lemma_nothing_selected(rest, remote, ref_name);
        assert(selected_refs(refs, remote, ref_name) =~= seq![refs[k]]);
    } else {
        assert(!is_selected(refs[refs.len() - 1], remote, ref_name));
        lemma_only_ref_selected(rest, k);
    }
}

/// What is printed of one ref that points to one commit: its line, and no notice.
pub open spec fn one_line_report(entry: FetchedRefView, id: Seq<u8>) -> ListReportView {
    ListReportView {
        lines: seq![entry.remote.symbol + " "@ + entry.ref_name.symbol + " "@ + hex(id)],
        notice: None,
    }
}

/// A listing of one ref that points to one commit, asked for by its remote and its name, is
/// the line of that ref and nothing more.
pub proof fn law_listing_of_one_ref(refs: Seq<FetchedRefView>, k: int, id: Seq<u8>)
    requires
        is_only_ref(refs, k),
        refs[k].target == normal_target(id),
    ensures
        list_report(refs, Some(refs[k].remote.name), Some(refs[k].ref_name.name))
            == one_line_report(refs[k], id),
{
    let entry = refs[k];
    let listed = seq![entry];
    lemma_only_ref_selected(refs, k);
    law_line_of_a_normal_ref(entry, id);
    law_normal_target(id);
    assert(all_ref_lines(listed) =~= ref_lines(entry)) by {
        reveal_with_fuel(all_ref_lines, 2);
        assert(listed.drop_last() =~= Seq::empty());
    }
    assert(!any_conflicted(listed));
}

/// A listing shows what was fetched. After a fetch from a named remote succeeded, let the store
/// hold for one of its sources what was recorded of it, under that remote, in one entry. Then a
/// listing of that remote and source prints the line of the commit that was imported for the
/// source, without a word on conflicts, and succeeds.
pub proof fn law_listing_shows_what_was_fetched<E>(
    fetch_args: GitRefFetchArgsView,
    replies: Seq<FetchReplyView<E>>,
    tx: FetchTxView,
    remote: NameView,
    i: int,
    refs: Seq<FetchedRefView>,
    k: int,
    args: GitRefListArgsView,
)
    requires
        all_done(fetch_args, replies, tx),
        fetch_args.remote == Some(remote),
        0 <= i < tx.commits.len(),
        is_only_ref(refs, k),
        refs[k].remote.name == tx.remote.name,
        refs[k].ref_name.name == fetch_args.sources[i],
        refs[k].target == fetched_ref_updates(fetch_args.sources, tx.commits)[i].target,
        args.remote == Some(remote.name),
        args.ref_name == Some(fetch_args.sources[i]),
    ensures
        ({
            let opened = list_next(args, ListStepView::<E>::OpenWorkspace, ListReplyView::Done);
            let read = list_next(args, opened, ListReplyView::Canonical(fetch_args.sources[i]));
            let print = list_next(args, read, ListReplyView::Refs(refs));
            &&& tx.remote == remote
            &&& print == (ListStepView::<E>::Print {
                report: one_line_report(refs[k], tx.commits[i]),
            })
            &&& list_next(args, print, ListReplyView::Done) == ListStepView::<E>::Finished(Ok(()))
        }),
{
    assert(tx.remote == remote) by {
        reveal(was_done);
        reveal(remote_ok);
        let step = FetchStepView::<E>::RecordRefs {
            tx,
            updates: fetched_ref_updates(fetch_args.sources, tx.commits),
        };
        let n = choose|n: int| done_at(fetch_args, replies, n, step);
        law_fetch_request(fetch_args, replies.take(n));
    }
    law_listing_of_one_ref(refs, k, tx.commits[i]);
    law_list_goes_through::<E>(args, fetch_args.sources[i], refs);
}

/// A bound on the number of replies that a listing still needs.
pub open spec fn list_rank<E>(step: ListStepView<E>) -> nat {
    match step {
        ListStepView::OpenWorkspace => 4,
        ListStepView::Canonicalize { .. } => 3,
        ListStepView::ReadRefs { .. } => 2,
        ListStepView::Print { .. } => 1,
        ListStepView::Finished(_) => 0,
    }
}

/// Every reply to the work that was asked for brings a listing nearer to its end, and any
/// other reply changes nothing.
pub proof fn law_list_progress<E>(
    args: GitRefListArgsView,
    step: ListStepView<E>,
    reply: ListReplyView<E>,
)
    ensures
        list_answers(step, reply) ==> list_rank(list_next(args, step, reply)) < list_rank(step),
        !list_answers(step, reply) ==> list_next(args, step, reply) == step,
{
}

/// A listing that nothing fails in prints the report on the refs that it read, filtered by the
/// user's remote and the canonical form of the user's ref, and succeeds.
pub proof fn law_list_goes_through<E>(
    args: GitRefListArgsView,
    canonical: Seq<char>,
    refs: Seq<FetchedRefView>,
)
    ensures
        ({
            let filter = if args.ref_name is Some {
                Some(canonical)
            } else {
                None
            };
            let opened = list_next(args, ListStepView::<E>::OpenWorkspace, ListReplyView::Done);
            let read = if args.ref_name is Some {
                list_next(args, opened, ListReplyView::Canonical(canonical))
            } else {
                opened
            };
            let print = list_next(args, read, ListReplyView::Refs(refs));
            &&& args.ref_name matches Some(ref_name) ==> opened == (ListStepView::<
                E,
            >::Canonicalize { ref_name })
            &&& read == (ListStepView::<E>::ReadRefs { ref_filter: filter })
            &&& print == (ListStepView::<E>::Print {
                report: list_report(refs, args.remote, filter),
            })
            &&& list_next(args, print, ListReplyView::Done) == ListStepView::<E>::Finished(Ok(()))
        }),
{
}

/// A failure of the work that was asked for ends a listing with that very failure.
pub proof fn law_list_failure_is_passed_on<E>(
    args: GitRefListArgsView,
    step: ListStepView<E>,
    e: E,
)
    requires
        list_answers(step, ListReplyView::Failed(e)),
    ensures
        list_next(args, step, ListReplyView::Failed(e)) == ListStepView::<E>::Finished(
            Err(CommandErrorView::Outside(e)),
        ),
{
}

/// A ref passes the filters if and only if it is of the remote that is asked for, where one is,
/// and of the name that is asked for, where one is.
pub proof fn law_selection(
    entry: FetchedRefView,
    remote: Option<Seq<char>>,
    ref_name: Option<Seq<char>>,
)
    ensures
        is_selected(entry, remote, ref_name) <==> (remote is None || remote == Some(
            entry.remote.name,
        )) && (ref_name is None || ref_name == Some(entry.ref_name.name)),
{
}

/// The refs that pass the filters among two lists are those among the one, and then those among
/// the other; of a single ref it is that ref or nothing.
pub proof fn law_selection_goes_ref_by_ref(
    a: Seq<FetchedRefView>,
    b: Seq<FetchedRefView>,
    entry: FetchedRefView,
    remote: Option<Seq<char>>,
    ref_name: Option<Seq<char>>,
)
    ensures
        selected_refs(a + b, remote, ref_name) == selected_refs(a, remote, ref_name)
            + selected_refs(b, remote, ref_name),
        (remote is None || remote == Some(entry.remote.name)) && (ref_name is None || ref_name
            == Some(entry.ref_name.name)) ==> selected_refs(seq![entry], remote, ref_name) == seq![
            entry,
        ],
        !((remote is None || remote == Some(entry.remote.name)) && (ref_name is None || ref_name
            == Some(entry.ref_name.name))) ==> selected_refs(seq![entry], remote, ref_name)
            == Seq::<FetchedRefView>::empty(),
    decreases b.len(),
{
    reveal_with_fuel(Seq::filter, 2);
    assert(seq![entry].drop_last() =~= Seq::empty());
    assert(Seq::empty().push(entry) =~= seq![entry]);
    if b.len() > 0 {
        law_selection_goes_ref_by_ref(a, b.drop_last(), entry, remote, ref_name);
        assert((a + b).drop_last() =~= a + b.drop_last());
        assert(selected_refs(a + b, remote, ref_name) =~= selected_refs(a, remote, ref_name)
            + selected_refs(b, remote, ref_name));
    } else {
        assert(a + b =~= a);
        assert(selected_refs(a + b, remote, ref_name) =~= selected_refs(a, remote, ref_name)
            + selected_refs(b, remote, ref_name));
    }
}

/// The lines about two lists of refs are those about the one, and then those about the other;
/// those about a single ref are its own, and nothing is said about none.
pub proof fn law_lines_go_ref_by_ref(
    a: Seq<FetchedRefView>,
    b: Seq<FetchedRefView>,
    entry: FetchedRefView,
)
    ensures
        all_ref_lines(a + b) == all_ref_lines(a) + all_ref_lines(b),
        all_ref_lines(seq![entry]) == ref_lines(entry),
        all_ref_lines(Seq::empty()) == Seq::<Seq<char>>::empty(),
    decreases b.len(),
{
    reveal_with_fuel(all_ref_lines, 2);
    assert(seq![entry].drop_last() =~= Seq::empty());
    assert(all_ref_lines(seq![entry]) =~= ref_lines(entry));
    if b.len() > 0 {
        law_lines_go_ref_by_ref(a, b.drop_last(), entry);
        assert((a + b).drop_last() =~= a + b.drop_last());
        assert(all_ref_lines(a + b) =~= all_ref_lines(a) + all_ref_lines(b));
    } else {
        assert(a + b =~= a);
        assert(all_ref_lines(a + b) =~= all_ref_lines(a) + all_ref_lines(b));
    }
}

/// What is listed of two lists of refs is what is listed of the one, and then what is listed of
/// the other.
pub proof fn law_listing_goes_ref_by_ref(
    a: Seq<FetchedRefView>,
    b: Seq<FetchedRefView>,
    remote: Option<Seq<char>>,
    ref_name: Option<Seq<char>>,
)
    ensures
        list_report(a + b, remote, ref_name).lines == list_report(a, remote, ref_name).lines
            + list_report(b, remote, ref_name).lines,
{
    law_selection_goes_ref_by_ref(a, b, arbitrary(), remote, ref_name);
    law_lines_go_ref_by_ref(
        selected_refs(a, remote, ref_name),
        selected_refs(b, remote, ref_name),
        arbitrary(),
    );
}

/// What is listed of a single ref: its lines if it passes the filters, and else nothing.
pub proof fn law_listing_of_a_single_ref(
    entry: FetchedRefView,
    remote: Option<Seq<char>>,
    ref_name: Option<Seq<char>>,
)
    ensures
        list_report(seq![entry], remote, ref_name).lines == (if (remote is None || remote == Some(
            entry.remote.name,
        )) && (ref_name is None || ref_name == Some(entry.ref_name.name)) {
            ref_lines(entry)
        } else {
            Seq::empty()
        }),
{
    law_selection_goes_ref_by_ref(Seq::empty(), Seq::empty(), entry, remote, ref_name);
    law_lines_go_ref_by_ref(Seq::empty(), Seq::empty(), entry);
}

/// Every ref that is listed has its lines in the listing, after those of the refs before it.
pub proof fn law_every_listed_ref_is_shown(listed: Seq<FetchedRefView>, k: int)
    requires
        0 <= k < listed.len(),
    ensures
        all_ref_lines(listed) == all_ref_lines(listed.take(k)) + ref_lines(listed[k])
            + all_ref_lines(listed.skip(k + 1)),
{
    law_lines_go_ref_by_ref(listed.take(k), seq![listed[k]], listed[k]);
    law_lines_go_ref_by_ref(
        listed.take(k) + seq![listed[k]],
        listed.skip(k + 1),
        arbitrary(),
    );
    assert(listed.take(k) + seq![listed[k]] + listed.skip(k + 1) =~= listed);
}

/// The line of a ref that is in no conflict: the remote, the ref, and the commit if there is
/// one.
pub open spec fn plain_line(entry: FetchedRefView) -> Seq<char> {
    match entry.target[0] {
        Some(id) => entry.remote.symbol + " "@ + entry.ref_name.symbol + " "@ + hex(id),
        None => entry.remote.symbol + " "@ + entry.ref_name.symbol + " "@,
    }
}

/// A ref in no conflict has one line: the remote, the ref and, unless it is absent, the commit.
pub proof fn law_plain_line(entry: FetchedRefView)
    requires
        entry.target.len() == 1,
    ensures
        ref_lines(entry).len() == 1,
        entry.target[0] matches Some(id) ==> ref_lines(entry)[0] == entry.remote.symbol + " "@
            + entry.ref_name.symbol + " "@ + hex(id),
        entry.target[0] is None ==> ref_lines(entry)[0] == entry.remote.symbol + " "@
            + entry.ref_name.symbol + " "@,
        ref_lines(entry)[0] == plain_line(entry),
{
    law_ids_at(entry.target, Seq::empty(), 0);
    let texts = hex_all(ids_at(entry.target, 0));
    if let Some(id) = entry.target[0] {
        assert(texts =~= seq![hex(id)]);
        law_joined(texts, texts, ", "@);
    } else {
        assert(texts =~= Seq::empty());
        law_joined(texts, texts, ", "@);
        assert(ref_lines(entry)[0] =~= entry.remote.symbol + " "@ + entry.ref_name.symbol + " "@);
    }
}

/// A ref in conflict has a head line with the remote and the ref, and below it a line with `+`
/// for each commit that its target adds and then one with `-` for each that it removes, in their
/// order.
pub proof fn law_conflicted_lines(entry: FetchedRefView)
    requires
        entry.target.len() != 1,
    ensures
        ({
            let lines = ref_lines(entry);
            let added = ids_at(entry.target, 0);
            let removed = ids_at(entry.target, 1);
            &&& lines.len() == 1 + added.len() + removed.len()
            &&& lines[0] == entry.remote.symbol + " "@ + entry.ref_name.symbol + " (conflicted):"@
            &&& forall|i: int|
                0 <= i < added.len() ==> lines[1 + i] == "  + "@ + hex(#[trigger] added[i])
            &&& forall|i: int|
                0 <= i < removed.len() ==> lines[1 + added.len() + i] == "  - "@ + hex(
                    #[trigger] removed[i],
                )
        }),
{
}

/// If no listed ref is in conflict, there are as many lines as listed refs, and each ref has its
/// line at its own place.
pub proof fn law_one_line_per_ref(listed: Seq<FetchedRefView>)
    requires
        forall|i: int| 0 <= i < listed.len() ==> (#[trigger] listed[i]).target.len() == 1,
    ensures
        all_ref_lines(listed).len() == listed.len(),
        forall|i: int|
            0 <= i < listed.len() ==> #[trigger] all_ref_lines(listed)[i] == plain_line(listed[i]),
    decreases listed.len(),
{
    if listed.len() > 0 {
        let rest = listed.drop_last();
        assert forall|i: int| 0 <= i < rest.len() implies (#[trigger] rest[i]).target.len() == 1 by {
            assert(rest[i] == listed[i]);
        }
        law_one_line_per_ref(rest);
        law_plain_line(listed[listed.len() - 1]);
        law_lines_go_ref_by_ref(rest, seq![listed.last()], listed.last());
        assert(rest + seq![listed.last()] =~= listed);
        let lines = all_ref_lines(rest) + ref_lines(listed.last());
        assert forall|i: int| 0 <= i < listed.len() implies #[trigger] lines[i] == plain_line(
            listed[i],
        ) by {
            if i < rest.len() {
                assert(rest[i] == listed[i]);
                assert(lines[i] == all_ref_lines(rest)[i]);
            }
        }
    }
}

/// The same of a whole report: if no ref that passes the filters is in conflict, line by line it
/// shows the refs that do.
pub proof fn law_report_shows_every_ref(
    refs: Seq<FetchedRefView>,
    remote: Option<Seq<char>>,
    ref_name: Option<Seq<char>>,
)
    requires
        forall|i: int|
            0 <= i < selected_refs(refs, remote, ref_name).len() ==> (#[trigger] selected_refs(
                refs,
                remote,
                ref_name,
            )[i]).target.len() == 1,
    ensures
        ({
            let listed = selected_refs(refs, remote, ref_name);
            let lines = list_report(refs, remote, ref_name).lines;
            &&& lines.len() == listed.len()
            &&& forall|i: int| 0 <= i < lines.len() ==> #[trigger] lines[i] == plain_line(listed[i])
        }),
{
    law_one_line_per_ref(selected_refs(refs, remote, ref_name));
}

/// Whether the ref at `j` passes the filters.
pub open spec fn passes_at(
    refs: Seq<FetchedRefView>,
    j: int,
    remote: Option<Seq<char>>,
    ref_name: Option<Seq<char>>,
) -> bool {
    &&& 0 <= j < refs.len()
    &&& remote is None || remote == Some(refs[j].remote.name)
    &&& ref_name is None || ref_name == Some(refs[j].ref_name.name)
}

/// If no ref passes the filters, nothing is listed and the user is told that there are none. If
/// one in conflict does, the user is hinted at conflicts. If some do and none of them is in
/// conflict, nothing is said.
pub proof fn law_what_is_said(
    refs: Seq<FetchedRefView>,
    remote: Option<Seq<char>>,
    ref_name: Option<Seq<char>>,
)
    ensures
        (forall|j: int| !#[trigger] passes_at(refs, j, remote, ref_name)) ==> list_report(
            refs,
            remote,
            ref_name,
        ) == (ListReportView {
            lines: Seq::empty(),
            notice: Some(NoticeView::Status("No fetched Git refs."@)),
        }),
        (exists|j: int| #[trigger]
            passes_at(refs, j, remote, ref_name) && refs[j].target.len() != 1) ==> list_report(
            refs,
            remote,
            ref_name,
        ).notice == Some(
            NoticeView::Hint(
                "Some fetched Git refs have conflicts. Fetch them again or forget them to resolve."@,
            ),
        ),
        (exists|j: int| #[trigger] passes_at(refs, j, remote, ref_name)) && (forall|j: int|
            #[trigger] passes_at(refs, j, remote, ref_name) ==> refs[j].target.len() == 1)
            ==> list_report(refs, remote, ref_name).notice is None,
{
    let listed = selected_refs(refs, remote, ref_name);
    if forall|j: int| !#[trigger] passes_at(refs, j, remote, ref_name) {
        assert forall|j: int| 0 <= j < refs.len() implies !is_selected(
            #[trigger] refs[j],
            remote,
            ref_name,
        ) by {
            assert(!passes_at(refs, j, remote, ref_name));
        }
        lemma_nothing_selected(refs, remote, ref_name);
    }
    if exists|j: int| #[trigger]
        passes_at(refs, j, remote, ref_name) && refs[j].target.len() != 1 {
        let j = choose|j: int| #[trigger]
            passes_at(refs, j, remote, ref_name) && refs[j].target.len() != 1;
        law_listed_refs(refs, remote, ref_name, refs[j]);
        assert(refs.contains(refs[j]));
        let i = choose|i: int| 0 <= i < listed.len() && listed[i] == refs[j];
        assert(is_conflicted(listed[i]));
    }
    if (exists|j: int| #[trigger] passes_at(refs, j, remote, ref_name)) && (forall|j: int|
        #[trigger] passes_at(refs, j, remote, ref_name) ==> refs[j].target.len() == 1) {
        let j = choose|j: int| #[trigger] passes_at(refs, j, remote, ref_name);
        law_listed_refs(refs, remote, ref_name, refs[j]);
        assert(refs.contains(refs[j]));
        assert forall|i: int| 0 <= i < listed.len() implies !is_conflicted(#[trigger] listed[i]) by {
            law_listed_refs(refs, remote, ref_name, listed[i]);
            assert(listed.contains(listed[i]));
            let n = choose|n: int| 0 <= n < refs.len() && refs[n] == listed[i];
            assert(passes_at(refs, n, remote, ref_name));
        }
    }
}

/// What each step of a listing comes to: the workspace is opened, the user's ref is turned into
/// its canonical form, the refs are read, and the report on them is printed. Reading the refs
/// cannot fail, and a reply to other work than was asked for changes nothing.
pub proof fn law_list_steps<E>(
    args: GitRefListArgsView,
    ref_name: Seq<char>,
    ref_filter: Option<Seq<char>>,
    report: ListReportView,
    outcome: Result<(), CommandErrorView<E>>,
    reply: ListReplyView<E>,
)
    ensures
        match reply {
            ListReplyView::Done => list_next(args, ListStepView::OpenWorkspace, reply) == (
            if args.ref_name is Some {
                ListStepView::<E>::Canonicalize { ref_name: args.ref_name->0 }
            } else {
                ListStepView::<E>::ReadRefs { ref_filter: None }
            }),
            ListReplyView::Failed(e) => list_next(args, ListStepView::OpenWorkspace, reply)
                == ListStepView::<E>::Finished(Err(CommandErrorView::Outside(e))),
            _ => list_next(args, ListStepView::OpenWorkspace, reply) is OpenWorkspace,
        },
        match reply {
            ListReplyView::Canonical(name) => list_next(
                args,
                ListStepView::Canonicalize { ref_name },
                reply,
            ) == (ListStepView::<E>::ReadRefs { ref_filter: Some(name) }),
            ListReplyView::Failed(e) => list_next(
                args,
                ListStepView::Canonicalize { ref_name },
                reply,
            ) == ListStepView::<E>::Finished(Err(CommandErrorView::Outside(e))),
            _ => list_next(args, ListStepView::Canonicalize { ref_name }, reply) == (
            ListStepView::<E>::Canonicalize { ref_name }),
        },
        match reply {
            ListReplyView::Refs(refs) => list_next(
                args,
                ListStepView::ReadRefs { ref_filter },
                reply,
            ) == (ListStepView::<E>::Print { report: list_report(refs, args.remote, ref_filter) }),
            _ => list_next(args, ListStepView::ReadRefs { ref_filter }, reply) == (ListStepView::<
                E,
            >::ReadRefs { ref_filter }),
        },
        match reply {
            ListReplyView::Done => list_next(args, ListStepView::Print { report }, reply)
                == ListStepView::<E>::Finished(Ok(())),
            ListReplyView::Failed(e) => list_next(args, ListStepView::Print { report }, reply)
                == ListStepView::<E>::Finished(Err(CommandErrorView::Outside(e))),
            _ => list_next(args, ListStepView::Print { report }, reply) == (ListStepView::<
                E,
            >::Print { report }),
        },
        list_next(args, ListStepView::Finished(outcome), reply) == ListStepView::<E>::Finished(
            outcome,
        ),
{
}

} // verus!
