//! What a ref points to: a commit, nothing, or a conflict between several commits.

use vstd::prelude::*;

use crate::ids::commit_ids;
use crate::ids::CommitId;

verus! {

/// The target of a ref, as a merge of commits: the terms at even places are added, those at
/// odd places removed, and there is one more of the former. A single term is a target without
/// conflict, and `None` stands for no commit.
#[derive(Debug, PartialEq, Eq)]
pub struct RefTarget {
    terms: Vec<Option<CommitId>>,
}

/// The bytes of a commit ID that may be missing.
pub open spec fn opt_commit_id(id: Option<CommitId>) -> Option<Seq<u8>> {
    match id {
        Some(id) => Some(id@),
        None => None,
    }
}

impl View for RefTarget {
    type V = Seq<Option<Seq<u8>>>;

    closed spec fn view(&self) -> Seq<Option<Seq<u8>>> {
        terms_view(self.terms@)
    }
}

/// The bytes of the commits of a merge.
pub open spec fn terms_view(terms: Seq<Option<CommitId>>) -> Seq<Option<Seq<u8>>> {
    terms.map_values(|term: Option<CommitId>| opt_commit_id(term))
}

/// Whether a list can be the terms of a merge: there is one more at even places than at odd
/// ones.
pub open spec fn is_merge(terms: Seq<Option<Seq<u8>>>) -> bool {
    terms.len() % 2 == 1
}

/// The target that is one commit.
pub open spec fn normal_target(id: Seq<u8>) -> Seq<Option<Seq<u8>>> {
    seq![Some(id)]
}

/// Whether a target points to anything, be it a conflict.
pub open spec fn target_is_present(terms: Seq<Option<Seq<u8>>>) -> bool {
    terms != seq![None::<Seq<u8>>]
}

/// Whether a target is a conflict.
pub open spec fn target_has_conflict(terms: Seq<Option<Seq<u8>>>) -> bool {
    terms.len() != 1
}

/// The commit of a target that is one commit.
pub open spec fn target_as_normal(terms: Seq<Option<Seq<u8>>>) -> Option<Seq<u8>> {
    if terms.len() == 1 {
        terms[0]
    } else {
        None
    }
}

/// The commits among the terms at the places of one parity, in their order: parity 0 gives
/// the added ones, parity 1 the removed ones.
pub open spec fn ids_at(terms: Seq<Option<Seq<u8>>>, parity: int) -> Seq<Seq<u8>>
    decreases terms.len(),
{
    if terms.len() == 0 {
        Seq::empty()
    } else {
        let rest = ids_at(terms.drop_last(), parity);
        if (terms.len() - 1) % 2 == parity && terms.last() is Some {
            rest.push(terms.last()->0)
        } else {
            rest
        }
    }
}

impl RefTarget {
    #[verifier::type_invariant]
    spec fn terms_are_a_merge(&self) -> bool {
        is_merge(terms_view(self.terms@))
    }

    /// The target with the given terms, of which there is an odd number.
    pub fn from_terms(terms: Vec<Option<CommitId>>) -> (target: RefTarget)
        requires
            is_merge(terms_view(terms@)),
        ensures
            target@ == terms_view(terms@),
            is_merge(target@),
    {
        RefTarget { terms }
    }

    /// The terms of the target.
    pub fn terms(&self) -> (terms: &Vec<Option<CommitId>>)
        ensures
            terms_view(terms@) == self@,
            is_merge(self@),
    {
        proof {
            use_type_invariant(self);
        }
        &self.terms
    }

    /// The target that is one commit.
    pub fn normal(id: CommitId) -> (target: RefTarget)
        ensures
            target@ == normal_target(id@),
            is_merge(target@),
    {
        let mut terms: Vec<Option<CommitId>> = Vec::new();
        terms.push(Some(id));
        let target = RefTarget { terms };
        assert(target@ =~= normal_target(id@));
        target
    }

    /// Whether the target points to anything, be it a conflict.
    pub fn is_present(&self) -> (yes: bool)
        ensures
            yes == target_is_present(self@),
    {
        if self.terms.len() != 1 {
            assert(self@.len() != 1);
            return true;
        }
        match &self.terms[0] {
            Some(_) => {
                assert(self@[0] is Some);
                true
            },
            None => {
                assert(self@ =~= seq![None::<Seq<u8>>]);
                false
            },
        }
    }

    /// The commit of a target that is one commit.
    pub fn as_normal(&self) -> (id: Option<&CommitId>)
        ensures
            match id {
                Some(id) => target_as_normal(self@) == Some(id@),
                None => target_as_normal(self@) is None,
            },
    {
        if self.terms.len() != 1 {
            return None;
        }
        assert(self@[0] == opt_commit_id(self.terms@[0]));
        match &self.terms[0] {
            Some(id) => Some(id),
            None => None,
        }
    }

    /// Whether the target is a conflict.
    pub fn has_conflict(&self) -> (yes: bool)
        ensures
            yes == target_has_conflict(self@),
    {
        self.terms.len() != 1
    }

    fn ids_of_parity(&self, parity: usize) -> (ids: Vec<CommitId>)
        requires
            parity < 2,
        ensures
            commit_ids(ids@) == ids_at(self@, parity as int),
    {
        let mut ids: Vec<CommitId> = Vec::new();
        let mut i: usize = 0;
        assert(commit_ids(ids@) =~= ids_at(self@.take(0), parity as int));
        while i < self.terms.len()
            invariant
                i <= self.terms@.len(),
                commit_ids(ids@) == ids_at(self@.take(i as int), parity as int),
            decreases self.terms@.len() - i,
        {
            assert(self@.take(i + 1).drop_last() =~= self@.take(i as int));
            assert(self@[i as int] == opt_commit_id(self.terms@[i as int]));
            let ghost before = ids@;
            if i % 2 == parity {
                match &self.terms[i] {
                    Some(id) => {
                        ids.push(id.clone());
                        assert(commit_ids(ids@) =~= commit_ids(before).push(id@));
                    },
                    None => {},
                }
            }
            i = i + 1;
        }
        assert(self@.take(i as int) =~= self@);
        ids
    }

    /// The commits that the target adds.
    pub fn added_ids(&self) -> (ids: Vec<CommitId>)
        ensures
            commit_ids(ids@) == ids_at(self@, 0),
    {
        self.ids_of_parity(0)
    }

    /// The commits that the target removes.
    pub fn removed_ids(&self) -> (ids: Vec<CommitId>)
        ensures
            commit_ids(ids@) == ids_at(self@, 1),
    {
        self.ids_of_parity(1)
    }
}

/// A target that is one commit is present, has no conflict, and adds that commit alone.
pub proof fn law_normal_target(id: Seq<u8>)
    ensures
        is_merge(normal_target(id)),
        target_is_present(normal_target(id)),
        !target_has_conflict(normal_target(id)),
        target_as_normal(normal_target(id)) == Some(id),
        ids_at(normal_target(id), 0) == seq![id],
        ids_at(normal_target(id), 1) == Seq::<Seq<u8>>::empty(),
{
    let t = normal_target(id);
    assert(t[0] is Some);
    assert(seq![None::<Seq<u8>>][0] is None);
    reveal_with_fuel(ids_at, 2);
    assert(t.drop_last().len() == 0);
    assert(ids_at(t, 0) =~= seq![id]);
}

/// A target in conflict has at least three terms.
pub proof fn law_conflict_has_several_terms(terms: Seq<Option<Seq<u8>>>)
    requires
        is_merge(terms),
    ensures
        target_has_conflict(terms) <==> terms.len() >= 3,
{
}

/// Without conflict, a target is absent or one commit.
pub proof fn law_target_without_conflict(terms: Seq<Option<Seq<u8>>>)
    requires
        !target_has_conflict(terms),
    ensures
        target_is_present(terms) <==> target_as_normal(terms) is Some,
        target_as_normal(terms) is Some ==> terms == normal_target(target_as_normal(terms)->0),
{
    if terms[0] is None {
        assert(terms =~= seq![None::<Seq<u8>>]);
    } else {
        assert(terms =~= normal_target(terms[0]->0));
        assert(seq![None::<Seq<u8>>][0] is None);
    }
}

/// What a target is, in its terms: a normal one is its commit alone, an absent one is a single
/// missing term, one in conflict has not one term, and the commit of a normal one is its only
/// term.
pub proof fn law_target_terms(terms: Seq<Option<Seq<u8>>>, id: Seq<u8>)
    ensures
        normal_target(id).len() == 1,
        normal_target(id)[0] == Some(id),
        !target_is_present(terms) <==> terms.len() == 1 && terms[0] is None,
        target_has_conflict(terms) <==> terms.len() != 1,
        target_as_normal(terms) == Some(id) <==> terms.len() == 1 && terms[0] == Some(id),
        is_merge(terms) <==> terms.len() % 2 == 1,
{
    if terms.len() == 1 && terms[0] is None {
        assert(terms =~= seq![None::<Seq<u8>>]);
    }
}

/// The terms of a target keep their places, and those that are missing stay missing.
pub proof fn law_terms_view(terms: Seq<Option<CommitId>>)
    ensures
        terms_view(terms).len() == terms.len(),
        forall|i: int|
            0 <= i < terms.len() ==> (terms[i] is None <==> (#[trigger] terms_view(terms)[i])
                is None),
        forall|i: int|
            0 <= i < terms.len() && terms[i] is Some ==> #[trigger] terms_view(terms)[i] == Some(
                terms[i]->0.bytes@,
            ),
{
}

/// The commits of one parity are taken in order from all the terms: a term counts at its own
/// parity if it is a commit, and not at the other.
pub proof fn law_ids_at(a: Seq<Option<Seq<u8>>>, b: Seq<Option<Seq<u8>>>, parity: int)
    requires
        parity == 0 || parity == 1,
    ensures
        ids_at(a + b, parity) == ids_at(a, parity) + ids_at(b, (parity + a.len()) % 2),
        a.len() == 0 ==> ids_at(a, parity) == Seq::<Seq<u8>>::empty(),
        a.len() == 1 ==> ids_at(a, 1) == Seq::<Seq<u8>>::empty(),
        a.len() == 1 && a[0] is None ==> ids_at(a, 0) == Seq::<Seq<u8>>::empty(),
        a.len() == 1 && a[0] is Some ==> ids_at(a, 0) == seq![a[0]->0],
    decreases b.len(),
{
    reveal_with_fuel(ids_at, 2);
    if a.len() == 1 && a[0] is Some {
        assert(ids_at(a, 0) =~= seq![a[0]->0]);
    }
    if b.len() == 0 {
        assert(a + b =~= a);
        assert(ids_at(a + b, parity) =~= ids_at(a, parity) + ids_at(b, (parity + a.len()) % 2));
    } else {
        law_ids_at(a, b.drop_last(), parity);
        assert((a + b).drop_last() =~= a + b.drop_last());
        assert((a + b).last() == b.last());
        assert(ids_at(a + b, parity) =~= ids_at(a, parity) + ids_at(b, (parity + a.len()) % 2));
    }
}

} // verus!
