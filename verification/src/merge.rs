//! Folding collection steps into a minimal set.
//!
//! A new step is merged into the first step of the accumulator that can take
//! it; if none can, it is appended.

use crate::api::{CollectionStep, DatePrecision, DocumentCategory, DocumentType, StepModel};
use crate::ident::Id;
use vstd::prelude::*;

verus! {

/// The models of a sequence of steps, in order.
pub open spec fn models(steps: Seq<CollectionStep>) -> Seq<StepModel> {
    Seq::new(steps.len(), |i: int| steps[i]@)
}

/// The accumulator after `step` has been merged into it: the first element
/// that merges with `step` is replaced by the merge of the two, the others
/// stay; where no element merges with it, `step` is appended.
pub open spec fn merged_into(acc: Seq<StepModel>, step: StepModel) -> Seq<StepModel>
    decreases acc.len(),
{
    if acc.len() == 0 {
        seq![step]
    } else if acc.first().merges_with(step) {
        acc.update(0, acc.first().merge(step))
    } else {
        seq![acc.first()] + merged_into(acc.drop_first(), step)
    }
}

/// The accumulator after each of `steps` has been merged into it, in order.
pub open spec fn merged_all(acc: Seq<StepModel>, steps: Seq<StepModel>) -> Seq<StepModel>
    decreases steps.len(),
{
    if steps.len() == 0 {
        acc
    } else {
        merged_all(merged_into(acc, steps.first()), steps.drop_first())
    }
}

/// Where `acc[i]` is the first element that merges with `step`, merging
/// replaces exactly that element.
pub proof fn lemma_merge_into_first_match(acc: Seq<StepModel>, step: StepModel, i: int)
    requires
        0 <= i < acc.len(),
        acc[i].merges_with(step),
        forall|j: int| 0 <= j < i ==> !acc[j].merges_with(step),
    ensures
        merged_into(acc, step) == acc.update(i, acc[i].merge(step)),
    decreases acc.len(),
{
    if i > 0 {
        let rest = acc.drop_first();
        assert forall|j: int| 0 <= j < i - 1 implies !rest[j].merges_with(step) by {
            assert(rest[j] == acc[j + 1]);
        }
        lemma_merge_into_first_match(rest, step, i - 1);
        assert(merged_into(acc, step) =~= acc.update(i, acc[i].merge(step)));
    }
}

/// Where no element of `acc` merges with `step`, merging appends `step`.
pub proof fn lemma_merge_into_no_match(acc: Seq<StepModel>, step: StepModel)
    requires
        forall|j: int| 0 <= j < acc.len() ==> !acc[j].merges_with(step),
    ensures
        merged_into(acc, step) == acc.push(step),
    decreases acc.len(),
{
    if acc.len() == 0 {
        assert(merged_into(acc, step) =~= acc.push(step));
    } else {
        let rest = acc.drop_first();
        assert forall|j: int| 0 <= j < rest.len() implies !rest[j].merges_with(step) by {
            assert(rest[j] == acc[j + 1]);
        }
        lemma_merge_into_no_match(rest, step);
        assert(merged_into(acc, step) =~= acc.push(step));
    }
}

/// Merges `step` into `acc`: into the first element that can take it, or at
/// the end where none can.
pub fn merge_into(acc: &mut Vec<CollectionStep>, step: &CollectionStep)
    ensures
        models(final(acc)@) == merged_into(models(old(acc)@), step@),
{
    let ghost before = models(acc@);
    let n: usize = acc.len();
    let mut i: usize = 0;
    while i < n
        invariant
            n == acc.len(),
            i <= n,
            models(acc@) == before,
            before == models(old(acc)@),
            forall|j: int| 0 <= j < i ==> !before[j].merges_with(step@),
        decreases n - i,
    {
        let merged = acc[i].try_merge(step);
        if merged {
            proof {
                lemma_merge_into_first_match(before, step@, i as int);
                assert(models(acc@) =~= before.update(i as int, before[i as int].merge(step@)));
            }
            return ;
        }
        i = i + 1;
    }
    acc.push(step.clone());
    proof {
        lemma_merge_into_no_match(before, step@);
        assert(models(acc@) =~= before.push(step@));
    }
}

/// Merges each of `steps` into `acc`, in order.
pub fn merge_all(acc: &mut Vec<CollectionStep>, steps: &[CollectionStep])
    ensures
        models(final(acc)@) == merged_all(models(old(acc)@), models(steps@)),
{
    let n: usize = steps.len();
    let mut i: usize = 0;
    assert(models(steps@).skip(0) =~= models(steps@));
    while i < n
        invariant
            n == steps.len(),
            i <= n,
            merged_all(models(acc@), models(steps@).skip(i as int)) == merged_all(
                models(old(acc)@),
                models(steps@),
            ),
        decreases n - i,
    {
        proof {
            let rest = models(steps@).skip(i as int);
            assert(rest.first() == steps@[i as int]@);
            assert(rest.drop_first() =~= models(steps@).skip(i + 1));
        }
        merge_into(acc, &steps[i]);
        i = i + 1;
    }
}

/// Merging two runs of steps one after the other is merging their
/// concatenation.
pub proof fn lemma_merge_all_concat(acc: Seq<StepModel>, first: Seq<StepModel>, second: Seq<StepModel>)
    ensures
        merged_all(acc, first + second) == merged_all(merged_all(acc, first), second),
    decreases first.len(),
{
    if first.len() == 0 {
        assert(first + second =~= second);
    } else {
        assert((first + second).first() == first.first());
        assert((first + second).drop_first() =~= first.drop_first() + second);
        lemma_merge_all_concat(merged_into(acc, first.first()), first.drop_first(), second);
    }
}

/// No two elements of `acc` can be merged with each other: each kind of
/// step, and each document identifier, occurs at most once.
pub open spec fn deduplicated(acc: Seq<StepModel>) -> bool {
    forall|i: int, j: int| 0 <= i < j < acc.len() ==> !acc[i].merges_with(acc[j])
}

/// Merging a step changes no element's kind or identifier, and lengthens
/// the accumulator by the step itself only where nothing could take it.
pub proof fn lemma_merge_into_shape(acc: Seq<StepModel>, step: StepModel)
    ensures
        acc.len() <= merged_into(acc, step).len() <= acc.len() + 1,
        forall|k: int|
            0 <= k < acc.len() ==> (#[trigger] merged_into(acc, step)[k]).merges_with(acc[k]),
        merged_into(acc, step).len() == acc.len() + 1 ==> merged_into(acc, step).last() == step
            && forall|k: int| 0 <= k < acc.len() ==> !(#[trigger] acc[k]).merges_with(step),
        merged_into(acc, step).len() == acc.len() ==> exists|k: int|
            0 <= k < acc.len() && (#[trigger] acc[k]).merges_with(step),
    decreases acc.len(),
{
    if acc.len() == 0 {
    } else if acc.first().merges_with(step) {
    } else {
        let rest = acc.drop_first();
        let tail = merged_into(rest, step);
        lemma_merge_into_shape(rest, step);
        let out = merged_into(acc, step);
        assert(out.len() == tail.len() + 1);
        assert forall|k: int| 0 <= k < acc.len() implies (#[trigger] out[k]).merges_with(
            acc[k],
        ) by {
            if k > 0 {
                assert(out[k] == tail[k - 1]);
                assert(rest[k - 1] == acc[k]);
            }
        }
        if out.len() == acc.len() + 1 {
            assert(out.last() == tail.last());
            assert forall|k: int| 0 <= k < acc.len() implies !(#[trigger] acc[k]).merges_with(
                step,
            ) by {
                if k > 0 {
                    assert(rest[k - 1] == acc[k]);
                }
            }
        } else {
            let k = choose|k: int| 0 <= k < rest.len() && (#[trigger] rest[k]).merges_with(step);
            assert(acc[k + 1] == rest[k]);
        }
    }
}

/// Merging a step into a deduplicated accumulator leaves it deduplicated.
pub proof fn lemma_merge_into_keeps_deduplicated(acc: Seq<StepModel>, step: StepModel)
    requires
        deduplicated(acc),
    ensures
        deduplicated(merged_into(acc, step)),
{
    let out = merged_into(acc, step);
    lemma_merge_into_shape(acc, step);
    assert forall|i: int, j: int| 0 <= i < j < out.len() implies !out[i].merges_with(out[j]) by {
        if j < acc.len() {
            assert(out[i].merges_with(acc[i]));
            assert(out[j].merges_with(acc[j]));
            assert(!acc[i].merges_with(acc[j]));
        } else {
            assert(out[i].merges_with(acc[i]));
            assert(!acc[i].merges_with(step));
        }
    }
}

/// Merging any steps into a deduplicated accumulator leaves it
/// deduplicated. In particular what is folded from nothing holds each
/// requirement once.
pub proof fn lemma_merge_all_keeps_deduplicated(acc: Seq<StepModel>, steps: Seq<StepModel>)
    requires
        deduplicated(acc),
    ensures
        deduplicated(merged_all(acc, steps)),
    decreases steps.len(),
{
    if steps.len() > 0 {
        lemma_merge_into_keeps_deduplicated(acc, steps.first());
        lemma_merge_all_keeps_deduplicated(merged_into(acc, steps.first()), steps.drop_first());
    }
}

/// Merging a step a second time changes nothing, whatever the accumulator
/// held before.
pub proof fn lemma_merge_into_is_idempotent(acc: Seq<StepModel>, step: StepModel)
    ensures
        merged_into(merged_into(acc, step), step) == merged_into(acc, step),
    decreases acc.len(),
{
    let once = merged_into(acc, step);
    if acc.len() == 0 {
        assert(step.merge(step) =~= step);
        assert(merged_into(once, step) =~= once);
    } else if acc.first().merges_with(step) {
        let merged = acc.first().merge(step);
        assert(merged.merge(step) =~= merged);
        assert(merged_into(once, step) =~= once);
    } else {
        lemma_merge_into_is_idempotent(acc.drop_first(), step);
        assert(once.drop_first() =~= merged_into(acc.drop_first(), step));
        assert(merged_into(once, step) =~= once);
    }
}

/// Merging a step a second time changes nothing: after the first merge the
/// accumulator holds the step as its single entry, and so it does after the
/// second.
pub proof fn lemma_merge_twice_is_merge_once(step: StepModel)
    ensures
        merged_into(Seq::empty(), step) == seq![step],
        merged_into(merged_into(Seq::empty(), step), step) == merged_into(Seq::empty(), step),
{
    lemma_merge_into_is_idempotent(Seq::empty(), step);
    assert(merged_into(Seq::empty(), step) =~= seq![step]);
}

/// Two date-of-birth steps merge into one that keeps the finer precision,
/// whichever comes first.
pub proof fn lemma_merge_keeps_finest_precision(p: DatePrecision, q: DatePrecision)
    ensures
        merged_all(
            Seq::empty(),
            seq![StepModel::Dob { precision: p }, StepModel::Dob { precision: q }],
        ) == seq![StepModel::Dob { precision: p.finer(q) }],
        merged_all(
            Seq::empty(),
            seq![StepModel::Dob { precision: q }, StepModel::Dob { precision: p }],
        ) == seq![StepModel::Dob { precision: p.finer(q) }],
        p.finer(q).level() >= p.level(),
        p.finer(q).level() >= q.level(),
        p.finer(q) == p || p.finer(q) == q,
{
    let a = StepModel::Dob { precision: p };
    let b = StepModel::Dob { precision: q };
    lemma_merge_pair(a, b);
    lemma_merge_pair(b, a);
}

/// Two address-history steps merge into one that keeps the longer window,
/// whichever comes first.
pub proof fn lemma_merge_keeps_longest_history(m: u32, n: u32)
    ensures
        merged_all(
            Seq::empty(),
            seq![StepModel::AddressHistory { months: m }, StepModel::AddressHistory { months: n }],
        ) == seq![StepModel::AddressHistory { months: if n > m { n } else { m } }],
        merged_all(
            Seq::empty(),
            seq![StepModel::AddressHistory { months: n }, StepModel::AddressHistory { months: m }],
        ) == seq![StepModel::AddressHistory { months: if n > m { n } else { m } }],
{
    lemma_merge_pair(
        StepModel::AddressHistory { months: m },
        StepModel::AddressHistory { months: n },
    );
    lemma_merge_pair(
        StepModel::AddressHistory { months: n },
        StepModel::AddressHistory { months: m },
    );
}

/// Two requests for the same document merge into one that allows the types
/// that both allow, and keeps the category of the first.
pub proof fn lemma_merge_intersects_allowed_types(
    id: Id,
    category: DocumentCategory,
    other_category: DocumentCategory,
    types: Set<DocumentType>,
    other_types: Set<DocumentType>,
)
    ensures
        merged_all(
            Seq::empty(),
            seq![
                StepModel::Document { id, category, allowed_types: types },
                StepModel::Document { id, category: other_category, allowed_types: other_types },
            ],
        ) == seq![
            StepModel::Document { id, category, allowed_types: types.intersect(other_types) },
        ],
{
    lemma_merge_pair(
        StepModel::Document { id, category, allowed_types: types },
        StepModel::Document { id, category: other_category, allowed_types: other_types },
    );
}

/// Two steps that cannot be merged stay two entries, in the order in which
/// they came.
pub proof fn lemma_merge_keeps_distinct_steps_apart(a: StepModel, b: StepModel)
    requires
        !a.merges_with(b),
    ensures
        merged_all(Seq::empty(), seq![a, b]) == seq![a, b],
        merged_all(Seq::empty(), seq![b, a]) == seq![b, a],
{
    lemma_merge_pair(a, b);
    lemma_merge_pair(b, a);
}

/// What folding two steps from nothing gives.
pub proof fn lemma_merge_pair(a: StepModel, b: StepModel)
    ensures
        merged_all(Seq::empty(), seq![a, b]) == if a.merges_with(b) {
            seq![a.merge(b)]
        } else {
            seq![a, b]
        },
{
    let steps = seq![a, b];
    let one = merged_into(Seq::empty(), a);
    assert(one =~= seq![a]);
    assert(steps.drop_first() =~= seq![b]);
    assert(steps.drop_first().drop_first() =~= Seq::<StepModel>::empty());
    let two = merged_into(one, b);
    assert(merged_all(one, seq![b]) == merged_all(two, seq![b].drop_first()));
    assert(seq![b].drop_first() =~= Seq::<StepModel>::empty());
    assert(merged_all(Seq::empty(), steps) == two);
    if a.merges_with(b) {
        assert(two =~= seq![a.merge(b)]);
    } else {
        assert(one.drop_first() =~= Seq::<StepModel>::empty());
        assert(merged_into(one.drop_first(), b) =~= seq![b]);
        assert(two =~= seq![a, b]);
    }
}

/// What `acc` asks for under the kind, or the document identifier, of
/// `probe`: its first element that can be merged with `probe`.
pub open spec fn requirement(acc: Seq<StepModel>, probe: StepModel) -> Option<StepModel>
    decreases acc.len(),
{
    if acc.len() == 0 {
        None
    } else if acc.first().merges_with(probe) {
        Some(acc.first())
    } else {
        requirement(acc.drop_first(), probe)
    }
}

/// Whether two steps ask for the same thing: the same kind of information,
/// to the same precision, over the same months, or the same document with
/// the same types allowed. The category of a document request is left out
/// of the comparison: a merge keeps the category of whichever request came
/// first.
pub open spec fn same_demand(x: StepModel, y: StepModel) -> bool {
    match (x, y) {
        (StepModel::FullName, StepModel::FullName) => true,
        (StepModel::Nationality, StepModel::Nationality) => true,
        (StepModel::Dob { precision }, StepModel::Dob { precision: other }) => precision == other,
        (StepModel::AddressHistory { months }, StepModel::AddressHistory { months: other }) => months
            == other,
        (
            StepModel::Document { id, allowed_types, .. },
            StepModel::Document { id: other_id, allowed_types: other_types, .. },
        ) => id == other_id && allowed_types == other_types,
        _ => false,
    }
}

/// Whether two accumulators ask for the same things: under every kind and
/// every document identifier, both ask for nothing or both ask for the
/// same. The order of their elements does not count.
pub open spec fn same_demands(a: Seq<StepModel>, b: Seq<StepModel>) -> bool {
    forall|probe: StepModel|
        match (#[trigger] requirement(a, probe), requirement(b, probe)) {
            (Some(x), Some(y)) => same_demand(x, y),
            (None, None) => true,
            _ => false,
        }
}

/// What an accumulator asks for after a merge: under the key of the merged
/// step, the merge of what it asked for before and the step; under every
/// other key, what it asked for before.
pub proof fn lemma_requirement_after_merge(acc: Seq<StepModel>, step: StepModel, probe: StepModel)
    ensures
        requirement(merged_into(acc, step), probe) == if probe.merges_with(step) {
            Some(
                match requirement(acc, probe) {
                    Some(x) => x.merge(step),
                    None => step,
                },
            )
        } else {
            requirement(acc, probe)
        },
    decreases acc.len(),
{
    let merged = merged_into(acc, step);
    lemma_merges_with_is_equivalence(step, probe, step);
    if acc.len() == 0 {
        assert(merged.first() == step);
        assert(merged.drop_first() =~= Seq::<StepModel>::empty());
        assert(requirement(merged.drop_first(), probe) is None);
        assert(requirement(acc, probe) is None);
    } else if acc.first().merges_with(step) {
        let first = acc.first();
        lemma_merges_with_is_equivalence(first, step, probe);
        lemma_merges_with_is_equivalence(first.merge(step), first, probe);
        assert(merged.first() == first.merge(step));
        assert(merged.drop_first() =~= acc.drop_first());
        if first.merges_with(probe) {
            assert(requirement(acc, probe) == Some(first));
            assert(requirement(merged, probe) == Some(first.merge(step)));
        } else {
            assert(requirement(acc, probe) == requirement(acc.drop_first(), probe));
            assert(requirement(merged, probe) == requirement(merged.drop_first(), probe));
        }
    } else {
        let first = acc.first();
        lemma_merges_with_is_equivalence(first, probe, step);
        lemma_requirement_after_merge(acc.drop_first(), step, probe);
        assert(merged.first() == first);
        assert(merged.drop_first() =~= merged_into(acc.drop_first(), step));
        if first.merges_with(probe) {
            assert(requirement(acc, probe) == Some(first));
            assert(requirement(merged, probe) == Some(first));
        } else {
            assert(requirement(acc, probe) == requirement(acc.drop_first(), probe));
            assert(requirement(merged, probe) == requirement(merged.drop_first(), probe));
        }
    }
}

/// Steps that can be merged form classes: a step merges with itself, with
/// whatever merges with it, and with whatever merges with one of those. A
/// merge stays in the class of the step that took it.
pub proof fn lemma_merges_with_is_equivalence(x: StepModel, y: StepModel, z: StepModel)
    ensures
        x.merges_with(x),
        x.merges_with(y) == y.merges_with(x),
        x.merges_with(y) && y.merges_with(z) ==> x.merges_with(z),
        x.merges_with(y) ==> (x.merges_with(z) == y.merges_with(z)),
        x.merge(y).merges_with(z) == x.merges_with(z),
        x.merges_with(y) ==> x.merge(y).merges_with(y),
{
}

/// Accumulators that ask for the same things still do so after the same
/// step was merged into each.
pub proof fn lemma_merge_into_respects_demands(a: Seq<StepModel>, b: Seq<StepModel>, step: StepModel)
    requires
        same_demands(a, b),
    ensures
        same_demands(merged_into(a, step), merged_into(b, step)),
{
    assert forall|probe: StepModel|
        match (
            #[trigger] requirement(merged_into(a, step), probe),
            requirement(merged_into(b, step), probe),
        ) {
            (Some(x), Some(y)) => same_demand(x, y),
            (None, None) => true,
            _ => false,
        } by {
        lemma_requirement_after_merge(a, step, probe);
        lemma_requirement_after_merge(b, step, probe);
        assert(match (#[trigger] requirement(a, probe), requirement(b, probe)) {
            (Some(x), Some(y)) => same_demand(x, y),
            (None, None) => true,
            _ => false,
        });
        lemma_requirement_merges_with_probe(a, probe);
        lemma_requirement_merges_with_probe(b, probe);
    }
}

/// What an accumulator asks for under the key of a probe can be merged
/// with the probe.
pub proof fn lemma_requirement_merges_with_probe(acc: Seq<StepModel>, probe: StepModel)
    ensures
        requirement(acc, probe) matches Some(x) ==> x.merges_with(probe),
    decreases acc.len(),
{
    if acc.len() > 0 && !acc.first().merges_with(probe) {
        lemma_requirement_merges_with_probe(acc.drop_first(), probe);
    }
}

/// The order in which two steps are merged does not change what the
/// accumulator asks for.
pub proof fn lemma_merge_order_keeps_demands(acc: Seq<StepModel>, a: StepModel, b: StepModel)
    ensures
        same_demands(merged_into(merged_into(acc, a), b), merged_into(merged_into(acc, b), a)),
{
    let ab = merged_into(merged_into(acc, a), b);
    let ba = merged_into(merged_into(acc, b), a);
    assert forall|probe: StepModel|
        match (#[trigger] requirement(ab, probe), requirement(ba, probe)) {
            (Some(x), Some(y)) => same_demand(x, y),
            (None, None) => true,
            _ => false,
        } by {
        lemma_requirement_after_merge(acc, a, probe);
        lemma_requirement_after_merge(merged_into(acc, a), b, probe);
        lemma_requirement_after_merge(acc, b, probe);
        lemma_requirement_after_merge(merged_into(acc, b), a, probe);
        lemma_requirement_merges_with_probe(acc, probe);
        match requirement(acc, probe) {
            Some(x) => {
                lemma_merges_commute(x, a, b);
            },
            None => {
                lemma_merges_commute(a, a, b);
                lemma_merges_commute(b, a, b);
            },
        }
    }
}

/// Merging two steps into a third gives the same demand in either order,
/// and so does merging the two with each other.
pub proof fn lemma_merges_commute(x: StepModel, a: StepModel, b: StepModel)
    ensures
        x.merges_with(a) && x.merges_with(b) ==> same_demand(
            x.merge(a).merge(b),
            x.merge(b).merge(a),
        ),
        a.merges_with(b) ==> same_demand(a.merge(b), b.merge(a)),
        same_demand(a, a),
{
    match (x, a, b) {
        (
            StepModel::Document { allowed_types: s, .. },
            StepModel::Document { allowed_types: t, .. },
            StepModel::Document { allowed_types: u, .. },
        ) => {
            assert(s.intersect(t).intersect(u) =~= s.intersect(u).intersect(t));
            assert(t.intersect(u) =~= u.intersect(t));
        },
        _ => {},
    }
    match (a, b) {
        (
            StepModel::Document { allowed_types: t, .. },
            StepModel::Document { allowed_types: u, .. },
        ) => {
            assert(t.intersect(u) =~= u.intersect(t));
        },
        _ => {},
    }
}

/// Accumulators that ask for the same things still do so after the same
/// steps were merged into each.
pub proof fn lemma_merge_all_respects_demands(
    a: Seq<StepModel>,
    b: Seq<StepModel>,
    steps: Seq<StepModel>,
)
    requires
        same_demands(a, b),
    ensures
        same_demands(merged_all(a, steps), merged_all(b, steps)),
    decreases steps.len(),
{
    if steps.len() > 0 {
        lemma_merge_into_respects_demands(a, b, steps.first());
        lemma_merge_all_respects_demands(
            merged_into(a, steps.first()),
            merged_into(b, steps.first()),
            steps.drop_first(),
        );
    }
}

/// What is asked for in the end does not depend on the order of the steps:
/// exchanging two neighbours anywhere in the run of steps leaves every
/// demand as it was. Only the order of the entries, and the category that a
/// merged document request keeps, can differ.
pub proof fn lemma_step_order_keeps_demands(
    acc: Seq<StepModel>,
    before: Seq<StepModel>,
    a: StepModel,
    b: StepModel,
    after: Seq<StepModel>,
)
    ensures
        same_demands(
            merged_all(acc, before + seq![a, b] + after),
            merged_all(acc, before + seq![b, a] + after),
        ),
{
    let start = merged_all(acc, before);
    lemma_merge_all_concat(acc, before + seq![a, b], after);
    lemma_merge_all_concat(acc, before + seq![b, a], after);
    lemma_merge_all_concat(acc, before, seq![a, b]);
    lemma_merge_all_concat(acc, before, seq![b, a]);
    lemma_merge_all_two(start, a, b);
    lemma_merge_all_two(start, b, a);
    lemma_merge_order_keeps_demands(start, a, b);
    lemma_merge_all_respects_demands(
        merged_into(merged_into(start, a), b),
        merged_into(merged_into(start, b), a),
        after,
    );
}

/// Merging a run of two steps is merging the first and then the second.
pub proof fn lemma_merge_all_two(acc: Seq<StepModel>, a: StepModel, b: StepModel)
    ensures
        merged_all(acc, seq![a, b]) == merged_into(merged_into(acc, a), b),
{
    let steps = seq![a, b];
    assert(steps.drop_first() =~= seq![b]);
    assert(seq![b].drop_first() =~= Seq::<StepModel>::empty());
    assert(merged_all(merged_into(acc, a), seq![b]) == merged_all(
        merged_into(merged_into(acc, a), b),
        seq![b].drop_first(),
    ));
}

/// Whether `acc` asks for at least what `step` asks for: it holds an entry
/// of the kind of `step`, or for the document of `step`, and merging `step`
/// into that entry would change nothing in what it demands.
pub open spec fn covers(acc: Seq<StepModel>, step: StepModel) -> bool {
    requirement(acc, step) matches Some(entry) && same_demand(entry.merge(step), entry)
}

/// After a step was merged, the accumulator covers it.
pub proof fn lemma_merge_into_covers_the_step(acc: Seq<StepModel>, step: StepModel)
    ensures
        covers(merged_into(acc, step), step),
{
    lemma_requirement_after_merge(acc, step, step);
    lemma_requirement_merges_with_probe(acc, step);
    lemma_merges_with_is_equivalence(step, step, step);
    match requirement(acc, step) {
        Some(x) => {
            lemma_merges_with_is_equivalence(x, step, step);
            lemma_merge_absorbs(x, step, step);
        },
        None => {
            lemma_merge_absorbs(step, step, step);
        },
    }
}

/// What an accumulator covers, it still covers after any further merge.
pub proof fn lemma_merge_into_keeps_covered(acc: Seq<StepModel>, covered: StepModel, step: StepModel)
    requires
        covers(acc, covered),
    ensures
        covers(merged_into(acc, step), covered),
{
    lemma_requirement_after_merge(acc, step, covered);
    lemma_requirement_merges_with_probe(acc, covered);
    let entry = requirement(acc, covered).unwrap();
    lemma_merges_with_is_equivalence(entry, covered, step);
    if covered.merges_with(step) {
        lemma_merge_absorbs(entry, step, covered);
    }
}

/// Once an entry demands what a step demands, it goes on doing so when more
/// is merged into it; and an entry demands what was last merged into it.
pub proof fn lemma_merge_absorbs(entry: StepModel, step: StepModel, covered: StepModel)
    ensures
        same_demand(entry.merge(entry), entry),
        entry.merges_with(step) ==> same_demand(entry.merge(step).merge(step), entry.merge(step)),
        entry.merges_with(step) && entry.merges_with(covered) && same_demand(
            entry.merge(covered),
            entry,
        ) ==> same_demand(entry.merge(step).merge(covered), entry.merge(step)),
{
    match (entry, step, covered) {
        (
            StepModel::Document { allowed_types: s, .. },
            StepModel::Document { allowed_types: t, .. },
            StepModel::Document { allowed_types: u, .. },
        ) => {
            assert(s.intersect(t).intersect(t) =~= s.intersect(t));
            if s.intersect(u) == s {
                assert(s.intersect(t).intersect(u) =~= s.intersect(u).intersect(t));
            }
        },
        _ => {},
    }
    match (entry, step) {
        (StepModel::Document { allowed_types: s, .. }, StepModel::Document { allowed_types: t, .. }) => {
            assert(s.intersect(t).intersect(t) =~= s.intersect(t));
        },
        _ => {},
    }
    match entry {
        StepModel::Document { allowed_types: s, .. } => {
            assert(s.intersect(s) =~= s);
        },
        _ => {},
    }
}

/// Nothing that was asked for is lost: after a run of steps was merged, the
/// accumulator covers every one of them.
pub proof fn lemma_merge_all_covers_every_step(acc: Seq<StepModel>, steps: Seq<StepModel>, i: int)
    requires
        0 <= i < steps.len(),
    ensures
        covers(merged_all(acc, steps), steps[i]),
    decreases steps.len(),
{
    let next = merged_into(acc, steps.first());
    if i == 0 {
        lemma_merge_into_covers_the_step(acc, steps.first());
        lemma_merge_all_keeps_covered(next, steps.first(), steps.drop_first());
    } else {
        assert(steps.drop_first()[i - 1] == steps[i]);
        lemma_merge_all_covers_every_step(next, steps.drop_first(), i - 1);
    }
}

/// What an accumulator covers, it still covers after any run of further
/// merges.
pub proof fn lemma_merge_all_keeps_covered(
    acc: Seq<StepModel>,
    covered: StepModel,
    steps: Seq<StepModel>,
)
    requires
        covers(acc, covered),
    ensures
        covers(merged_all(acc, steps), covered),
    decreases steps.len(),
{
    if steps.len() > 0 {
        lemma_merge_into_keeps_covered(acc, covered, steps.first());
        lemma_merge_all_keeps_covered(
            merged_into(acc, steps.first()),
            covered,
            steps.drop_first(),
        );
    }
}

} // verus!
