//! From the transcript of a corpus scan to what a classifier is trained on.
//!
//! A scan visits the corpus one identity after another and tries to extract a
//! face sample from every image file. Its transcript is the list of those
//! attempts, in the order they were made. Planning a rebuild turns the
//! transcript into the samples, one label per sample, and the registry that
//! gives the labels their meaning.

use vstd::prelude::*;
use crate::error::FaceError;
use crate::registry::{resolve_in, LabelRegistry, MAX_LABELS};

verus! {

/// One attempt to extract a face sample from an image file of `identity`.
pub struct Extraction<S> {
    /// The identity in whose partition the file lies.
    pub identity: String,
    /// The sample, or why there is none.
    pub outcome: Result<S, FaceError>,
}

/// What a classifier is trained on, and the registry that goes with it.
pub struct TrainingSet<S> {
    /// The samples, in scan order.
    pub samples: Vec<S>,
    /// `labels[k]` is the label of `samples[k]`.
    pub labels: Vec<i32>,
    /// The meaning of the labels.
    pub registry: LabelRegistry,
}

/// What a rebuild has to do once the corpus has been scanned.
pub enum RebuildPlan<S> {
    /// The scan gave no sample. Nothing is trained and the live model stays.
    KeepCurrent,
    /// Train a new classifier on this set.
    Train(TrainingSet<S>),
}

/// The sample of an attempt together with its owner, if the attempt succeeded.
pub open spec fn tag<S>(e: Extraction<S>) -> Option<(Seq<char>, S)> {
    match e.outcome {
        Ok(s) => Some((e.identity@, s)),
        Err(_) => None,
    }
}

/// Every sample that a scan extracted, with its owner, in scan order. Failed
/// attempts leave no trace.
pub open spec fn tagged<S>(scan: Seq<Extraction<S>>) -> Seq<(Seq<char>, S)> {
    scan.filter_map(|e: Extraction<S>| tag(e))
}

/// The owners of tagged samples, sample by sample.
pub open spec fn owners<S>(t: Seq<(Seq<char>, S)>) -> Seq<Seq<char>> {
    t.map_values(|p: (Seq<char>, S)| p.0)
}

/// The samples of tagged samples, without their owners.
pub open spec fn bare<S>(t: Seq<(Seq<char>, S)>) -> Seq<S> {
    t.map_values(|p: (Seq<char>, S)| p.1)
}

/// The distinct identities of `ids`, each at the place of its first
/// appearance.
pub open spec fn first_seen(ids: Seq<Seq<char>>) -> Seq<Seq<char>>
    decreases ids.len(),
{
    if ids.len() == 0 {
        Seq::empty()
    } else {
        let earlier = first_seen(ids.drop_last());
        if earlier.contains(ids.last()) {
            earlier
        } else {
            earlier.push(ids.last())
        }
    }
}

/// The registry that a scan calls for: the identities that own at least one
/// sample, in the order in which each was first successfully sampled.
pub open spec fn registry_of<S>(scan: Seq<Extraction<S>>) -> Seq<Seq<char>> {
    first_seen(owners(tagged(scan)))
}

/// `labels` names, through `reg`, the owner of each tagged sample.
pub open spec fn labels_match<S>(
    labels: Seq<i32>,
    reg: Seq<Seq<char>>,
    t: Seq<(Seq<char>, S)>,
) -> bool {
    &&& labels.len() == t.len()
    &&& forall|k: int|
        0 <= k < t.len() ==> resolve_in(reg, #[trigger] labels[k] as int) == Some(t[k].0)
}

/// `set` is the training set that `scan` calls for.
pub open spec fn is_training_set_of<S>(set: TrainingSet<S>, scan: Seq<Extraction<S>>) -> bool {
    &&& set.samples@ == bare(tagged(scan))
    &&& set.registry@ == registry_of(scan)
    &&& labels_match(set.labels@, set.registry@, tagged(scan))
}

/// The first-seen list has no duplicates and holds exactly the identities of
/// `ids`.
pub proof fn lemma_first_seen(ids: Seq<Seq<char>>)
    ensures
        first_seen(ids).no_duplicates(),
        first_seen(ids).len() <= ids.len(),
        forall|id: Seq<char>|
            #![trigger first_seen(ids).contains(id)]
            #![trigger ids.contains(id)]
            first_seen(ids).contains(id) <==> ids.contains(id),
    decreases ids.len(),
{
    if ids.len() > 0 {
        let front = ids.drop_last();
        let earlier = first_seen(front);
        lemma_first_seen(front);
        assert forall|id: Seq<char>|
            #![trigger first_seen(ids).contains(id)]
            #![trigger ids.contains(id)]
            first_seen(ids).contains(id) <==> ids.contains(id) by {
            if ids.contains(id) {
                let i = choose|i: int| 0 <= i < ids.len() && ids[i] == id;
                if i < ids.len() - 1 {
                    assert(front[i] == id);
                    assert(front.contains(id));
                    let j = choose|j: int| 0 <= j < earlier.len() && earlier[j] == id;
                    assert(first_seen(ids)[j] == id);
                } else if !earlier.contains(id) {
                    assert(first_seen(ids)[earlier.len() as int] == id);
                }
            }
            if first_seen(ids).contains(id) {
                let j = choose|j: int| 0 <= j < first_seen(ids).len() && first_seen(ids)[j] == id;
                if j < earlier.len() {
                    assert(earlier[j] == id);
                    assert(earlier.contains(id));
                    let i = choose|i: int| 0 <= i < front.len() && front[i] == id;
                    assert(ids[i] == id);
                } else {
                    assert(ids[ids.len() - 1] == id);
                }
            }
        }
    }
}

/// `plan` is what `scan` calls for: nothing if the scan extracted no sample,
/// a failure if it met more identities than there are labels, and else the
/// training set of the scan.
pub open spec fn is_plan_of<S>(
    plan: Result<RebuildPlan<S>, FaceError>,
    scan: Seq<Extraction<S>>,
) -> bool {
    match plan {
        Ok(RebuildPlan::KeepCurrent) => tagged(scan).len() == 0,
        Ok(RebuildPlan::Train(set)) => {
            &&& tagged(scan).len() > 0
            &&& registry_of(scan).len() <= MAX_LABELS
            &&& is_training_set_of(set, scan)
        },
        Err(e) => e == FaceError::Training && registry_of(scan).len() > MAX_LABELS,
    }
}

/// The samples of `set` with their labels resolved: what a classifier that
/// is trained on the set knows of each sample, in terms that outlive the
/// labels.
pub open spec fn named<S>(set: TrainingSet<S>) -> Seq<(Seq<char>, S)> {
    Seq::new(
        set.samples@.len(),
        |k: int| (set.registry@[set.labels@[k] as int], set.samples@[k]),
    )
}

/// Whether some attempt of `scan` extracted a sample for `identity`.
pub open spec fn is_sampled<S>(scan: Seq<Extraction<S>>, identity: Seq<char>) -> bool {
    exists|i: int|
        0 <= i < scan.len() && (#[trigger] scan[i]).identity@ == identity && scan[i].outcome is Ok
}

/// Resolving the labels of a training set gives every sample back its owner:
/// the set says of the samples exactly what the scan found, and no more.
pub proof fn lemma_labels_name_owners<S>(set: TrainingSet<S>, scan: Seq<Extraction<S>>)
    requires
        is_training_set_of(set, scan),
    ensures
        named(set) == tagged(scan),
{
    let t = tagged(scan);
    assert forall|k: int| 0 <= k < t.len() implies named(set)[k] == t[k] by {
        assert(resolve_in(set.registry@, set.labels@[k] as int) == Some(t[k].0));
        assert(bare(t)[k] == t[k].1);
    }
    assert(named(set) =~= t);
}

/// Label locality. Two scans that extract the same samples for the same
/// identities, in whatever order, may number the identities differently; with
/// the labels resolved, their training sets say the same.
pub proof fn lemma_label_locality<S>(
    a: TrainingSet<S>,
    scan_a: Seq<Extraction<S>>,
    b: TrainingSet<S>,
    scan_b: Seq<Extraction<S>>,
)
    requires
        is_training_set_of(a, scan_a),
        is_training_set_of(b, scan_b),
        tagged(scan_a).to_multiset() == tagged(scan_b).to_multiset(),
    ensures
        named(a).to_multiset() == named(b).to_multiset(),
        forall|id: Seq<char>| a.registry@.contains(id) <==> b.registry@.contains(id),
{
    lemma_labels_name_owners(a, scan_a);
    lemma_labels_name_owners(b, scan_b);
    assert forall|id: Seq<char>| a.registry@.contains(id) <==> b.registry@.contains(id) by {
        lemma_first_seen(owners(tagged(scan_a)));
        lemma_first_seen(owners(tagged(scan_b)));
        if owners(tagged(scan_a)).contains(id) {
            lemma_owner_in_multiset(tagged(scan_a), tagged(scan_b), id);
        }
        if owners(tagged(scan_b)).contains(id) {
            lemma_owner_in_multiset(tagged(scan_b), tagged(scan_a), id);
        }
    }
}

/// An owner among tagged samples is an owner among any rearrangement of them.
proof fn lemma_owner_in_multiset<S>(
    t: Seq<(Seq<char>, S)>,
    u: Seq<(Seq<char>, S)>,
    id: Seq<char>,
)
    requires
        t.to_multiset() == u.to_multiset(),
        owners(t).contains(id),
    ensures
        owners(u).contains(id),
{
    let k = choose|k: int| 0 <= k < owners(t).len() && owners(t)[k] == id;
    t.to_multiset_ensures();
    u.to_multiset_ensures();
    assert(t.contains(t[k]));
    assert(t.to_multiset().count(t[k]) > 0);
    assert(u.to_multiset().count(t[k]) > 0);
    assert(u.contains(t[k]));
    let j = choose|j: int| 0 <= j < u.len() && u[j] == t[k];
    assert(owners(u)[j] == id);
}

/// A scan has one training set: running the plan again on the same
/// transcript gives the same samples, the same registry and the same labels.
pub proof fn lemma_training_set_is_unique<S>(
    a: TrainingSet<S>,
    b: TrainingSet<S>,
    scan: Seq<Extraction<S>>,
)
    requires
        is_training_set_of(a, scan),
        is_training_set_of(b, scan),
    ensures
        a.samples@ == b.samples@,
        a.registry@ == b.registry@,
        a.labels@ == b.labels@,
{
    let t = tagged(scan);
    lemma_first_seen(owners(t));
    assert forall|k: int| 0 <= k < t.len() implies a.labels@[k] == b.labels@[k] by {
        assert(resolve_in(a.registry@, a.labels@[k] as int) == Some(t[k].0));
        assert(resolve_in(b.registry@, b.labels@[k] as int) == Some(t[k].0));
    }
    assert(a.labels@ =~= b.labels@);
}

/// The registry of a scan holds an identity if and only if the scan extracted
/// a sample for it. An identity whose every attempt failed has no label, and
/// neither has one that the scan never met.
pub proof fn lemma_registry_holds_the_sampled<S>(scan: Seq<Extraction<S>>, identity: Seq<char>)
    ensures
        registry_of(scan).contains(identity) <==> is_sampled(scan, identity),
        registry_of(scan).no_duplicates(),
{
    let f = |e: Extraction<S>| tag(e);
    let t = tagged(scan);
    lemma_first_seen(owners(t));
    if owners(t).contains(identity) {
        let k = choose|k: int| 0 <= k < owners(t).len() && owners(t)[k] == identity;
        assert(t.contains(t[k]));
        scan.lemma_filter_map_contains(f, t[k]);
        let e = choose|e: Extraction<S>| #[trigger] scan.contains(e) && f(e) == Some(t[k]);
        let i = choose|i: int| 0 <= i < scan.len() && scan[i] == e;
        assert(scan[i].identity@ == identity && scan[i].outcome is Ok);
    }
    if is_sampled(scan, identity) {
        let i = choose|i: int|
            0 <= i < scan.len() && (#[trigger] scan[i]).identity@ == identity
                && scan[i].outcome is Ok;
        lemma_tagged_holds(scan, i);
        let pair = tag(scan[i]).unwrap();
        let k = choose|k: int| 0 <= k < t.len() && t[k] == pair;
        assert(owners(t)[k] == identity);
    }
}

/// A scan in which no attempt succeeded calls for no training, and is no
/// error. So does a scan of an empty corpus.
pub proof fn lemma_no_sample_no_training<S>(
    plan: Result<RebuildPlan<S>, FaceError>,
    scan: Seq<Extraction<S>>,
)
    requires
        is_plan_of(plan, scan),
        forall|i: int| 0 <= i < scan.len() ==> (#[trigger] scan[i]).outcome is Err,
    ensures
        plan matches Ok(RebuildPlan::KeepCurrent),
        tagged(scan).len() == 0,
{
    lemma_nothing_tagged(scan);
}

/// Failed attempts leave nothing behind.
proof fn lemma_nothing_tagged<S>(scan: Seq<Extraction<S>>)
    requires
        forall|i: int| 0 <= i < scan.len() ==> (#[trigger] scan[i]).outcome is Err,
    ensures
        tagged(scan).len() == 0,
    decreases scan.len(),
{
    if scan.len() > 0 {
        let front = scan.drop_last();
        assert forall|i: int| 0 <= i < front.len() implies (#[trigger] front[i]).outcome is Err by {
            assert(front[i] == scan[i]);
        }
        lemma_nothing_tagged(front);
        assert(scan.last() == scan[scan.len() - 1]);
    }
}

/// A successful attempt is among the tagged samples.
proof fn lemma_tagged_holds<S>(scan: Seq<Extraction<S>>, i: int)
    requires
        0 <= i < scan.len(),
        scan[i].outcome is Ok,
    ensures
        tagged(scan).contains(tag(scan[i]).unwrap()),
    decreases scan.len(),
{
    let f = |e: Extraction<S>| tag(e);
    let front = scan.drop_last();
    if i == scan.len() - 1 {
        let t = tagged(scan);
        assert(t[t.len() - 1] == tag(scan[i]).unwrap());
    } else {
        lemma_tagged_holds(front, i);
        let pair = tag(scan[i]).unwrap();
        let k = choose|k: int| 0 <= k < tagged(front).len() && tagged(front)[k] == pair;
        assert(tagged(scan)[k] == pair);
    }
}

/// Labels are dense: each is one of `0..N`, where `N` is the number of
/// identities in the registry, and each of `0..N` labels at least one sample.
pub proof fn lemma_labels_are_dense<S>(set: TrainingSet<S>, scan: Seq<Extraction<S>>, n: int)
    requires
        is_training_set_of(set, scan),
    ensures
        forall|k: int|
            0 <= k < set.labels@.len() ==> 0 <= #[trigger] set.labels@[k] < set.registry@.len(),
        0 <= n < set.registry@.len() ==> exists|k: int|
            0 <= k < set.labels@.len() && #[trigger] set.labels@[k] == n,
{
    let t = tagged(scan);
    let reg = set.registry@;
    lemma_first_seen(owners(t));
    assert forall|k: int| 0 <= k < set.labels@.len() implies 0 <= #[trigger] set.labels@[k]
        < reg.len() by {
        assert(resolve_in(reg, set.labels@[k] as int) == Some(t[k].0));
    }
    if 0 <= n < reg.len() {
        assert(reg.contains(reg[n]));
        assert(owners(t).contains(reg[n]));
        let k = choose|k: int| 0 <= k < owners(t).len() && owners(t)[k] == reg[n];
        assert(resolve_in(reg, set.labels@[k] as int) == Some(t[k].0));
        assert(set.labels@[k] == n);
    }
}

/// Seeing one more identity registers it.
proof fn lemma_first_seen_push(ids: Seq<Seq<char>>, id: Seq<char>)
    ensures
        first_seen(ids.push(id)) == if first_seen(ids).contains(id) {
            first_seen(ids)
        } else {
            first_seen(ids).push(id)
        },
{
    assert(ids.push(id).drop_last() =~= ids);
}

/// Scanning further never takes an identity out of the registry.
proof fn lemma_registry_grows<S>(scan: Seq<Extraction<S>>, i: int)
    requires
        0 <= i <= scan.len(),
    ensures
        registry_of(scan.take(i)).len() <= registry_of(scan).len(),
    decreases scan.len() - i,
{
    if i == scan.len() {
        assert(scan.take(i) =~= scan);
    } else {
        lemma_registry_grows(scan, i + 1);
        let before = tagged(scan.take(i));
        scan.lemma_filter_map_take_succ(|e: Extraction<S>| tag(e), i);
        match tag(scan[i]) {
            Some(pair) => {
                assert(tagged(scan.take(i + 1)) =~= before.push(pair));
                assert(owners(before.push(pair)) =~= owners(before).push(pair.0));
                lemma_first_seen_push(owners(before), pair.0);
            },
            None => {
                assert(tagged(scan.take(i + 1)) =~= before);
            },
        }
    }
}

/// Decides what a rebuild trains on, from the transcript of the corpus scan.
///
/// Failed attempts are passed over. Each identity that owns a sample gets the
/// next label, counting from 0, when its first sample turns up. An identity
/// without a sample gets none. With no sample at all there is nothing to
/// train; with more identities than there are labels the rebuild fails.
pub fn plan_rebuild<S>(scan: Vec<Extraction<S>>) -> (plan: Result<RebuildPlan<S>, FaceError>)
    ensures
        is_plan_of(plan, scan@),
{
    let ghost all = scan@;
    let mut samples: Vec<S> = Vec::new();
    let mut labels: Vec<i32> = Vec::new();
    let mut registry = LabelRegistry::new();
    proof {
        assert(all.take(0) =~= Seq::<Extraction<S>>::empty());
    }
    for e in it: scan.into_iter()
        invariant
            it.seq() == all,
            samples@ == bare(tagged(all.take(it.index()))),
            registry@ == registry_of(all.take(it.index())),
            labels_match(labels@, registry@, tagged(all.take(it.index()))),
    {
        let ghost i = it.index();
        let ghost before = tagged(all.take(i));
        proof {
            all.lemma_filter_map_take_succ(|e: Extraction<S>| tag(e), i);
            use_type_invariant(&registry);
        }
        match e.outcome {
            Ok(sample) => {
                let ghost pair = (e.identity@, sample);
                let ghost reg_before = registry@;
                proof {
                    assert(tagged(all.take(i + 1)) =~= before.push(pair));
                    assert(owners(before.push(pair)) =~= owners(before).push(pair.0));
                    assert(bare(before.push(pair)) =~= bare(before).push(pair.1));
                    lemma_first_seen_push(owners(before), pair.0);
                }
                match registry.register(e.identity.as_str()) {
                    Some(label) => {
                        samples.push(sample);
                        labels.push(label);
                        proof {
                            assert(registry@ == registry_of(all.take(i + 1)));
                            assert(reg_before.contains(pair.0) ==> registry@[reg_before.index_of(
                                pair.0,
                            )] == pair.0);
                            assert forall|k: int| 0 <= k < before.len() + 1 implies resolve_in(
                                registry@,
                                #[trigger] labels@[k] as int,
                            ) == Some(before.push(pair)[k].0) by {
                                if k < before.len() {
                                    assert(resolve_in(reg_before, labels@[k] as int) == Some(
                                        before[k].0,
                                    ));
                                }
                            }
                        }
                    },
                    None => {
                        proof {
                            lemma_registry_grows(all, i + 1);
                        }
                        return Err(FaceError::Training);
                    },
                }
            },
            Err(_) => {
                proof {
                    assert(tagged(all.take(i + 1)) =~= before);
                }
            },
        }
    }
    proof {
        assert(all.take(all.len() as int) =~= all);
        use_type_invariant(&registry);
    }
    if samples.len() == 0 {
        Ok(RebuildPlan::KeepCurrent)
    } else {
        Ok(RebuildPlan::Train(TrainingSet { samples, labels, registry }))
    }
}

} // verus!
