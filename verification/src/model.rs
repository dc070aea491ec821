//! The live model: one trained classifier together with the registry that
//! gives its labels their meaning.
//!
//! The classifier itself is a value of the caller's image engine. The model
//! owns it, hands it out for scoring, and replaces it only together with its
//! registry, in one step, when a training pass has succeeded.

use vstd::prelude::*;
use crate::distance::Distance;
use crate::error::FaceError;
use crate::registry::{resolve_in, LabelRegistry};
use crate::training::{
    is_plan_of, is_sampled, is_training_set_of, lemma_labels_name_owners,
    lemma_no_sample_no_training, lemma_registry_holds_the_sampled, named, registry_of, tagged,
    Extraction, RebuildPlan, TrainingSet,
};

verus! {

/// What a model holds, as plain values.
pub ghost struct ModelState<C> {
    /// The trained classifier, if a training pass has succeeded yet.
    pub classifier: Option<C>,
    /// The identities that the classifier's labels stand for.
    pub registry: Seq<Seq<char>>,
}

/// How a training pass ended.
pub enum TrainingOutcome<C> {
    /// There was nothing to train on.
    Skipped,
    /// The classifier refused the sample set.
    Failed,
    /// A new classifier was trained; `registry` names its labels.
    Trained { classifier: C, registry: LabelRegistry },
}

/// The model after a training pass that ended in `outcome`: replaced as a
/// whole if the pass succeeded, untouched if not.
pub open spec fn after_training<C>(before: ModelState<C>, outcome: TrainingOutcome<C>) -> ModelState<
    C,
> {
    match outcome {
        TrainingOutcome::Trained { classifier, registry } => ModelState {
            classifier: Some(classifier),
            registry: registry@,
        },
        _ => before,
    }
}

/// What `train` reports of a pass that ended in `outcome`.
pub open spec fn training_report<C>(outcome: TrainingOutcome<C>) -> Result<(), FaceError> {
    match outcome {
        TrainingOutcome::Failed => Err(FaceError::Training),
        _ => Ok(()),
    }
}

/// Whether `outcome` is a way for a rebuild with the plan `plan` to end: a
/// pass is skipped exactly when nothing is to be trained, and a classifier
/// that was trained goes with the registry of the set it was trained on.
pub open spec fn ends_plan<S, C>(
    outcome: TrainingOutcome<C>,
    plan: Result<RebuildPlan<S>, FaceError>,
) -> bool {
    match plan {
        Ok(RebuildPlan::KeepCurrent) => outcome is Skipped,
        Ok(RebuildPlan::Train(set)) => match outcome {
            TrainingOutcome::Skipped => false,
            TrainingOutcome::Failed => true,
            TrainingOutcome::Trained { classifier, registry } => registry@ == set.registry@,
        },
        Err(_) => outcome is Failed,
    }
}

/// The identity that a prediction names: the one the label stands for, if the
/// distance is accepted. None otherwise, whatever the label.
pub open spec fn identified(reg: Seq<Seq<char>>, label: int, distance: Distance) -> Option<
    Seq<char>,
> {
    if distance.accepted() {
        resolve_in(reg, label)
    } else {
        None
    }
}

/// The one live model of an identification service.
pub struct FaceRecognitionModel<C> {
    classifier: Option<C>,
    registry: LabelRegistry,
}

impl<C> View for FaceRecognitionModel<C> {
    type V = ModelState<C>;

    closed spec fn view(&self) -> ModelState<C> {
        ModelState { classifier: self.classifier, registry: self.registry@ }
    }
}

impl<C> FaceRecognitionModel<C> {
    /// A model before any training: no classifier and no labels.
    pub fn new() -> (model: Self)
        ensures
            model@.classifier is None,
            model@.registry == Seq::<Seq<char>>::empty(),
    {
        FaceRecognitionModel { classifier: None, registry: LabelRegistry::new() }
    }

    /// Whether a training pass has succeeded yet.
    pub fn is_trained(&self) -> (trained: bool)
        ensures
            trained == self@.classifier is Some,
    {
        self.classifier.is_some()
    }

    /// The registry of the live classifier.
    pub fn labels(&self) -> (registry: &LabelRegistry)
        ensures
            registry@ == self@.registry,
    {
        &self.registry
    }

    /// Ends a training pass. A new classifier and its registry go live
    /// together; a pass that was skipped or failed leaves the model exactly as
    /// it was, and a failed one is reported.
    pub fn train(&mut self, outcome: TrainingOutcome<C>) -> (result: Result<(), FaceError>)
        ensures
            final(self)@ == after_training(old(self)@, outcome),
            result == training_report(outcome),
    {
        match outcome {
            TrainingOutcome::Skipped => Ok(()),
            TrainingOutcome::Failed => Err(FaceError::Training),
            TrainingOutcome::Trained { classifier, registry } => {
                *self = FaceRecognitionModel { classifier: Some(classifier), registry };
                Ok(())
            },
        }
    }

    /// The first half of an identification: what to score, and with what.
    ///
    /// A probe from which no face could be extracted fails with the
    /// extractor's error. An extracted face fails with `ModelNotTrained` while
    /// there is no classifier; otherwise it comes back with the classifier
    /// that is to score it.
    pub fn begin_identify<S>(&self, extraction: Result<S, FaceError>) -> (step: Result<
        (&C, S),
        FaceError,
    >)
        ensures
            step == match extraction {
                Err(e) => Err::<(&C, S), FaceError>(e),
                Ok(sample) => match self@.classifier {
                    None => Err::<(&C, S), FaceError>(FaceError::ModelNotTrained),
                    Some(classifier) => Ok::<(&C, S), FaceError>((&classifier, sample)),
                },
            },
    {
        match extraction {
            Err(e) => Err(e),
            Ok(sample) => match &self.classifier {
                None => Err(FaceError::ModelNotTrained),
                Some(classifier) => Ok((classifier, sample)),
            },
        }
    }

    /// The second half of an identification: what the classifier's answer
    /// means.
    ///
    /// Without a trained classifier there is no answer to interpret, and the
    /// call fails. Otherwise the result is the identity that `label` stands
    /// for, provided the distance is accepted and the label is one of the
    /// live registry; in every other case it is no match.
    pub fn predict(&self, label: i32, distance: Distance) -> (result: Result<
        Option<String>,
        FaceError,
    >)
        ensures
            self@.classifier is None ==> result == Err::<Option<String>, FaceError>(
                FaceError::ModelNotTrained,
            ),
            self@.classifier is Some ==> match result {
                Ok(Some(identity)) => identified(self@.registry, label as int, distance) == Some(
                    identity@,
                ),
                Ok(None) => identified(self@.registry, label as int, distance) is None,
                Err(_) => false,
            },
    {
        if self.classifier.is_none() {
            return Err(FaceError::ModelNotTrained);
        }
        if distance.is_match() {
            Ok(self.registry.resolve(label))
        } else {
            Ok(None)
        }
    }
}

/// A rebuild whose scan extracted no sample is a quiet no-op. It reports no
/// error and leaves the model exactly as it was: a model that was never
/// trained stays untrained, and a trained one is not discarded.
pub proof fn lemma_rebuild_without_samples<S, C>(
    before: ModelState<C>,
    scan: Seq<Extraction<S>>,
    plan: Result<RebuildPlan<S>, FaceError>,
    outcome: TrainingOutcome<C>,
)
    requires
        forall|i: int| 0 <= i < scan.len() ==> (#[trigger] scan[i]).outcome is Err,
        is_plan_of(plan, scan),
        ends_plan(outcome, plan),
    ensures
        outcome is Skipped,
        training_report(outcome) is Ok,
        after_training(before, outcome) == before,
{
    lemma_no_sample_no_training(plan, scan);
}

/// A rebuild that fails, at whatever point, leaves the model exactly as it
/// was and reports the failure.
pub proof fn lemma_failed_rebuild_keeps_model<C>(before: ModelState<C>, outcome: TrainingOutcome<C>)
    requires
        outcome is Failed,
    ensures
        training_report(outcome) == Err::<(), FaceError>(FaceError::Training),
        after_training(before, outcome) == before,
{
}

/// A rebuild that succeeds replaces classifier and registry together. The new
/// registry is the one of the scan, and through it every label that the new
/// classifier was trained with names the owner of its sample.
pub proof fn lemma_rebuild_replaces_both<S, C>(
    before: ModelState<C>,
    scan: Seq<Extraction<S>>,
    plan: Result<RebuildPlan<S>, FaceError>,
    outcome: TrainingOutcome<C>,
)
    requires
        is_plan_of(plan, scan),
        ends_plan(outcome, plan),
        outcome is Trained,
    ensures
        plan matches Ok(RebuildPlan::Train(set)) && named(set) == tagged(scan),
        after_training(before, outcome).classifier == Some(outcome->classifier),
        after_training(before, outcome).registry == registry_of(scan),
        training_report(outcome) is Ok,
{
    match plan {
        Ok(RebuildPlan::Train(set)) => {
            lemma_labels_name_owners(set, scan);
        },
        _ => {},
    }
}

/// What an identification means. When a classifier that was trained on the
/// set of a scan answers with the label of one of its samples, at an accepted
/// distance, the prediction names the identity in whose partition that sample
/// was found; at any other distance it names nobody.
pub proof fn lemma_prediction_names_the_owner<S>(
    set: TrainingSet<S>,
    scan: Seq<Extraction<S>>,
    k: int,
    distance: Distance,
)
    requires
        is_training_set_of(set, scan),
        0 <= k < set.labels@.len(),
    ensures
        distance.accepted() ==> identified(set.registry@, set.labels@[k] as int, distance)
            == Some(tagged(scan)[k].0),
        !distance.accepted() ==> identified(set.registry@, set.labels@[k] as int, distance)
            is None,
{
    assert(resolve_in(set.registry@, set.labels@[k] as int) == Some(tagged(scan)[k].0));
}

/// Partition isolation. An identity for which the scan extracted no sample is
/// unknown to the model that the scan leads to: no label and no distance make
/// a prediction name it.
pub proof fn lemma_unsampled_identity_is_never_named<S>(
    scan: Seq<Extraction<S>>,
    identity: Seq<char>,
    label: int,
    distance: Distance,
)
    requires
        !is_sampled(scan, identity),
    ensures
        !registry_of(scan).contains(identity),
        identified(registry_of(scan), label, distance) != Some(identity),
{
    lemma_registry_holds_the_sampled(scan, identity);
    if identified(registry_of(scan), label, distance) == Some(identity) {
        assert(registry_of(scan)[label] == identity);
    }
}

} // verus!
