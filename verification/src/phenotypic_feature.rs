//! Builder of a phenotypic feature.

use crate::base::{or_empty, text_or_empty};
use crate::schema::{
    Evidence, EvidenceModel, OntologyClass, OntologyClassModel, PhenotypicFeature,
    PhenotypicFeatureModel, TimeElement, TimeElementModel,
};
use crate::{build_all_into, built_all, Build, Buildable, Filled, Slot, Unset};
use std::marker::PhantomData;
use vstd::prelude::*;

verus! {

/// What a [`PhenotypicFeatureBuilder`] holds.
pub ghost struct PhenotypicFeatureDraft {
    pub description: Option<Seq<char>>,
    pub feature_type: Option<OntologyClassModel>,
    pub excluded: bool,
    pub severity: Option<OntologyClassModel>,
    pub modifiers: Seq<OntologyClassModel>,
    pub onset: Option<TimeElementModel>,
    pub resolution: Option<TimeElementModel>,
    pub evidence: Seq<EvidenceModel>,
}

impl PhenotypicFeatureDraft {
    /// The draft of a builder on which no setter has run.
    pub open spec fn empty() -> PhenotypicFeatureDraft {
        PhenotypicFeatureDraft {
            description: None,
            feature_type: None,
            excluded: false,
            severity: None,
            modifiers: Seq::empty(),
            onset: None,
            resolution: None,
            evidence: Seq::empty(),
        }
    }

    /// Whether every mandatory field has its value.
    pub open spec fn complete(self) -> bool {
        self.feature_type is Some
    }

    /// The record that a complete draft finalizes to. A description that was
    /// never set is the empty text.
    pub open spec fn finish(self) -> PhenotypicFeatureModel {
        PhenotypicFeatureModel {
            description: or_empty(self.description),
            feature_type: self.feature_type,
            excluded: self.excluded,
            severity: self.severity,
            modifiers: self.modifiers,
            onset: self.onset,
            resolution: self.resolution,
            evidence: self.evidence,
        }
    }
}

/// Builder of a [`PhenotypicFeature`]. The type of the feature is mandatory.
#[derive(Debug, PartialEq)]
pub struct PhenotypicFeatureBuilder<T: Slot = Unset> {
    description: Option<String>,
    feature_type: Option<OntologyClass>,
    excluded: bool,
    severity: Option<OntologyClass>,
    modifiers: Vec<OntologyClass>,
    onset: Option<TimeElement>,
    resolution: Option<TimeElement>,
    evidence: Vec<Evidence>,
    data: PhantomData<T>,
}

impl<T: Slot> View for PhenotypicFeatureBuilder<T> {
    type V = PhenotypicFeatureDraft;

    closed spec fn view(&self) -> PhenotypicFeatureDraft {
        PhenotypicFeatureDraft {
            description: self.description.deep_view(),
            feature_type: self.feature_type.deep_view(),
            excluded: self.excluded,
            severity: self.severity.deep_view(),
            modifiers: self.modifiers.deep_view(),
            onset: self.onset.deep_view(),
            resolution: self.resolution.deep_view(),
            evidence: self.evidence.deep_view(),
        }
    }
}

impl PhenotypicFeatureBuilder<Unset> {
    /// Sets the type of the feature.
    pub fn feature_type(self, feature_type: impl Build<OntologyClass>) -> (r:
        PhenotypicFeatureBuilder<Filled>)
        ensures
            r@ == (PhenotypicFeatureDraft { feature_type: Some(feature_type.built()), ..self@ }),
            r.wf(),
    {
        PhenotypicFeatureBuilder {
            description: self.description,
            feature_type: Some(feature_type.build()),
            excluded: self.excluded,
            severity: self.severity,
            modifiers: self.modifiers,
            onset: self.onset,
            resolution: self.resolution,
            evidence: self.evidence,
            data: PhantomData,
        }
    }
}

impl<T: Slot> PhenotypicFeatureBuilder<T> {
    /// The marker reads "filled" exactly when the type of the feature is held.
    pub open spec fn wf(&self) -> bool {
        T::filled() <==> self@.feature_type is Some
    }

    #[verifier::type_invariant]
    spec fn inv(self) -> bool {
        self.wf()
    }

    /// Sets the description. The value set last counts.
    pub fn description(self, description: impl Build<String>) -> (r: PhenotypicFeatureBuilder<T>)
        ensures
            r@ == (PhenotypicFeatureDraft { description: Some(description.built()), ..self@ }),
            r.wf(),
    {
        proof {
            use_type_invariant(&self);
        }
        let mut builder = self;
        builder.description = Some(description.build());
        builder
    }

    /// Marks the feature as observed, which it is unless marked otherwise.
    pub fn observed(self) -> (r: PhenotypicFeatureBuilder<T>)
        ensures
            r@ == (PhenotypicFeatureDraft { excluded: false, ..self@ }),
            r.wf(),
    {
        proof {
            use_type_invariant(&self);
        }
        let mut builder = self;
        builder.excluded = false;
        builder
    }

    /// Marks the feature as excluded: looked for and not found.
    pub fn excluded(self) -> (r: PhenotypicFeatureBuilder<T>)
        ensures
            r@ == (PhenotypicFeatureDraft { excluded: true, ..self@ }),
            r.wf(),
    {
        proof {
            use_type_invariant(&self);
        }
        let mut builder = self;
        builder.excluded = true;
        builder
    }

    /// Sets the severity. The value set last counts.
    pub fn severity(self, severity: impl Build<OntologyClass>) -> (r: PhenotypicFeatureBuilder<T>)
        ensures
            r@ == (PhenotypicFeatureDraft { severity: Some(severity.built()), ..self@ }),
            r.wf(),
    {
        proof {
            use_type_invariant(&self);
        }
        let mut builder = self;
        builder.severity = Some(severity.build());
        builder
    }

    /// Appends one modifier.
    pub fn add_modifier(
        self,
        modifier: impl Build<OntologyClass>,
    ) -> (r: PhenotypicFeatureBuilder<T>)
        ensures
            r@ == (PhenotypicFeatureDraft {
                modifiers: self@.modifiers.push(modifier.built()),
                ..self@
            }),
            r.wf(),
    {
        proof {
            use_type_invariant(&self);
        }
        let ghost before = self.modifiers.deep_view();
        let mut builder = self;
        let mut held = builder.modifiers;
        held.push(modifier.build());
        assert(held.deep_view() == before.push(modifier.built()));
        builder.modifiers = held;
        builder
    }

    /// Appends the modifiers, in the order given.
    pub fn extend_modifiers<B: Build<OntologyClass>>(
        self,
        modifiers: Vec<B>,
    ) -> (r: PhenotypicFeatureBuilder<T>)
        ensures
            r@ == (PhenotypicFeatureDraft {
                modifiers: self@.modifiers + built_all::<OntologyClass, B>(modifiers@),
                ..self@
            }),
            r.wf(),
    {
        proof {
            use_type_invariant(&self);
        }
        let mut builder = self;
        let mut held = builder.modifiers;
        build_all_into(&mut held, modifiers);
        builder.modifiers = held;
        builder
    }

    /// Removes every modifier.
    pub fn clear_modifiers(self) -> (r: PhenotypicFeatureBuilder<T>)
        ensures
            r@ == (PhenotypicFeatureDraft { modifiers: Seq::empty(), ..self@ }),
            r.wf(),
    {
        proof {
            use_type_invariant(&self);
        }
        let mut builder = self;
        let mut held = builder.modifiers;
        held.clear();
        assert(held.deep_view() == Seq::<OntologyClassModel>::empty());
        builder.modifiers = held;
        builder
    }

    /// Sets the onset. The value set last counts.
    pub fn onset(self, onset: impl Build<TimeElement>) -> (r: PhenotypicFeatureBuilder<T>)
        ensures
            r@ == (PhenotypicFeatureDraft { onset: Some(onset.built()), ..self@ }),
            r.wf(),
    {
        proof {
            use_type_invariant(&self);
        }
        let mut builder = self;
        builder.onset = Some(onset.build());
        builder
    }

    /// Sets the resolution. The value set last counts.
    pub fn resolution(self, resolution: impl Build<TimeElement>) -> (r: PhenotypicFeatureBuilder<T>)
        ensures
            r@ == (PhenotypicFeatureDraft { resolution: Some(resolution.built()), ..self@ }),
            r.wf(),
    {
        proof {
            use_type_invariant(&self);
        }
        let mut builder = self;
        builder.resolution = Some(resolution.build());
        builder
    }

    /// Appends one piece of evidence.
    pub fn add_evidence(self, evidence: impl Build<Evidence>) -> (r: PhenotypicFeatureBuilder<T>)
        ensures
            r@ == (PhenotypicFeatureDraft {
                evidence: self@.evidence.push(evidence.built()),
                ..self@
            }),
            r.wf(),
    {
        proof {
            use_type_invariant(&self);
        }
        let ghost before = self.evidence.deep_view();
        let mut builder = self;
        let mut held = builder.evidence;
        held.push(evidence.build());
        assert(held.deep_view() == before.push(evidence.built()));
        builder.evidence = held;
        builder
    }

    /// Appends the pieces of evidence, in the order given.
    pub fn extend_evidence<B: Build<Evidence>>(
        self,
        evidence: Vec<B>,
    ) -> (r: PhenotypicFeatureBuilder<T>)
        ensures
            r@ == (PhenotypicFeatureDraft {
                evidence: self@.evidence + built_all::<Evidence, B>(evidence@),
                ..self@
            }),
            r.wf(),
    {
        proof {
            use_type_invariant(&self);
        }
        let mut builder = self;
        let mut held = builder.evidence;
        build_all_into(&mut held, evidence);
        builder.evidence = held;
        builder
    }

    /// Removes every piece of evidence.
    pub fn clear_evidence(self) -> (r: PhenotypicFeatureBuilder<T>)
        ensures
            r@ == (PhenotypicFeatureDraft { evidence: Seq::empty(), ..self@ }),
            r.wf(),
    {
        proof {
            use_type_invariant(&self);
        }
        let mut builder = self;
        let mut held = builder.evidence;
        held.clear();
        assert(held.deep_view() == Seq::<EvidenceModel>::empty());
        builder.evidence = held;
        builder
    }
}

impl<T: Slot> Clone for PhenotypicFeatureBuilder<T> {
    fn clone(&self) -> (r: Self)
        ensures
            r@ == self@,
            r.wf(),
    {
        proof {
            use_type_invariant(self);
        }
        let r = PhenotypicFeatureBuilder {
            description: self.description.clone(),
            feature_type: self.feature_type.clone(),
            excluded: self.excluded,
            severity: self.severity.clone(),
            modifiers: self.modifiers.clone(),
            onset: self.onset.clone(),
            resolution: self.resolution.clone(),
            evidence: self.evidence.clone(),
            data: PhantomData,
        };
        assert(r.modifiers.deep_view() =~= self.modifiers.deep_view());
        assert(r.evidence.deep_view() =~= self.evidence.deep_view());
        r
    }
}

impl Default for PhenotypicFeatureBuilder<Unset> {
    fn default() -> (r: Self)
        ensures
            r@ == PhenotypicFeatureDraft::empty(),
            r.wf(),
    {
        let r = PhenotypicFeatureBuilder {
            description: None,
            feature_type: None,
            excluded: false,
            severity: None,
            modifiers: Vec::new(),
            onset: None,
            resolution: None,
            evidence: Vec::new(),
            data: PhantomData,
        };
        assert(r.modifiers.deep_view() == Seq::<OntologyClassModel>::empty());
        assert(r.evidence.deep_view() == Seq::<EvidenceModel>::empty());
        r
    }
}

impl Buildable for PhenotypicFeature {
    type Builder = PhenotypicFeatureBuilder;
}

impl Build<PhenotypicFeature> for PhenotypicFeatureBuilder<Filled> {
    open spec fn built(self) -> PhenotypicFeatureModel {
        self@.finish()
    }

    fn build(self) -> (r: PhenotypicFeature)
        ensures
            self@.complete() && r@ == self@.finish(),
    {
        proof {
            use_type_invariant(&self);
        }
        PhenotypicFeature {
            description: text_or_empty(self.description),
            feature_type: self.feature_type,
            excluded: self.excluded,
            severity: self.severity,
            modifiers: self.modifiers,
            onset: self.onset,
            resolution: self.resolution,
            evidence: self.evidence,
        }
    }
}

} // verus!
