//! Builder of a phenopacket.

use crate::schema::{
    Individual, IndividualModel, MetaData, MetaDataModel, Phenopacket, PhenopacketModel,
    PhenotypicFeature, PhenotypicFeatureModel,
};
use crate::{build_all_into, built_all, Build, Buildable, Filled, Slot, Unset};
use std::marker::PhantomData;
use vstd::prelude::*;

verus! {

/// What a [`PhenopacketBuilder`] holds.
pub ghost struct PhenopacketDraft {
    pub id: Option<Seq<char>>,
    pub subject: Option<IndividualModel>,
    pub phenotypic_features: Seq<PhenotypicFeatureModel>,
    pub meta_data: Option<MetaDataModel>,
}

impl PhenopacketDraft {
    /// The draft of a builder on which no setter has run.
    pub open spec fn empty() -> PhenopacketDraft {
        PhenopacketDraft {
            id: None,
            subject: None,
            phenotypic_features: Seq::empty(),
            meta_data: None,
        }
    }

    /// Whether every mandatory field has its value.
    pub open spec fn complete(self) -> bool {
        self.id is Some && self.meta_data is Some
    }

    /// The record that a complete draft finalizes to.
    pub open spec fn finish(self) -> PhenopacketModel {
        PhenopacketModel {
            id: self.id->0,
            subject: self.subject,
            phenotypic_features: self.phenotypic_features,
            meta_data: self.meta_data,
        }
    }
}

/// Builder of a [`Phenopacket`]. The identifier and the meta data are
/// mandatory, each with a marker of its own: `T` and `U`.
#[derive(Debug, PartialEq)]
pub struct PhenopacketBuilder<T: Slot = Unset, U: Slot = Unset> {
    id: Option<String>,
    subject: Option<Individual>,
    phenotypic_features: Vec<PhenotypicFeature>,
    meta_data: Option<MetaData>,
    data: PhantomData<(T, U)>,
}

impl<T: Slot, U: Slot> View for PhenopacketBuilder<T, U> {
    type V = PhenopacketDraft;

    closed spec fn view(&self) -> PhenopacketDraft {
        PhenopacketDraft {
            id: self.id.deep_view(),
            subject: self.subject.deep_view(),
            phenotypic_features: self.phenotypic_features.deep_view(),
            meta_data: self.meta_data.deep_view(),
        }
    }
}

impl<U: Slot> PhenopacketBuilder<Unset, U> {
    /// Sets the identifier.
    pub fn id(self, id: impl Build<String>) -> (r: PhenopacketBuilder<Filled, U>)
        ensures
            r@ == (PhenopacketDraft { id: Some(id.built()), ..self@ }),
            r.wf(),
    {
        proof {
            use_type_invariant(&self);
        }
        PhenopacketBuilder {
            id: Some(id.build()),
            subject: self.subject,
            phenotypic_features: self.phenotypic_features,
            meta_data: self.meta_data,
            data: PhantomData,
        }
    }
}

impl<T: Slot> PhenopacketBuilder<T, Unset> {
    /// Sets the meta data.
    pub fn meta_data(self, meta_data: impl Build<MetaData>) -> (r: PhenopacketBuilder<T, Filled>)
        ensures
            r@ == (PhenopacketDraft { meta_data: Some(meta_data.built()), ..self@ }),
            r.wf(),
    {
        proof {
            use_type_invariant(&self);
        }
        PhenopacketBuilder {
            id: self.id,
            subject: self.subject,
            phenotypic_features: self.phenotypic_features,
            meta_data: Some(meta_data.build()),
            data: PhantomData,
        }
    }
}

impl<T: Slot, U: Slot> PhenopacketBuilder<T, U> {
    /// Each marker reads "filled" exactly when its field is held.
    pub open spec fn wf(&self) -> bool {
        &&& T::filled() <==> self@.id is Some
        &&& U::filled() <==> self@.meta_data is Some
    }

    #[verifier::type_invariant]
    spec fn inv(self) -> bool {
        self.wf()
    }

    /// Sets the subject. The value set last counts.
    pub fn subject(self, subject: impl Build<Individual>) -> (r: PhenopacketBuilder<T, U>)
        ensures
            r@ == (PhenopacketDraft { subject: Some(subject.built()), ..self@ }),
            r.wf(),
    {
        proof {
            use_type_invariant(&self);
        }
        let mut builder = self;
        builder.subject = Some(subject.build());
        builder
    }

    /// Appends one phenotypic feature.
    pub fn add_phenotypic_feature(
        self,
        phenotypic_feature: impl Build<PhenotypicFeature>,
    ) -> (r: PhenopacketBuilder<T, U>)
        ensures
            r@ == (PhenopacketDraft {
                phenotypic_features: self@.phenotypic_features.push(phenotypic_feature.built()),
                ..self@
            }),
            r.wf(),
    {
        proof {
            use_type_invariant(&self);
        }
        let ghost before = self.phenotypic_features.deep_view();
        let mut builder = self;
        let mut held = builder.phenotypic_features;
        held.push(phenotypic_feature.build());
        assert(held.deep_view() == before.push(phenotypic_feature.built()));
        builder.phenotypic_features = held;
        builder
    }

    /// Appends the phenotypic features, in the order given.
    pub fn extend_phenotypic_features<B: Build<PhenotypicFeature>>(
        self,
        phenotypic_features: Vec<B>,
    ) -> (r: PhenopacketBuilder<T, U>)
        ensures
            r@ == (PhenopacketDraft {
                phenotypic_features: self@.phenotypic_features
                    + built_all::<PhenotypicFeature, B>(phenotypic_features@),
                ..self@
            }),
            r.wf(),
    {
        proof {
            use_type_invariant(&self);
        }
        let mut builder = self;
        let mut held = builder.phenotypic_features;
        build_all_into(&mut held, phenotypic_features);
        builder.phenotypic_features = held;
        builder
    }

    /// Removes every phenotypic feature.
    pub fn clear_phenotypic_features(self) -> (r: PhenopacketBuilder<T, U>)
        ensures
            r@ == (PhenopacketDraft { phenotypic_features: Seq::empty(), ..self@ }),
            r.wf(),
    {
        proof {
            use_type_invariant(&self);
        }
        let mut builder = self;
        let mut held = builder.phenotypic_features;
        held.clear();
        assert(held.deep_view() == Seq::<PhenotypicFeatureModel>::empty());
        builder.phenotypic_features = held;
        builder
    }
}

impl<T: Slot, U: Slot> Clone for PhenopacketBuilder<T, U> {
    fn clone(&self) -> (r: Self)
        ensures
            r@ == self@,
            r.wf(),
    {
        proof {
            use_type_invariant(self);
        }
        let r = PhenopacketBuilder {
            id: self.id.clone(),
            subject: self.subject.clone(),
            phenotypic_features: self.phenotypic_features.clone(),
            meta_data: self.meta_data.clone(),
            data: PhantomData,
        };
        assert(r.phenotypic_features.deep_view() =~= self.phenotypic_features.deep_view());
        r
    }
}

impl Default for PhenopacketBuilder<Unset, Unset> {
    fn default() -> (r: Self)
        ensures
            r@ == PhenopacketDraft::empty(),
            r.wf(),
    {
        let r = PhenopacketBuilder {
            id: None,
            subject: None,
            phenotypic_features: Vec::new(),
            meta_data: None,
            data: PhantomData,
        };
        assert(r.phenotypic_features.deep_view() == Seq::<PhenotypicFeatureModel>::empty());
        r
    }
}

impl Buildable for Phenopacket {
    type Builder = PhenopacketBuilder;
}

impl Build<Phenopacket> for PhenopacketBuilder<Filled, Filled> {
    open spec fn built(self) -> PhenopacketModel {
        self@.finish()
    }

    fn build(self) -> (r: Phenopacket)
        ensures
            self@.complete() && r@ == self@.finish(),
    {
        proof {
            use_type_invariant(&self);
        }
        Phenopacket {
            id: self.id.unwrap(),
            subject: self.subject,
            phenotypic_features: self.phenotypic_features,
            meta_data: self.meta_data,
        }
    }
}

} // verus!
