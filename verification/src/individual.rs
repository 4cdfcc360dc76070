//! Builders of an individual and of its vital status.

use crate::schema::{
    Age, Element, ElementModel, GestationalAge, Individual, IndividualModel, KaryotypicSex,
    OntologyClass, OntologyClassModel, Sex, Status, TimeElement, TimeElementModel, Timestamp,
    VitalStatus, VitalStatusModel,
};
use crate::{build_all_into, built_all, Build, Buildable, Filled, Slot, Unset};
use std::marker::PhantomData;
use vstd::prelude::*;

verus! {

/// What a [`VitalStatusBuilder`] holds.
pub ghost struct VitalStatusDraft {
    pub status: Option<Status>,
    pub time_of_death: Option<TimeElementModel>,
    pub cause_of_death: Option<OntologyClassModel>,
    pub survival_time_in_days: Option<u32>,
}

impl VitalStatusDraft {
    /// The draft of a builder on which no setter has run.
    pub open spec fn empty() -> VitalStatusDraft {
        VitalStatusDraft {
            status: None,
            time_of_death: None,
            cause_of_death: None,
            survival_time_in_days: None,
        }
    }

    /// Whether every mandatory field has its value.
    pub open spec fn complete(self) -> bool {
        self.status is Some
    }

    /// The record that a complete draft finalizes to. A survival time that was
    /// never set is zero.
    pub open spec fn finish(self) -> VitalStatusModel {
        VitalStatusModel {
            status: self.status->0.code(),
            time_of_death: self.time_of_death,
            cause_of_death: self.cause_of_death,
            survival_time_in_days: match self.survival_time_in_days {
                Some(d) => d,
                None => 0,
            },
        }
    }
}

/// Builder of a [`VitalStatus`]. The status is mandatory.
#[derive(Debug, PartialEq)]
pub struct VitalStatusBuilder<T: Slot = Unset> {
    status: Option<Status>,
    time_of_death: Option<TimeElement>,
    cause_of_death: Option<OntologyClass>,
    survival_time_in_days: Option<u32>,
    data: PhantomData<T>,
}

impl<T: Slot> View for VitalStatusBuilder<T> {
    type V = VitalStatusDraft;

    closed spec fn view(&self) -> VitalStatusDraft {
        VitalStatusDraft {
            status: self.status,
            time_of_death: self.time_of_death.deep_view(),
            cause_of_death: self.cause_of_death.deep_view(),
            survival_time_in_days: self.survival_time_in_days,
        }
    }
}

impl<T: Slot> VitalStatusBuilder<T> {
    /// The marker reads "filled" exactly when the status is held.
    pub open spec fn wf(&self) -> bool {
        T::filled() <==> self@.status is Some
    }

    #[verifier::type_invariant]
    spec fn inv(self) -> bool {
        self.wf()
    }

    /// Sets the status. The value set last counts.
    pub fn status(self, status: impl Build<Status>) -> (r: VitalStatusBuilder<Filled>)
        ensures
            r@ == (VitalStatusDraft { status: Some(status.built()), ..self@ }),
            r.wf(),
    {
        VitalStatusBuilder {
            status: Some(status.build()),
            time_of_death: self.time_of_death,
            cause_of_death: self.cause_of_death,
            survival_time_in_days: self.survival_time_in_days,
            data: PhantomData,
        }
    }

    /// Sets the status to alive.
    pub fn alive(self) -> (r: VitalStatusBuilder<Filled>)
        ensures
            r@ == (VitalStatusDraft { status: Some(Status::Alive), ..self@ }),
            r.wf(),
    {
        self.status(Status::Alive)
    }

    /// Sets the status to deceased.
    pub fn deceased(self) -> (r: VitalStatusBuilder<Filled>)
        ensures
            r@ == (VitalStatusDraft { status: Some(Status::Deceased), ..self@ }),
            r.wf(),
    {
        self.status(Status::Deceased)
    }

    /// Sets the time of death. The value set last counts.
    pub fn time_of_death(self, time_of_death: impl Build<TimeElement>) -> (r: VitalStatusBuilder<
        T,
    >)
        ensures
            r@ == (VitalStatusDraft { time_of_death: Some(time_of_death.built()), ..self@ }),
            r.wf(),
    {
        proof {
            use_type_invariant(&self);
        }
        let mut builder = self;
        builder.time_of_death = Some(time_of_death.build());
        builder
    }

    /// Sets the time of death to an age. The value set last counts.
    pub fn time_of_death_at_age(self, age: impl Build<Age>) -> (r: VitalStatusBuilder<T>)
        ensures
            r@ == (VitalStatusDraft {
                time_of_death: Some(
                    TimeElementModel { element: Some(ElementModel::Age(age.built())) },
                ),
                ..self@
            }),
            r.wf(),
    {
        proof {
            use_type_invariant(&self);
        }
        let mut builder = self;
        builder.time_of_death = Some(
            TimeElement { element: Some(Element::Age(age.build())) },
        );
        builder
    }

    /// Sets the time of death to a gestational age. The value set last counts.
    pub fn time_of_death_at_gestational_age(
        self,
        gestational_age: impl Build<GestationalAge>,
    ) -> (r: VitalStatusBuilder<T>)
        ensures
            r@ == (VitalStatusDraft {
                time_of_death: Some(
                    TimeElementModel {
                        element: Some(ElementModel::GestationalAge(gestational_age.built())),
                    },
                ),
                ..self@
            }),
            r.wf(),
    {
        proof {
            use_type_invariant(&self);
        }
        let mut builder = self;
        builder.time_of_death = Some(
            TimeElement {
                element: Some(Element::GestationalAge(gestational_age.build())),
            },
        );
        builder
    }

    /// Sets the cause of death. The value set last counts.
    pub fn cause_of_death(self, cause_of_death: impl Build<OntologyClass>) -> (r:
        VitalStatusBuilder<T>)
        ensures
            r@ == (VitalStatusDraft { cause_of_death: Some(cause_of_death.built()), ..self@ }),
            r.wf(),
    {
        proof {
            use_type_invariant(&self);
        }
        let mut builder = self;
        builder.cause_of_death = Some(cause_of_death.build());
        builder
    }

    /// Sets the survival time in days. The value set last counts.
    pub fn survival_time_in_days(self, survival_time_in_days: impl Build<u32>) -> (r:
        VitalStatusBuilder<T>)
        ensures
            r@ == (VitalStatusDraft {
                survival_time_in_days: Some(survival_time_in_days.built()),
                ..self@
            }),
            r.wf(),
    {
        proof {
            use_type_invariant(&self);
        }
        let mut builder = self;
        builder.survival_time_in_days = Some(survival_time_in_days.build());
        builder
    }
}

impl<T: Slot> Clone for VitalStatusBuilder<T> {
    fn clone(&self) -> (r: Self)
        ensures
            r@ == self@,
            r.wf(),
    {
        proof {
            use_type_invariant(self);
        }
        VitalStatusBuilder {
            status: self.status,
            time_of_death: self.time_of_death.clone(),
            cause_of_death: self.cause_of_death.clone(),
            survival_time_in_days: self.survival_time_in_days,
            data: PhantomData,
        }
    }
}

impl Default for VitalStatusBuilder<Unset> {
    fn default() -> (r: Self)
        ensures
            r@ == VitalStatusDraft::empty(),
            r.wf(),
    {
        VitalStatusBuilder {
            status: None,
            time_of_death: None,
            cause_of_death: None,
            survival_time_in_days: None,
            data: PhantomData,
        }
    }
}

impl Buildable for VitalStatus {
    type Builder = VitalStatusBuilder;
}

impl Build<VitalStatus> for VitalStatusBuilder<Filled> {
    open spec fn built(self) -> VitalStatusModel {
        self@.finish()
    }

    fn build(self) -> (r: VitalStatus)
        ensures
            self@.complete() && r@ == self@.finish(),
    {
        proof {
            use_type_invariant(&self);
        }
        VitalStatus {
            status: i32::from(self.status.unwrap()),
            time_of_death: self.time_of_death,
            cause_of_death: self.cause_of_death,
            survival_time_in_days: match self.survival_time_in_days {
                Some(d) => d,
                None => 0,
            },
        }
    }
}

/// What an [`IndividualBuilder`] holds.
pub ghost struct IndividualDraft {
    pub id: Option<Seq<char>>,
    pub alternate_ids: Seq<Seq<char>>,
    pub date_of_birth: Option<Timestamp>,
    pub time_at_last_encounter: Option<TimeElementModel>,
    pub vital_status: Option<VitalStatusModel>,
    pub sex: Sex,
    pub karyotypic_sex: KaryotypicSex,
    pub gender: Option<OntologyClassModel>,
    pub taxonomy: Option<OntologyClassModel>,
}

impl IndividualDraft {
    /// The draft of a builder on which no setter has run.
    pub open spec fn empty() -> IndividualDraft {
        IndividualDraft {
            id: None,
            alternate_ids: Seq::empty(),
            date_of_birth: None,
            time_at_last_encounter: None,
            vital_status: None,
            sex: Sex::UnknownSex,
            karyotypic_sex: KaryotypicSex::UnknownKaryotype,
            gender: None,
            taxonomy: None,
        }
    }

    /// Whether every mandatory field has its value.
    pub open spec fn complete(self) -> bool {
        self.id is Some
    }

    /// The record that a complete draft finalizes to.
    pub open spec fn finish(self) -> IndividualModel {
        IndividualModel {
            id: self.id->0,
            alternate_ids: self.alternate_ids,
            date_of_birth: self.date_of_birth,
            time_at_last_encounter: self.time_at_last_encounter,
            vital_status: self.vital_status,
            sex: self.sex.code(),
            karyotypic_sex: self.karyotypic_sex.code(),
            gender: self.gender,
            taxonomy: self.taxonomy,
        }
    }
}

/// The vital status of an individual of whom only `status` is known.
pub open spec fn bare_vital_status(status: Status) -> VitalStatusModel {
    VitalStatusModel {
        status: status.code(),
        time_of_death: None,
        cause_of_death: None,
        survival_time_in_days: 0,
    }
}

/// The taxon of humans.
pub open spec fn homo_sapiens_taxon() -> OntologyClassModel {
    OntologyClassModel { id: "NCBITaxon:9606"@, label: "homo sapiens"@ }
}

/// Builder of an [`Individual`]. The identifier is mandatory.
#[derive(Debug, PartialEq)]
pub struct IndividualBuilder<T: Slot = Unset> {
    id: Option<String>,
    alternate_ids: Vec<String>,
    date_of_birth: Option<Timestamp>,
    time_at_last_encounter: Option<TimeElement>,
    vital_status: Option<VitalStatus>,
    sex: Sex,
    karyotypic_sex: KaryotypicSex,
    gender: Option<OntologyClass>,
    taxonomy: Option<OntologyClass>,
    data: PhantomData<T>,
}

impl<T: Slot> View for IndividualBuilder<T> {
    type V = IndividualDraft;

    closed spec fn view(&self) -> IndividualDraft {
        IndividualDraft {
            id: self.id.deep_view(),
            alternate_ids: self.alternate_ids.deep_view(),
            date_of_birth: self.date_of_birth,
            time_at_last_encounter: self.time_at_last_encounter.deep_view(),
            vital_status: self.vital_status.deep_view(),
            sex: self.sex,
            karyotypic_sex: self.karyotypic_sex,
            gender: self.gender.deep_view(),
            taxonomy: self.taxonomy.deep_view(),
        }
    }
}

impl<T: Slot> IndividualBuilder<T> {
    /// The marker reads "filled" exactly when the identifier is held.
    pub open spec fn wf(&self) -> bool {
        T::filled() <==> self@.id is Some
    }

    #[verifier::type_invariant]
    spec fn inv(self) -> bool {
        self.wf()
    }

    /// Appends one alternate identifier.
    pub fn add_alternate_id(self, id: impl Build<String>) -> (r: IndividualBuilder<T>)
        ensures
            r@ == (IndividualDraft {
                alternate_ids: self@.alternate_ids.push(id.built()),
                ..self@
            }),
            r.wf(),
    {
        proof {
            use_type_invariant(&self);
        }
        let ghost before = self.alternate_ids.deep_view();
        let mut builder = self;
        let mut alternate_ids = builder.alternate_ids;
        alternate_ids.push(id.build());
        assert(alternate_ids.deep_view() == before.push(id.built()));
        builder.alternate_ids = alternate_ids;
        builder
    }

    /// Appends the alternate identifiers, in the order given.
    pub fn extend_alternate_ids<B: Build<String>>(self, ids: Vec<B>) -> (r: IndividualBuilder<T>)
        ensures
            r@ == (IndividualDraft {
                alternate_ids: self@.alternate_ids + built_all::<String, B>(ids@),
                ..self@
            }),
            r.wf(),
    {
        proof {
            use_type_invariant(&self);
        }
        let mut builder = self;
        let mut alternate_ids = builder.alternate_ids;
        build_all_into(&mut alternate_ids, ids);
        builder.alternate_ids = alternate_ids;
        builder
    }

    /// Removes every alternate identifier.
    pub fn clear_alternate_ids(self) -> (r: IndividualBuilder<T>)
        ensures
            r@ == (IndividualDraft { alternate_ids: Seq::empty(), ..self@ }),
            r.wf(),
    {
        proof {
            use_type_invariant(&self);
        }
        let mut builder = self;
        let mut held = builder.alternate_ids;
        held.clear();
        assert(held.deep_view() == Seq::<Seq<char>>::empty());
        builder.alternate_ids = held;
        builder
    }

    /// Sets the date of birth. The value set last counts.
    pub fn date_of_birth(self, date: impl Build<Timestamp>) -> (r: IndividualBuilder<T>)
        ensures
            r@ == (IndividualDraft { date_of_birth: Some(date.built()), ..self@ }),
            r.wf(),
    {
        proof {
            use_type_invariant(&self);
        }
        let mut builder = self;
        builder.date_of_birth = Some(date.build());
        builder
    }

    /// Sets the time of the last encounter. The value set last counts.
    pub fn time_at_last_encounter(
        self,
        time_at_last_encounter: impl Build<TimeElement>,
    ) -> (r: IndividualBuilder<T>)
        ensures
            r@ == (IndividualDraft {
                time_at_last_encounter: Some(time_at_last_encounter.built()),
                ..self@
            }),
            r.wf(),
    {
        proof {
            use_type_invariant(&self);
        }
        let mut builder = self;
        builder.time_at_last_encounter = Some(time_at_last_encounter.build());
        builder
    }

    /// Sets the vital status. The value set last counts.
    pub fn vital_status(self, vital_status: impl Build<VitalStatus>) -> (r: IndividualBuilder<T>)
        ensures
            r@ == (IndividualDraft { vital_status: Some(vital_status.built()), ..self@ }),
            r.wf(),
    {
        proof {
            use_type_invariant(&self);
        }
        let mut builder = self;
        builder.vital_status = Some(vital_status.build());
        builder
    }

    /// Sets the vital status to deceased, with nothing else known.
    pub fn deceased(self) -> (r: IndividualBuilder<T>)
        ensures
            r@ == (IndividualDraft {
                vital_status: Some(bare_vital_status(Status::Deceased)),
                ..self@
            }),
            r.wf(),
    {
        proof {
            use_type_invariant(&self);
        }
        let mut builder = self;
        builder.vital_status = Some(VitalStatus::builder().deceased().build());
        builder
    }

    /// Sets the vital status to deceased at the given time.
    pub fn deceased_at(self, time_of_death: impl Build<TimeElement>) -> (r: IndividualBuilder<T>)
        ensures
            r@ == (IndividualDraft {
                vital_status: Some(
                    VitalStatusModel {
                        time_of_death: Some(time_of_death.built()),
                        ..bare_vital_status(Status::Deceased)
                    },
                ),
                ..self@
            }),
            r.wf(),
    {
        proof {
            use_type_invariant(&self);
        }
        let mut builder = self;
        builder.vital_status = Some(
            VitalStatus::builder().deceased().time_of_death(time_of_death).build(),
        );
        builder
    }

    /// Sets the vital status to alive, with nothing else known.
    pub fn alive(self) -> (r: IndividualBuilder<T>)
        ensures
            r@ == (IndividualDraft {
                vital_status: Some(bare_vital_status(Status::Alive)),
                ..self@
            }),
            r.wf(),
    {
        proof {
            use_type_invariant(&self);
        }
        let mut builder = self;
        builder.vital_status = Some(VitalStatus::builder().alive().build());
        builder
    }

    /// Sets the sex. The value set last counts.
    pub fn sex(self, sex: impl Build<Sex>) -> (r: IndividualBuilder<T>)
        ensures
            r@ == (IndividualDraft { sex: sex.built(), ..self@ }),
            r.wf(),
    {
        proof {
            use_type_invariant(&self);
        }
        let mut builder = self;
        builder.sex = sex.build();
        builder
    }

    /// Sets the sex to male.
    pub fn male(self) -> (r: IndividualBuilder<T>)
        ensures
            r@ == (IndividualDraft { sex: Sex::Male, ..self@ }),
            r.wf(),
    {
        self.sex(Sex::Male)
    }

    /// Sets the sex to female.
    pub fn female(self) -> (r: IndividualBuilder<T>)
        ensures
            r@ == (IndividualDraft { sex: Sex::Female, ..self@ }),
            r.wf(),
    {
        self.sex(Sex::Female)
    }

    /// Sets the sex to other.
    pub fn other_sex(self) -> (r: IndividualBuilder<T>)
        ensures
            r@ == (IndividualDraft { sex: Sex::OtherSex, ..self@ }),
            r.wf(),
    {
        self.sex(Sex::OtherSex)
    }

    /// Sets the karyotypic sex. The value set last counts.
    pub fn karyotypic_sex(self, karyotypic_sex: impl Build<KaryotypicSex>) -> (r:
        IndividualBuilder<T>)
        ensures
            r@ == (IndividualDraft { karyotypic_sex: karyotypic_sex.built(), ..self@ }),
            r.wf(),
    {
        proof {
            use_type_invariant(&self);
        }
        let mut builder = self;
        builder.karyotypic_sex = karyotypic_sex.build();
        builder
    }

    /// Sets the karyotypic sex to XX.
    pub fn karyotypic_sex_xx(self) -> (r: IndividualBuilder<T>)
        ensures
            r@ == (IndividualDraft { karyotypic_sex: KaryotypicSex::Xx, ..self@ }),
            r.wf(),
    {
        self.karyotypic_sex(KaryotypicSex::Xx)
    }

    /// Sets the karyotypic sex to XY.
    pub fn karyotypic_sex_xy(self) -> (r: IndividualBuilder<T>)
        ensures
            r@ == (IndividualDraft { karyotypic_sex: KaryotypicSex::Xy, ..self@ }),
            r.wf(),
    {
        self.karyotypic_sex(KaryotypicSex::Xy)
    }

    /// Sets the karyotypic sex to XO.
    pub fn karyotypic_sex_xo(self) -> (r: IndividualBuilder<T>)
        ensures
            r@ == (IndividualDraft { karyotypic_sex: KaryotypicSex::Xo, ..self@ }),
            r.wf(),
    {
        self.karyotypic_sex(KaryotypicSex::Xo)
    }

    /// Sets the karyotypic sex to XXY.
    pub fn karyotypic_sex_xxy(self) -> (r: IndividualBuilder<T>)
        ensures
            r@ == (IndividualDraft { karyotypic_sex: KaryotypicSex::Xxy, ..self@ }),
            r.wf(),
    {
        self.karyotypic_sex(KaryotypicSex::Xxy)
    }

    /// Sets the karyotypic sex to XXYY.
    pub fn karyotypic_sex_xxyy(self) -> (r: IndividualBuilder<T>)
        ensures
            r@ == (IndividualDraft { karyotypic_sex: KaryotypicSex::Xxyy, ..self@ }),
            r.wf(),
    {
        self.karyotypic_sex(KaryotypicSex::Xxyy)
    }

    /// Sets the karyotypic sex to XXXY.
    pub fn karyotypic_sex_xxxy(self) -> (r: IndividualBuilder<T>)
        ensures
            r@ == (IndividualDraft { karyotypic_sex: KaryotypicSex::Xxxy, ..self@ }),
            r.wf(),
    {
        self.karyotypic_sex(KaryotypicSex::Xxxy)
    }

    /// Sets the karyotypic sex to XXXX.
    pub fn karyotypic_sex_xxxx(self) -> (r: IndividualBuilder<T>)
        ensures
            r@ == (IndividualDraft { karyotypic_sex: KaryotypicSex::Xxxx, ..self@ }),
            r.wf(),
    {
        self.karyotypic_sex(KaryotypicSex::Xxxx)
    }

    /// Sets the karyotypic sex to XYY.
    pub fn karyotypic_sex_xyy(self) -> (r: IndividualBuilder<T>)
        ensures
            r@ == (IndividualDraft { karyotypic_sex: KaryotypicSex::Xyy, ..self@ }),
            r.wf(),
    {
        self.karyotypic_sex(KaryotypicSex::Xyy)
    }

    /// Sets the karyotypic sex to a karyotype that has no variant of its own.
    pub fn karyotypic_sex_other(self) -> (r: IndividualBuilder<T>)
        ensures
            r@ == (IndividualDraft { karyotypic_sex: KaryotypicSex::OtherKaryotype, ..self@ }),
            r.wf(),
    {
        self.karyotypic_sex(KaryotypicSex::OtherKaryotype)
    }

    /// Sets the gender. The value set last counts.
    pub fn gender(self, gender: impl Build<OntologyClass>) -> (r: IndividualBuilder<T>)
        ensures
            r@ == (IndividualDraft { gender: Some(gender.built()), ..self@ }),
            r.wf(),
    {
        proof {
            use_type_invariant(&self);
        }
        let mut builder = self;
        builder.gender = Some(gender.build());
        builder
    }

    /// Sets the taxon. The value set last counts.
    pub fn taxonomy(self, taxonomy: impl Build<OntologyClass>) -> (r: IndividualBuilder<T>)
        ensures
            r@ == (IndividualDraft { taxonomy: Some(taxonomy.built()), ..self@ }),
            r.wf(),
    {
        proof {
            use_type_invariant(&self);
        }
        let mut builder = self;
        builder.taxonomy = Some(taxonomy.build());
        builder
    }

    /// Sets the taxon to that of humans.
    pub fn homo_sapiens(self) -> (r: IndividualBuilder<T>)
        ensures
            r@ == (IndividualDraft { taxonomy: Some(homo_sapiens_taxon()), ..self@ }),
            r.wf(),
    {
        self.taxonomy(OntologyClass::builder().id_label("NCBITaxon:9606", "homo sapiens"))
    }
}

impl<T: Slot> Clone for IndividualBuilder<T> {
    fn clone(&self) -> (r: Self)
        ensures
            r@ == self@,
            r.wf(),
    {
        proof {
            use_type_invariant(self);
        }
        let r = IndividualBuilder {
            id: self.id.clone(),
            alternate_ids: self.alternate_ids.clone(),
            date_of_birth: self.date_of_birth,
            time_at_last_encounter: self.time_at_last_encounter.clone(),
            vital_status: self.vital_status.clone(),
            sex: self.sex,
            karyotypic_sex: self.karyotypic_sex,
            gender: self.gender.clone(),
            taxonomy: self.taxonomy.clone(),
            data: PhantomData,
        };
        assert(r.alternate_ids.deep_view() =~= self.alternate_ids.deep_view());
        r
    }
}

impl Default for IndividualBuilder<Unset> {
    fn default() -> (r: Self)
        ensures
            r@ == IndividualDraft::empty(),
            r.wf(),
    {
        let r = IndividualBuilder {
            id: None,
            alternate_ids: Vec::new(),
            date_of_birth: None,
            time_at_last_encounter: None,
            vital_status: None,
            sex: Sex::UnknownSex,
            karyotypic_sex: KaryotypicSex::UnknownKaryotype,
            gender: None,
            taxonomy: None,
            data: PhantomData,
        };
        assert(r.alternate_ids.deep_view() == Seq::<Seq<char>>::empty());
        r
    }
}

impl IndividualBuilder<Unset> {
    /// Sets the identifier.
    pub fn id(self, id: impl Build<String>) -> (r: IndividualBuilder<Filled>)
        ensures
            r@ == (IndividualDraft { id: Some(id.built()), ..self@ }),
            r.wf(),
    {
        IndividualBuilder {
            id: Some(id.build()),
            alternate_ids: self.alternate_ids,
            date_of_birth: self.date_of_birth,
            time_at_last_encounter: self.time_at_last_encounter,
            vital_status: self.vital_status,
            sex: self.sex,
            karyotypic_sex: self.karyotypic_sex,
            gender: self.gender,
            taxonomy: self.taxonomy,
            data: PhantomData,
        }
    }
}

impl Buildable for Individual {
    type Builder = IndividualBuilder;
}

impl Build<Individual> for IndividualBuilder<Filled> {
    open spec fn built(self) -> IndividualModel {
        self@.finish()
    }

    fn build(self) -> (r: Individual)
        ensures
            self@.complete() && r@ == self@.finish(),
    {
        proof {
            use_type_invariant(&self);
        }
        Individual {
            id: self.id.unwrap(),
            alternate_ids: self.alternate_ids,
            date_of_birth: self.date_of_birth,
            time_at_last_encounter: self.time_at_last_encounter,
            vital_status: self.vital_status,
            sex: i32::from(self.sex),
            karyotypic_sex: i32::from(self.karyotypic_sex),
            gender: self.gender,
            taxonomy: self.taxonomy,
        }
    }
}

} // verus!
