//! Builders of the small records that the others are made of.

use crate::schema::{
    Age, AgeModel, Element, ElementModel, ExternalReference, ExternalReferenceModel,
    GestationalAge, GestationalAgeModel, OntologyClass, OntologyClassModel, TimeElement,
    TimeElementModel, Timestamp,
};
use crate::{Build, Buildable, Filled, Slot, Unset};
use std::marker::PhantomData;
use vstd::prelude::*;

verus! {

/// The text of an optional field, or the empty text where it was never set.
pub open spec fn or_empty(text: Option<Seq<char>>) -> Seq<char> {
    match text {
        Some(t) => t,
        None => Seq::empty(),
    }
}

/// The string of an optional field, or the empty string where it was never set.
pub(crate) fn text_or_empty(text: Option<String>) -> (r: String)
    ensures
        r@ == or_empty(text.deep_view()),
{
    match text {
        Some(t) => t,
        None => String::new(),
    }
}

/// What an [`OntologyClassBuilder`] holds.
pub ghost struct OntologyClassDraft {
    pub id: Option<Seq<char>>,
    pub label: Option<Seq<char>>,
}

impl OntologyClassDraft {
    /// The draft of a builder on which no setter has run.
    pub open spec fn empty() -> OntologyClassDraft {
        OntologyClassDraft { id: None, label: None }
    }

    /// Whether every mandatory field has its value.
    pub open spec fn complete(self) -> bool {
        self.id is Some && self.label is Some
    }

    /// The record that a complete draft finalizes to.
    pub open spec fn finish(self) -> OntologyClassModel {
        OntologyClassModel { id: self.id->0, label: self.label->0 }
    }
}

/// Builder of an [`OntologyClass`]. Identifier and label are mandatory and are
/// set together.
#[derive(Debug, PartialEq)]
pub struct OntologyClassBuilder<T: Slot = Unset> {
    id: Option<String>,
    label: Option<String>,
    data: PhantomData<T>,
}

impl<T: Slot> View for OntologyClassBuilder<T> {
    type V = OntologyClassDraft;

    closed spec fn view(&self) -> OntologyClassDraft {
        OntologyClassDraft { id: self.id.deep_view(), label: self.label.deep_view() }
    }
}

impl<T: Slot> OntologyClassBuilder<T> {
    /// The marker reads "filled" exactly when identifier and label are held.
    pub open spec fn wf(&self) -> bool {
        &&& T::filled() <==> self@.id is Some
        &&& T::filled() <==> self@.label is Some
    }

    #[verifier::type_invariant]
    spec fn inv(self) -> bool {
        self.wf()
    }
}

impl<T: Slot> Clone for OntologyClassBuilder<T> {
    fn clone(&self) -> (r: Self)
        ensures
            r@ == self@,
            r.wf(),
    {
        proof {
            use_type_invariant(self);
        }
        OntologyClassBuilder { id: self.id.clone(), label: self.label.clone(), data: PhantomData }
    }
}

impl Default for OntologyClassBuilder<Unset> {
    fn default() -> (r: Self)
        ensures
            r@ == OntologyClassDraft::empty(),
            r.wf(),
    {
        OntologyClassBuilder { id: None, label: None, data: PhantomData }
    }
}

impl OntologyClassBuilder<Unset> {
    /// Sets the identifier and the label.
    pub fn id_label(self, id: impl Build<String>, label: impl Build<String>) -> (r:
        OntologyClassBuilder<Filled>)
        ensures
            r@ == (OntologyClassDraft { id: Some(id.built()), label: Some(label.built()) }),
            r.wf(),
    {
        OntologyClassBuilder { id: Some(id.build()), label: Some(label.build()), data: PhantomData }
    }
}

impl Buildable for OntologyClass {
    type Builder = OntologyClassBuilder;
}

impl Build<OntologyClass> for OntologyClassBuilder<Filled> {
    open spec fn built(self) -> OntologyClassModel {
        self@.finish()
    }

    fn build(self) -> (r: OntologyClass)
        ensures
            self@.complete() && r@ == self@.finish(),
    {
        proof {
            use_type_invariant(&self);
        }
        OntologyClass { id: self.id.unwrap(), label: self.label.unwrap() }
    }
}

/// What a [`TimeElementBuilder`] holds: the alternative selected last, if any.
pub ghost struct TimeElementDraft {
    pub element: Option<ElementModel>,
}

impl TimeElementDraft {
    /// The draft of a builder on which no alternative was selected.
    pub open spec fn empty() -> TimeElementDraft {
        TimeElementDraft { element: None }
    }

    /// Whether an alternative is selected.
    pub open spec fn complete(self) -> bool {
        self.element is Some
    }

    /// The record that a complete draft finalizes to.
    pub open spec fn finish(self) -> TimeElementModel {
        TimeElementModel { element: self.element }
    }
}

/// Builder of a [`TimeElement`]: a choice of exactly one alternative. Selecting
/// an alternative replaces the one selected before.
#[derive(Debug, PartialEq)]
pub struct TimeElementBuilder<T: Slot = Unset> {
    element: Option<Element>,
    data: PhantomData<T>,
}

impl<T: Slot> View for TimeElementBuilder<T> {
    type V = TimeElementDraft;

    closed spec fn view(&self) -> TimeElementDraft {
        TimeElementDraft { element: self.element.deep_view() }
    }
}

impl<T: Slot> TimeElementBuilder<T> {
    /// The marker reads "filled" exactly when an alternative is selected.
    pub open spec fn wf(&self) -> bool {
        T::filled() <==> self@.element is Some
    }

    #[verifier::type_invariant]
    spec fn inv(self) -> bool {
        self.wf()
    }

    /// Selects a gestational age.
    pub fn gestational_age(self, gestational_age: impl Build<GestationalAge>) -> (r:
        TimeElementBuilder<Filled>)
        ensures
            r@ == (TimeElementDraft {
                element: Some(ElementModel::GestationalAge(gestational_age.built())),
                ..self@
            }),
            r.wf(),
    {
        TimeElementBuilder {
            element: Some(Element::GestationalAge(gestational_age.build())),
            data: PhantomData,
        }
    }

    /// Selects a gestational age of `weeks` completed weeks and no further days.
    pub fn gestational_age_weeks(self, weeks: impl Build<i32>) -> (r: TimeElementBuilder<Filled>)
        ensures
            r@ == (TimeElementDraft {
                element: Some(
                    ElementModel::GestationalAge(
                        GestationalAgeModel { weeks: weeks.built(), days: 0 },
                    ),
                ),
                ..self@
            }),
            r.wf(),
    {
        TimeElementBuilder {
            element: Some(
                Element::GestationalAge(GestationalAge { weeks: weeks.build(), days: 0 }),
            ),
            data: PhantomData,
        }
    }

    /// Selects a gestational age of `weeks` completed weeks and `days` days.
    pub fn gestational_age_weeks_days(
        self,
        weeks: impl Build<i32>,
        days: impl Build<i32>,
    ) -> (r: TimeElementBuilder<Filled>)
        ensures
            r@ == (TimeElementDraft {
                element: Some(
                    ElementModel::GestationalAge(
                        GestationalAgeModel { weeks: weeks.built(), days: days.built() },
                    ),
                ),
                ..self@
            }),
            r.wf(),
    {
        TimeElementBuilder {
            element: Some(
                Element::GestationalAge(
                    GestationalAge { weeks: weeks.build(), days: days.build() },
                ),
            ),
            data: PhantomData,
        }
    }

    /// Selects an age.
    pub fn age(self, age: impl Build<Age>) -> (r: TimeElementBuilder<Filled>)
        ensures
            r@ == (TimeElementDraft { element: Some(ElementModel::Age(age.built())), ..self@ }),
            r.wf(),
    {
        TimeElementBuilder { element: Some(Element::Age(age.build())), data: PhantomData }
    }

    /// Selects an age given as a duration in text. The text is stored as given.
    pub fn age_iso8601duration(self, iso8601duration: impl Build<String>) -> (r:
        TimeElementBuilder<Filled>)
        ensures
            r@ == (TimeElementDraft {
                element: Some(
                    ElementModel::Age(AgeModel { iso8601duration: iso8601duration.built() }),
                ),
                ..self@
            }),
            r.wf(),
    {
        TimeElementBuilder {
            element: Some(Element::Age(Age { iso8601duration: iso8601duration.build() })),
            data: PhantomData,
        }
    }

    /// Selects a coded concept.
    pub fn ontology_class(self, oc: impl Build<OntologyClass>) -> (r: TimeElementBuilder<Filled>)
        ensures
            r@ == (TimeElementDraft {
                element: Some(ElementModel::OntologyClass(oc.built())),
                ..self@
            }),
            r.wf(),
    {
        TimeElementBuilder { element: Some(Element::OntologyClass(oc.build())), data: PhantomData }
    }

    /// Selects a timestamp.
    pub fn timestamp(self, ts: impl Build<Timestamp>) -> (r: TimeElementBuilder<Filled>)
        ensures
            r@ == (TimeElementDraft {
                element: Some(ElementModel::Timestamp(ts.built())),
                ..self@
            }),
            r.wf(),
    {
        TimeElementBuilder { element: Some(Element::Timestamp(ts.build())), data: PhantomData }
    }
}

impl<T: Slot> Clone for TimeElementBuilder<T> {
    fn clone(&self) -> (r: Self)
        ensures
            r@ == self@,
            r.wf(),
    {
        proof {
            use_type_invariant(self);
        }
        TimeElementBuilder { element: self.element.clone(), data: PhantomData }
    }
}

impl Default for TimeElementBuilder<Unset> {
    fn default() -> (r: Self)
        ensures
            r@ == TimeElementDraft::empty(),
            r.wf(),
    {
        TimeElementBuilder { element: None, data: PhantomData }
    }
}

impl Buildable for TimeElement {
    type Builder = TimeElementBuilder;
}

impl Build<TimeElement> for TimeElementBuilder<Filled> {
    open spec fn built(self) -> TimeElementModel {
        self@.finish()
    }

    fn build(self) -> (r: TimeElement)
        ensures
            self@.complete() && r@ == self@.finish(),
    {
        proof {
            use_type_invariant(&self);
        }
        TimeElement { element: Some(self.element.unwrap()) }
    }
}

/// What an [`AgeBuilder`] holds.
pub ghost struct AgeDraft {
    pub iso8601duration: Option<Seq<char>>,
}

impl AgeDraft {
    /// The draft of a builder on which no setter has run.
    pub open spec fn empty() -> AgeDraft {
        AgeDraft { iso8601duration: None }
    }

    /// Whether every mandatory field has its value.
    pub open spec fn complete(self) -> bool {
        self.iso8601duration is Some
    }

    /// The record that a complete draft finalizes to.
    pub open spec fn finish(self) -> AgeModel {
        AgeModel { iso8601duration: self.iso8601duration->0 }
    }
}

/// Builder of an [`Age`]. The duration is mandatory.
#[derive(Debug, PartialEq)]
pub struct AgeBuilder<T: Slot = Unset> {
    iso8601duration: Option<String>,
    data: PhantomData<T>,
}

impl<T: Slot> View for AgeBuilder<T> {
    type V = AgeDraft;

    closed spec fn view(&self) -> AgeDraft {
        AgeDraft { iso8601duration: self.iso8601duration.deep_view() }
    }
}

impl<T: Slot> AgeBuilder<T> {
    /// The marker reads "filled" exactly when the duration is held.
    pub open spec fn wf(&self) -> bool {
        T::filled() <==> self@.iso8601duration is Some
    }

    #[verifier::type_invariant]
    spec fn inv(self) -> bool {
        self.wf()
    }
}

impl<T: Slot> Clone for AgeBuilder<T> {
    fn clone(&self) -> (r: Self)
        ensures
            r@ == self@,
            r.wf(),
    {
        proof {
            use_type_invariant(self);
        }
        AgeBuilder { iso8601duration: self.iso8601duration.clone(), data: PhantomData }
    }
}

impl Default for AgeBuilder<Unset> {
    fn default() -> (r: Self)
        ensures
            r@ == AgeDraft::empty(),
            r.wf(),
    {
        AgeBuilder { iso8601duration: None, data: PhantomData }
    }
}

impl Buildable for Age {
    type Builder = AgeBuilder;
}

impl AgeBuilder<Unset> {
    /// Sets the age as a duration in text. The text is stored as given: it is
    /// not checked to be a duration.
    pub fn iso8601duration(self, iso8601duration: impl Build<String>) -> (r: AgeBuilder<Filled>)
        ensures
            r@ == (AgeDraft { iso8601duration: Some(iso8601duration.built()) }),
            r.wf(),
    {
        AgeBuilder { iso8601duration: Some(iso8601duration.build()), data: PhantomData }
    }
}

impl Build<Age> for AgeBuilder<Filled> {
    open spec fn built(self) -> AgeModel {
        self@.finish()
    }

    fn build(self) -> (r: Age)
        ensures
            self@.complete() && r@ == self@.finish(),
    {
        proof {
            use_type_invariant(&self);
        }
        Age { iso8601duration: self.iso8601duration.unwrap() }
    }
}

/// What a [`GestationalAgeBuilder`] holds.
pub ghost struct GestationalAgeDraft {
    pub weeks: Option<i32>,
    pub days: Option<i32>,
}

impl GestationalAgeDraft {
    /// The draft of a builder on which no setter has run.
    pub open spec fn empty() -> GestationalAgeDraft {
        GestationalAgeDraft { weeks: None, days: None }
    }

    /// Whether every mandatory field has its value.
    pub open spec fn complete(self) -> bool {
        self.weeks is Some
    }

    /// The record that a complete draft finalizes to. Days that were never set
    /// are zero.
    pub open spec fn finish(self) -> GestationalAgeModel {
        GestationalAgeModel {
            weeks: self.weeks->0,
            days: match self.days {
                Some(d) => d,
                None => 0,
            },
        }
    }
}

/// Builder of a [`GestationalAge`]. The weeks are mandatory, the days optional.
#[derive(Debug, PartialEq)]
pub struct GestationalAgeBuilder<T: Slot = Unset> {
    weeks: Option<i32>,
    days: Option<i32>,
    data: PhantomData<T>,
}

impl<T: Slot> View for GestationalAgeBuilder<T> {
    type V = GestationalAgeDraft;

    closed spec fn view(&self) -> GestationalAgeDraft {
        GestationalAgeDraft { weeks: self.weeks, days: self.days }
    }
}

impl<T: Slot> GestationalAgeBuilder<T> {
    /// The marker reads "filled" exactly when the weeks are held.
    pub open spec fn wf(&self) -> bool {
        T::filled() <==> self@.weeks is Some
    }

    #[verifier::type_invariant]
    spec fn inv(self) -> bool {
        self.wf()
    }

    /// Sets the days. The value set last counts.
    pub fn days(self, days: impl Build<i32>) -> (r: GestationalAgeBuilder<T>)
        ensures
            r@ == (GestationalAgeDraft { days: Some(days.built()), ..self@ }),
            r.wf(),
    {
        proof {
            use_type_invariant(&self);
        }
        GestationalAgeBuilder { weeks: self.weeks, days: Some(days.build()), data: PhantomData }
    }
}

impl<T: Slot> Clone for GestationalAgeBuilder<T> {
    fn clone(&self) -> (r: Self)
        ensures
            r@ == self@,
            r.wf(),
    {
        proof {
            use_type_invariant(self);
        }
        GestationalAgeBuilder { weeks: self.weeks, days: self.days, data: PhantomData }
    }
}

impl Default for GestationalAgeBuilder<Unset> {
    fn default() -> (r: Self)
        ensures
            r@ == GestationalAgeDraft::empty(),
            r.wf(),
    {
        GestationalAgeBuilder { weeks: None, days: None, data: PhantomData }
    }
}

impl GestationalAgeBuilder<Unset> {
    /// Sets the weeks.
    pub fn weeks(self, weeks: impl Build<i32>) -> (r: GestationalAgeBuilder<Filled>)
        ensures
            r@ == (GestationalAgeDraft { weeks: Some(weeks.built()), ..self@ }),
            r.wf(),
    {
        GestationalAgeBuilder { weeks: Some(weeks.build()), days: self.days, data: PhantomData }
    }
}

impl Buildable for GestationalAge {
    type Builder = GestationalAgeBuilder;
}

impl Build<GestationalAge> for GestationalAgeBuilder<Filled> {
    open spec fn built(self) -> GestationalAgeModel {
        self@.finish()
    }

    fn build(self) -> (r: GestationalAge)
        ensures
            self@.complete() && r@ == self@.finish(),
    {
        proof {
            use_type_invariant(&self);
        }
        GestationalAge {
            weeks: self.weeks.unwrap(),
            days: match self.days {
                Some(d) => d,
                None => 0,
            },
        }
    }
}

/// What an [`ExternalReferenceBuilder`] holds.
pub ghost struct ExternalReferenceDraft {
    pub id: Option<Seq<char>>,
    pub reference: Option<Seq<char>>,
    pub description: Option<Seq<char>>,
}

impl ExternalReferenceDraft {
    /// The draft of a builder on which no setter has run.
    pub open spec fn empty() -> ExternalReferenceDraft {
        ExternalReferenceDraft { id: None, reference: None, description: None }
    }

    /// The record that the draft finalizes to. A field that was never set is
    /// the empty text.
    pub open spec fn finish(self) -> ExternalReferenceModel {
        ExternalReferenceModel {
            id: or_empty(self.id),
            reference: or_empty(self.reference),
            description: or_empty(self.description),
        }
    }
}

/// Builder of an [`ExternalReference`]. No field is mandatory.
#[derive(Debug, PartialEq)]
pub struct ExternalReferenceBuilder {
    id: Option<String>,
    reference: Option<String>,
    description: Option<String>,
}

impl View for ExternalReferenceBuilder {
    type V = ExternalReferenceDraft;

    closed spec fn view(&self) -> ExternalReferenceDraft {
        ExternalReferenceDraft {
            id: self.id.deep_view(),
            reference: self.reference.deep_view(),
            description: self.description.deep_view(),
        }
    }
}

impl ExternalReferenceBuilder {
    /// Sets the identifier. The value set last counts.
    pub fn id(self, id: impl Build<String>) -> (r: ExternalReferenceBuilder)
        ensures
            r@ == (ExternalReferenceDraft { id: Some(id.built()), ..self@ }),
    {
        ExternalReferenceBuilder {
            id: Some(id.build()),
            reference: self.reference,
            description: self.description,
        }
    }

    /// Sets the reference. The value set last counts.
    pub fn reference(self, reference: impl Build<String>) -> (r: ExternalReferenceBuilder)
        ensures
            r@ == (ExternalReferenceDraft { reference: Some(reference.built()), ..self@ }),
    {
        ExternalReferenceBuilder {
            id: self.id,
            reference: Some(reference.build()),
            description: self.description,
        }
    }

    /// Sets the description. The value set last counts.
    pub fn description(self, description: impl Build<String>) -> (r: ExternalReferenceBuilder)
        ensures
            r@ == (ExternalReferenceDraft { description: Some(description.built()), ..self@ }),
    {
        ExternalReferenceBuilder {
            id: self.id,
            reference: self.reference,
            description: Some(description.build()),
        }
    }
}

impl Clone for ExternalReferenceBuilder {
    fn clone(&self) -> (r: Self)
        ensures
            r@ == self@,
    {
        ExternalReferenceBuilder {
            id: self.id.clone(),
            reference: self.reference.clone(),
            description: self.description.clone(),
        }
    }
}

impl Default for ExternalReferenceBuilder {
    fn default() -> (r: Self)
        ensures
            r@ == ExternalReferenceDraft::empty(),
    {
        ExternalReferenceBuilder { id: None, reference: None, description: None }
    }
}

impl Buildable for ExternalReference {
    type Builder = ExternalReferenceBuilder;
}

impl Build<ExternalReference> for ExternalReferenceBuilder {
    open spec fn built(self) -> ExternalReferenceModel {
        self@.finish()
    }

    fn build(self) -> (r: ExternalReference) {
        ExternalReference {
            id: text_or_empty(self.id),
            reference: text_or_empty(self.reference),
            description: text_or_empty(self.description),
        }
    }
}

} // verus!
