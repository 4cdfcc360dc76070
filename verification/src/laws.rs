//! What holds of the builders taken together.
//!
//! The setters and `build` state what each of them does to a builder's draft.
//! The lemmas here state what follows for sequences of calls: when `build` can
//! be reached, that the order of setters does not matter, what collection
//! fields hold after several calls, which alternative of a variant field
//! stays, what a field that was never set finalizes to, and that a value that
//! was set is read back unchanged.

use crate::base::{
    AgeBuilder, AgeDraft, ExternalReferenceDraft, GestationalAgeBuilder, GestationalAgeDraft,
    OntologyClassBuilder, OntologyClassDraft, TimeElementBuilder, TimeElementDraft,
};
use crate::individual::{IndividualBuilder, IndividualDraft, VitalStatusBuilder, VitalStatusDraft};
use crate::meta_data::{
    MetaDataBuilder, MetaDataDraft, ResourceBuilder, ResourceDraft, ResourceField, UpdateBuilder,
    UpdateDraft,
};
use crate::phenopackets::{PhenopacketBuilder, PhenopacketDraft};
use crate::phenotypic_feature::{PhenotypicFeatureBuilder, PhenotypicFeatureDraft};
use crate::schema::{
    AgeModel, ElementModel, EvidenceModel, ExternalReferenceModel, GestationalAgeModel,
    IndividualModel, KaryotypicSex, MetaDataModel, OntologyClass, OntologyClassModel,
    PhenopacketModel, PhenotypicFeatureModel, ResourceModel, Sex, Status, TimeElementModel,
    Timestamp, UpdateModel, VitalStatusModel,
};
use crate::timestamp::{TimestampBuilder, TimestampDraft};
use crate::{built_all, Build, Filled, Slot};
use vstd::prelude::*;

verus! {

// When `build` can be reached.
//
// `build` exists for the builder whose markers all read "filled", and for no
// other. Of a well-formed builder the markers all read "filled" exactly when
// the draft holds every mandatory field.

/// The marker of an ontology class builder reads "filled" exactly when the
/// draft is complete.
pub proof fn lemma_ontology_class_ready_iff_complete<T: Slot>(builder: OntologyClassBuilder<T>)
    requires
        builder.wf(),
    ensures
        T::filled() <==> builder@.complete(),
        !T::filled() ==> builder@ == OntologyClassDraft::empty(),
{
}

/// The marker of a timestamp builder reads "filled" exactly when the draft is
/// complete.
pub proof fn lemma_timestamp_ready_iff_complete<T: Slot>(builder: TimestampBuilder<T>)
    requires
        builder.wf(),
    ensures
        T::filled() <==> builder@.complete(),
        !T::filled() ==> builder@ == TimestampDraft::empty(),
{
}

/// The marker of a time element builder reads "filled" exactly when the draft
/// is complete.
pub proof fn lemma_time_element_ready_iff_complete<T: Slot>(builder: TimeElementBuilder<T>)
    requires
        builder.wf(),
    ensures
        T::filled() <==> builder@.complete(),
        !T::filled() ==> builder@ == TimeElementDraft::empty(),
{
}

/// The marker of an age builder reads "filled" exactly when the draft is
/// complete.
pub proof fn lemma_age_ready_iff_complete<T: Slot>(builder: AgeBuilder<T>)
    requires
        builder.wf(),
    ensures
        T::filled() <==> builder@.complete(),
        !T::filled() ==> builder@ == AgeDraft::empty(),
{
}

/// The marker of a gestational age builder reads "filled" exactly when the
/// draft is complete.
pub proof fn lemma_gestational_age_ready_iff_complete<T: Slot>(builder: GestationalAgeBuilder<T>)
    requires
        builder.wf(),
    ensures
        T::filled() <==> builder@.complete(),
{
}

/// The marker of a vital status builder reads "filled" exactly when the draft
/// is complete.
pub proof fn lemma_vital_status_ready_iff_complete<T: Slot>(builder: VitalStatusBuilder<T>)
    requires
        builder.wf(),
    ensures
        T::filled() <==> builder@.complete(),
{
}

/// The marker of an individual builder reads "filled" exactly when the draft
/// is complete.
pub proof fn lemma_individual_ready_iff_complete<T: Slot>(builder: IndividualBuilder<T>)
    requires
        builder.wf(),
    ensures
        T::filled() <==> builder@.complete(),
{
}

/// The marker of an update builder reads "filled" exactly when the draft is
/// complete.
pub proof fn lemma_update_ready_iff_complete<T: Slot>(builder: UpdateBuilder<T>)
    requires
        builder.wf(),
    ensures
        T::filled() <==> builder@.complete(),
{
}

/// The marker of a phenotypic feature builder reads "filled" exactly when the
/// draft is complete.
pub proof fn lemma_phenotypic_feature_ready_iff_complete<T: Slot>(
    builder: PhenotypicFeatureBuilder<T>,
)
    requires
        builder.wf(),
    ensures
        T::filled() <==> builder@.complete(),
{
}

/// The three markers of a meta data builder all read "filled" exactly when the
/// draft is complete.
pub proof fn lemma_meta_data_ready_iff_complete<T: Slot, U: Slot, V: Slot>(
    builder: MetaDataBuilder<T, U, V>,
)
    requires
        builder.wf(),
    ensures
        T::filled() && U::filled() && V::filled() <==> builder@.complete(),
{
}

/// The six markers of a resource builder all read "filled" exactly when the
/// draft is complete.
pub proof fn lemma_resource_ready_iff_complete<
    T: Slot,
    U: Slot,
    V: Slot,
    X: Slot,
    Y: Slot,
    Z: Slot,
>(builder: ResourceBuilder<T, U, V, X, Y, Z>)
    requires
        builder.wf(),
    ensures
        T::filled() && U::filled() && V::filled() && X::filled() && Y::filled() && Z::filled()
            <==> builder@.complete(),
{
}

/// The two markers of a phenopacket builder both read "filled" exactly when
/// the draft is complete.
pub proof fn lemma_phenopacket_ready_iff_complete<T: Slot, U: Slot>(
    builder: PhenopacketBuilder<T, U>,
)
    requires
        builder.wf(),
    ensures
        T::filled() && U::filled() <==> builder@.complete(),
{
}

// The order of setters.

/// The three mandatory fields of meta data can be set in any of the six
/// orders: the draft is the same, and it is complete.
pub proof fn lemma_meta_data_any_order(
    draft: MetaDataDraft,
    created: Timestamp,
    created_by: Seq<char>,
    version: Seq<char>,
)
    ensures
        ({
            let c = |d: MetaDataDraft| MetaDataDraft { created: Some(created), ..d };
            let b = |d: MetaDataDraft| MetaDataDraft { created_by: Some(created_by), ..d };
            let v = |d: MetaDataDraft|
                MetaDataDraft { phenopacket_schema_version: Some(version), ..d };
            let all = v(b(c(draft)));
            &&& all == b(v(c(draft)))
            &&& all == v(c(b(draft)))
            &&& all == c(v(b(draft)))
            &&& all == b(c(v(draft)))
            &&& all == c(b(v(draft)))
            &&& all.complete()
        }),
{
}

/// No strict part of the three mandatory fields of meta data completes a
/// draft, whatever else was set.
pub proof fn lemma_meta_data_incomplete_until_all_set(
    created: Timestamp,
    created_by: Seq<char>,
    version: Seq<char>,
    submitted_by: Option<Seq<char>>,
    resources: Seq<ResourceModel>,
)
    ensures
        ({
            let none = MetaDataDraft { submitted_by, resources, ..MetaDataDraft::empty() };
            let c = |d: MetaDataDraft| MetaDataDraft { created: Some(created), ..d };
            let b = |d: MetaDataDraft| MetaDataDraft { created_by: Some(created_by), ..d };
            let v = |d: MetaDataDraft|
                MetaDataDraft { phenopacket_schema_version: Some(version), ..d };
            &&& !none.complete()
            &&& !c(none).complete()
            &&& !b(none).complete()
            &&& !v(none).complete()
            &&& !b(c(none)).complete()
            &&& !v(c(none)).complete()
            &&& !v(b(none)).complete()
            &&& v(b(c(none))).complete()
        }),
{
}

/// The setters of an individual's optional fields can run before or after the
/// setter of the identifier, and in any order among fields: setters of
/// different fields commute.
pub proof fn lemma_individual_setters_commute(
    draft: IndividualDraft,
    id: Seq<char>,
    alternate_id: Seq<char>,
    sex: Sex,
    taxonomy: OntologyClassModel,
)
    ensures
        ({
            let i = |d: IndividualDraft| IndividualDraft { id: Some(id), ..d };
            let a = |d: IndividualDraft|
                IndividualDraft { alternate_ids: d.alternate_ids.push(alternate_id), ..d };
            let c = |d: IndividualDraft| IndividualDraft { alternate_ids: Seq::empty(), ..d };
            let s = |d: IndividualDraft| IndividualDraft { sex, ..d };
            let t = |d: IndividualDraft| IndividualDraft { taxonomy: Some(taxonomy), ..d };
            &&& i(a(draft)) == a(i(draft))
            &&& i(c(draft)) == c(i(draft))
            &&& i(s(draft)) == s(i(draft))
            &&& i(t(draft)) == t(i(draft))
            &&& a(s(draft)) == s(a(draft))
            &&& a(t(draft)) == t(a(draft))
            &&& s(t(draft)) == t(s(draft))
            &&& i(s(a(t(draft)))) == t(a(s(i(draft))))
            &&& i(draft).complete() && a(i(draft)).complete() && c(s(t(i(draft)))).complete()
            &&& a(draft).complete() == draft.complete()
        }),
{
}

/// The two mandatory fields of a phenopacket can be set in either order: the
/// draft is the same, and it is complete. Either of them alone does not
/// complete an empty draft.
pub proof fn lemma_phenopacket_any_order(
    draft: PhenopacketDraft,
    id: Seq<char>,
    meta_data: MetaDataModel,
)
    ensures
        ({
            let i = |d: PhenopacketDraft| PhenopacketDraft { id: Some(id), ..d };
            let m = |d: PhenopacketDraft| PhenopacketDraft { meta_data: Some(meta_data), ..d };
            &&& m(i(draft)) == i(m(draft))
            &&& m(i(draft)).complete()
            &&& !PhenopacketDraft::empty().complete()
            &&& !i(PhenopacketDraft::empty()).complete()
            &&& !m(PhenopacketDraft::empty()).complete()
        }),
{
}

/// Whether no field is set twice in `steps`. The markers allow no other
/// sequence of setters: a setter exists only while its field is unset.
pub open spec fn each_field_once(steps: Seq<(ResourceField, Seq<char>)>) -> bool {
    forall|i: int, j: int|
        0 <= i < j < steps.len() ==> (#[trigger] steps[i]).0 != (#[trigger] steps[j]).0
}

/// Whether `steps` sets `field`.
pub open spec fn sets_field(steps: Seq<(ResourceField, Seq<char>)>, field: ResourceField) -> bool {
    exists|i: int| 0 <= i < steps.len() && (#[trigger] steps[i]).0 == field
}

/// After a sequence of setters that sets no field twice, a field holds the
/// text of its step, and a field without a step holds what it held before.
pub proof fn lemma_resource_field_after_steps(
    draft: ResourceDraft,
    steps: Seq<(ResourceField, Seq<char>)>,
    field: ResourceField,
)
    requires
        each_field_once(steps),
    ensures
        forall|i: int|
            0 <= i < steps.len() && (#[trigger] steps[i]).0 == field ==> draft.set_all(
                steps,
            ).get(field) == Some(steps[i].1),
        !sets_field(steps, field) ==> draft.set_all(steps).get(field) == draft.get(field),
    decreases steps.len(),
{
    if steps.len() > 0 {
        let before = steps.drop_last();
        assert(each_field_once(before)) by {
            assert forall|i: int, j: int| 0 <= i < j < before.len() implies (#[trigger] before[i]).0
                != (#[trigger] before[j]).0 by {
                assert(before[i] == steps[i] && before[j] == steps[j]);
            }
        }
        lemma_resource_field_after_steps(draft, before, field);
        let last = steps.len() - 1;
        assert forall|i: int| 0 <= i < steps.len() && (#[trigger] steps[i]).0 == field implies
            draft.set_all(steps).get(field) == Some(steps[i].1) by {
            if i < last {
                assert(before[i] == steps[i]);
                assert(steps[i].0 != steps[last].0);
            }
        }
        if !sets_field(steps, field) {
            assert(steps[last].0 != field);
            assert(!sets_field(before, field)) by {
                if sets_field(before, field) {
                    let i = choose|i: int|
                        0 <= i < before.len() && (#[trigger] before[i]).0 == field;
                    assert(steps[i] == before[i]);
                }
            }
        }
    }
}

/// The mandatory fields of a resource can be set in any order: two sequences
/// of setters that set no field twice and hold the same steps give the same
/// draft.
pub proof fn lemma_resource_any_order(
    draft: ResourceDraft,
    steps: Seq<(ResourceField, Seq<char>)>,
    reordered: Seq<(ResourceField, Seq<char>)>,
)
    requires
        each_field_once(steps),
        each_field_once(reordered),
        forall|i: int| 0 <= i < steps.len() ==> reordered.contains(#[trigger] steps[i]),
        forall|i: int| 0 <= i < reordered.len() ==> steps.contains(#[trigger] reordered[i]),
    ensures
        draft.set_all(steps) == draft.set_all(reordered),
{
    let a = draft.set_all(steps);
    let b = draft.set_all(reordered);
    assert forall|field: ResourceField| a.get(field) == b.get(field) by {
        lemma_resource_field_after_steps(draft, steps, field);
        lemma_resource_field_after_steps(draft, reordered, field);
        if sets_field(steps, field) {
            let i = choose|i: int| 0 <= i < steps.len() && (#[trigger] steps[i]).0 == field;
            assert(reordered.contains(steps[i]));
            let j = choose|j: int| 0 <= j < reordered.len() && reordered[j] == steps[i];
            assert(reordered[j].0 == field);
        } else if sets_field(reordered, field) {
            let j = choose|j: int|
                0 <= j < reordered.len() && (#[trigger] reordered[j]).0 == field;
            assert(steps.contains(reordered[j]));
            let i = choose|i: int| 0 <= i < steps.len() && steps[i] == reordered[j];
            assert(steps[i].0 == field);
        }
    }
    assert(a.get(ResourceField::Id) == b.get(ResourceField::Id));
    assert(a.get(ResourceField::Name) == b.get(ResourceField::Name));
    assert(a.get(ResourceField::NamespacePrefix) == b.get(ResourceField::NamespacePrefix));
    assert(a.get(ResourceField::Url) == b.get(ResourceField::Url));
    assert(a.get(ResourceField::Version) == b.get(ResourceField::Version));
    assert(a.get(ResourceField::IriPrefix) == b.get(ResourceField::IriPrefix));
}

/// From the empty draft, a sequence of setters that sets no field twice gives
/// a complete draft exactly when it sets every one of the six fields.
pub proof fn lemma_resource_complete_iff_all_set(steps: Seq<(ResourceField, Seq<char>)>)
    requires
        each_field_once(steps),
    ensures
        ResourceDraft::empty().set_all(steps).complete() <==> forall|field: ResourceField|
            #[trigger] sets_field(steps, field),
{
    let end = ResourceDraft::empty().set_all(steps);
    assert forall|field: ResourceField|
        end.get(field) is Some <==> #[trigger] sets_field(steps, field) by {
        lemma_resource_field_after_steps(ResourceDraft::empty(), steps, field);
        if sets_field(steps, field) {
            let i = choose|i: int| 0 <= i < steps.len() && (#[trigger] steps[i]).0 == field;
            assert(end.get(field) == Some(steps[i].1));
        }
    }
    assert(end.complete() <==> {
        &&& sets_field(steps, ResourceField::Id)
        &&& sets_field(steps, ResourceField::Name)
        &&& sets_field(steps, ResourceField::NamespacePrefix)
        &&& sets_field(steps, ResourceField::Url)
        &&& sets_field(steps, ResourceField::Version)
        &&& sets_field(steps, ResourceField::IriPrefix)
    });
}

// Presets.

/// The presets of the NCI Thesaurus and of the genotype ontology each carry a
/// URL of their own: whatever the versions, the two drafts differ in it.
pub proof fn lemma_ncit_and_geno_urls_differ(ncit_version: Seq<char>, geno_version: Seq<char>)
    ensures
        ({
            let ncit = ResourceDraft::full(
                "ncit"@,
                "NCI Thesaurus"@,
                "NCIT"@,
                "https://purl.obolibrary.org/obo/ncit.owl"@,
                ncit_version,
                "https://purl.obolibrary.org/obo/NCIT_"@,
            );
            let geno = ResourceDraft::full(
                "geno"@,
                "genotype ontology"@,
                "GENO"@,
                "https://purl.obolibrary.org/obo/geno.owl"@,
                geno_version,
                "https://purl.obolibrary.org/obo/GENO_"@,
            );
            ncit.url != geno.url && ncit.finish().url != geno.finish().url
        }),
{
    reveal_strlit("https://purl.obolibrary.org/obo/ncit.owl");
    reveal_strlit("https://purl.obolibrary.org/obo/geno.owl");
    assert("https://purl.obolibrary.org/obo/ncit.owl"@[32] == 'n');
    assert("https://purl.obolibrary.org/obo/geno.owl"@[32] == 'g');
}

// Collection fields.

/// Three single appends to a collection field put the three items behind what
/// the field held, in call order. On an empty field they give exactly the
/// three items.
pub proof fn lemma_appends_keep_call_order<A>(held: Seq<A>, first: A, second: A, third: A)
    ensures
        held.push(first).push(second).push(third) == held + seq![first, second, third],
        Seq::<A>::empty().push(first).push(second).push(third) == seq![first, second, third],
        seq![first, second, third].len() == 3,
{
}

/// A bulk append is the single appends of its items, first to last.
pub proof fn lemma_bulk_append_is_single_appends<T: DeepView, B: Build<T>>(
    held: Seq<T::V>,
    first: B,
    second: B,
    third: B,
)
    ensures
        held + built_all::<T, B>(seq![first, second, third]) == held.push(first.built()).push(
            second.built(),
        ).push(third.built()),
        held + built_all::<T, B>(Seq::empty()) == held,
{
    let items = seq![first, second, third];
    assert(items[0] == first && items[1] == second && items[2] == third);
    assert(built_all::<T, B>(items) == seq![first.built(), second.built(), third.built()]);
}

/// The alternate identifiers of an individual after three single appends and
/// after a clear: the three in call order behind what was held, then none,
/// whatever was appended before.
pub proof fn lemma_alternate_ids_history(
    draft: IndividualDraft,
    first: Seq<char>,
    second: Seq<char>,
    third: Seq<char>,
)
    ensures
        ({
            let append = |d: IndividualDraft, id: Seq<char>|
                IndividualDraft { alternate_ids: d.alternate_ids.push(id), ..d };
            let clear = |d: IndividualDraft| IndividualDraft { alternate_ids: Seq::empty(), ..d };
            let three = append(append(append(draft, first), second), third);
            &&& three.alternate_ids == draft.alternate_ids + seq![first, second, third]
            &&& append(append(append(clear(draft), first), second), third).alternate_ids == seq![
                first,
                second,
                third,
            ]
            &&& clear(three).alternate_ids.len() == 0
            &&& clear(three) == clear(draft)
        }),
{
}

// Nested records.

/// A setter that takes a nested record takes the finished record or a builder
/// of it whose mandatory fields are all set, and stores the same in both
/// cases: the builder counts as the record that it finalizes to.
pub proof fn lemma_complete_builder_counts_as_its_record(
    builder: OntologyClassBuilder<Filled>,
    record: OntologyClass,
)
    requires
        record@ == builder@.finish(),
    ensures
        Build::<OntologyClass>::built(builder) == Build::<OntologyClass>::built(record),
        Build::<OntologyClass>::built(record) == record@,
{
}

// Variant fields.

/// Selecting an alternative of a time element after another keeps the second
/// alone: the draft is the one that selecting the second at once would give,
/// and it finalizes to a record that holds the second.
pub proof fn lemma_last_alternative_stays(
    draft: TimeElementDraft,
    first: ElementModel,
    second: ElementModel,
)
    ensures
        ({
            let select = |d: TimeElementDraft, e: ElementModel|
                TimeElementDraft { element: Some(e), ..d };
            let both = select(select(draft, first), second);
            &&& both == select(draft, second)
            &&& both == select(TimeElementDraft::empty(), second)
            &&& both.complete()
            &&& both.finish().element == Some(second)
        }),
{
}

/// Setting the status of a vital status after another keeps the second, and
/// touches no other field.
pub proof fn lemma_last_status_stays(draft: VitalStatusDraft, first: Status, second: Status)
    ensures
        ({
            let set = |d: VitalStatusDraft, s: Status| VitalStatusDraft { status: Some(s), ..d };
            let both = set(set(draft, first), second);
            &&& both == set(draft, second)
            &&& both.finish().status == second.code()
        }),
{
}

// Fields that were never set.

/// A gestational age whose days were never set has zero days.
pub proof fn lemma_gestational_age_defaults(weeks: i32)
    ensures
        (GestationalAgeDraft { weeks: Some(weeks), ..GestationalAgeDraft::empty() }).finish()
            == (GestationalAgeModel { weeks, days: 0 }),
{
}

/// A vital status of which only the status was set has a survival time of
/// zero days, no time of death and no cause of death.
pub proof fn lemma_vital_status_defaults(status: Status)
    ensures
        (VitalStatusDraft { status: Some(status), ..VitalStatusDraft::empty() }).finish() == (
        VitalStatusModel {
            status: status.code(),
            time_of_death: None,
            cause_of_death: None,
            survival_time_in_days: 0,
        }),
{
}

/// An external reference on which no setter has run has three empty texts.
pub proof fn lemma_external_reference_defaults()
    ensures
        ExternalReferenceDraft::empty().finish() == (ExternalReferenceModel {
            id: Seq::empty(),
            reference: Seq::empty(),
            description: Seq::empty(),
        }),
{
}

/// An update of which only the timestamp was set has an empty author and an
/// empty comment.
pub proof fn lemma_update_defaults(timestamp: Timestamp)
    ensures
        (UpdateDraft { timestamp: Some(timestamp), ..UpdateDraft::empty() }).finish() == (
        UpdateModel {
            timestamp: Some(timestamp),
            updated_by: Seq::empty(),
            comment: Seq::empty(),
        }),
{
}

/// Meta data of which only the mandatory fields were set has an empty
/// submitter, no resources, no updates and no external references.
pub proof fn lemma_meta_data_defaults(
    created: Timestamp,
    created_by: Seq<char>,
    version: Seq<char>,
)
    ensures
        (MetaDataDraft {
            created: Some(created),
            created_by: Some(created_by),
            phenopacket_schema_version: Some(version),
            ..MetaDataDraft::empty()
        }).finish() == (MetaDataModel {
            created: Some(created),
            created_by,
            submitted_by: Seq::empty(),
            resources: Seq::empty(),
            updates: Seq::empty(),
            phenopacket_schema_version: version,
            external_references: Seq::empty(),
        }),
{
}

/// A phenotypic feature of which only the type was set has an empty
/// description, is observed, and has no severity, modifiers, onset, resolution
/// or evidence.
pub proof fn lemma_phenotypic_feature_defaults(feature_type: OntologyClassModel)
    ensures
        (PhenotypicFeatureDraft {
            feature_type: Some(feature_type),
            ..PhenotypicFeatureDraft::empty()
        }).finish() == (PhenotypicFeatureModel {
            description: Seq::empty(),
            feature_type: Some(feature_type),
            excluded: false,
            severity: None,
            modifiers: Seq::empty(),
            onset: None,
            resolution: None,
            evidence: Seq::empty(),
        }),
{
}

/// An individual of which only the identifier was set has an unknown sex and
/// an unknown karyotypic sex, both stored as zero, no alternate identifiers,
/// and none of the optional records.
pub proof fn lemma_individual_defaults(id: Seq<char>)
    ensures
        (IndividualDraft { id: Some(id), ..IndividualDraft::empty() }).finish() == (
        IndividualModel {
            id,
            alternate_ids: Seq::empty(),
            date_of_birth: None,
            time_at_last_encounter: None,
            vital_status: None,
            sex: 0,
            karyotypic_sex: 0,
            gender: None,
            taxonomy: None,
        }),
{
}

/// A phenopacket of which only the mandatory fields were set has no subject
/// and no phenotypic features.
pub proof fn lemma_phenopacket_defaults(id: Seq<char>, meta_data: MetaDataModel)
    ensures
        (PhenopacketDraft {
            id: Some(id),
            meta_data: Some(meta_data),
            ..PhenopacketDraft::empty()
        }).finish() == (PhenopacketModel {
            id,
            subject: None,
            phenotypic_features: Seq::empty(),
            meta_data: Some(meta_data),
        }),
{
}

/// A field that was set to the value that it would have if it were never set
/// finalizes as if it were never set.
pub proof fn lemma_explicit_default_is_as_unset(
    gestational_age: GestationalAgeDraft,
    vital_status: VitalStatusDraft,
    update: UpdateDraft,
)
    ensures
        (GestationalAgeDraft { days: Some(0), ..gestational_age }).finish() == (
        GestationalAgeDraft { days: None, ..gestational_age }).finish(),
        (VitalStatusDraft { survival_time_in_days: Some(0), ..vital_status }).finish() == (
        VitalStatusDraft { survival_time_in_days: None, ..vital_status }).finish(),
        (UpdateDraft { comment: Some(Seq::empty()), ..update }).finish() == (UpdateDraft {
            comment: None,
            ..update
        }).finish(),
{
}

// Reading back what was set.

/// An ontology class holds the identifier and the label that were set.
pub proof fn lemma_ontology_class_round_trip(id: Seq<char>, label: Seq<char>)
    ensures
        (OntologyClassDraft { id: Some(id), label: Some(label) }).finish() == (OntologyClassModel {
            id,
            label,
        }),
{
}

/// A timestamp is the one that was set.
pub proof fn lemma_timestamp_round_trip(seconds: i64, nanos: i32)
    ensures
        (TimestampDraft { timestamp: Some(Timestamp { seconds, nanos }) }).finish() == (Timestamp {
            seconds,
            nanos,
        }),
{
}

/// An age holds the duration that was set.
pub proof fn lemma_age_round_trip(iso8601duration: Seq<char>)
    ensures
        (AgeDraft { iso8601duration: Some(iso8601duration) }).finish() == (AgeModel {
            iso8601duration,
        }),
{
}

/// A gestational age holds the weeks and the days that were set, in either
/// order of the two setters.
pub proof fn lemma_gestational_age_round_trip(weeks: i32, days: i32)
    ensures
        ({
            let w = |d: GestationalAgeDraft| GestationalAgeDraft { weeks: Some(weeks), ..d };
            let y = |d: GestationalAgeDraft| GestationalAgeDraft { days: Some(days), ..d };
            &&& y(w(GestationalAgeDraft::empty())).finish() == (GestationalAgeModel { weeks, days })
            &&& w(y(GestationalAgeDraft::empty())) == y(w(GestationalAgeDraft::empty()))
        }),
{
}

/// An external reference holds the three texts that were set.
pub proof fn lemma_external_reference_round_trip(
    id: Seq<char>,
    reference: Seq<char>,
    description: Seq<char>,
)
    ensures
        (ExternalReferenceDraft {
            id: Some(id),
            reference: Some(reference),
            description: Some(description),
        }).finish() == (ExternalReferenceModel { id, reference, description }),
{
}

/// A resource holds the six texts that were set.
pub proof fn lemma_resource_round_trip(
    id: Seq<char>,
    name: Seq<char>,
    namespace_prefix: Seq<char>,
    url: Seq<char>,
    version: Seq<char>,
    iri_prefix: Seq<char>,
)
    ensures
        ({
            let steps = seq![
                (ResourceField::Id, id),
                (ResourceField::Name, name),
                (ResourceField::NamespacePrefix, namespace_prefix),
                (ResourceField::Url, url),
                (ResourceField::Version, version),
                (ResourceField::IriPrefix, iri_prefix),
            ];
            let full = ResourceDraft::full(id, name, namespace_prefix, url, version, iri_prefix);
            &&& each_field_once(steps)
            &&& ResourceDraft::empty().set_all(steps) == full
            &&& full.complete()
            &&& full.finish() == (ResourceModel {
                id,
                name,
                url,
                version,
                namespace_prefix,
                iri_prefix,
            })
        }),
{
    let steps = seq![
        (ResourceField::Id, id),
        (ResourceField::Name, name),
        (ResourceField::NamespacePrefix, namespace_prefix),
        (ResourceField::Url, url),
        (ResourceField::Version, version),
        (ResourceField::IriPrefix, iri_prefix),
    ];
    let e = ResourceDraft::empty();
    assert(steps.take(0) == Seq::<(ResourceField, Seq<char>)>::empty());
    assert(e.set_all(steps.take(0)) == e);
    assert forall|n: int| 0 < n <= 6 implies #[trigger] e.set_all(steps.take(n)) == e.set_all(
        steps.take(n - 1),
    ).set(steps[n - 1].0, steps[n - 1].1) by {
        assert(steps.take(n).drop_last() == steps.take(n - 1));
    }
    assert(e.set_all(steps.take(1)) == e.set(ResourceField::Id, id));
    assert(e.set_all(steps.take(2)) == e.set_all(steps.take(1)).set(ResourceField::Name, name));
    assert(e.set_all(steps.take(3)) == e.set_all(steps.take(2)).set(
        ResourceField::NamespacePrefix,
        namespace_prefix,
    ));
    assert(e.set_all(steps.take(4)) == e.set_all(steps.take(3)).set(ResourceField::Url, url));
    assert(e.set_all(steps.take(5)) == e.set_all(steps.take(4)).set(
        ResourceField::Version,
        version,
    ));
    assert(e.set_all(steps.take(6)) == e.set_all(steps.take(5)).set(
        ResourceField::IriPrefix,
        iri_prefix,
    ));
    assert(steps.take(6) == steps);
}

/// An update holds the timestamp, the author and the comment that were set.
pub proof fn lemma_update_round_trip(
    timestamp: Timestamp,
    updated_by: Seq<char>,
    comment: Seq<char>,
)
    ensures
        (UpdateDraft {
            timestamp: Some(timestamp),
            updated_by: Some(updated_by),
            comment: Some(comment),
        }).finish() == (UpdateModel { timestamp: Some(timestamp), updated_by, comment }),
{
}

/// A vital status holds what was set: the status as its code, the rest as
/// given.
pub proof fn lemma_vital_status_round_trip(
    status: Status,
    time_of_death: TimeElementModel,
    cause_of_death: OntologyClassModel,
    survival_time_in_days: u32,
)
    ensures
        (VitalStatusDraft {
            status: Some(status),
            time_of_death: Some(time_of_death),
            cause_of_death: Some(cause_of_death),
            survival_time_in_days: Some(survival_time_in_days),
        }).finish() == (VitalStatusModel {
            status: status.code(),
            time_of_death: Some(time_of_death),
            cause_of_death: Some(cause_of_death),
            survival_time_in_days,
        }),
{
}

/// An individual holds what was set: the sex and the karyotypic sex as their
/// codes, the rest as given.
pub proof fn lemma_individual_round_trip(
    id: Seq<char>,
    alternate_ids: Seq<Seq<char>>,
    date_of_birth: Timestamp,
    time_at_last_encounter: TimeElementModel,
    vital_status: VitalStatusModel,
    sex: Sex,
    karyotypic_sex: KaryotypicSex,
    gender: OntologyClassModel,
    taxonomy: OntologyClassModel,
)
    ensures
        (IndividualDraft {
            id: Some(id),
            alternate_ids,
            date_of_birth: Some(date_of_birth),
            time_at_last_encounter: Some(time_at_last_encounter),
            vital_status: Some(vital_status),
            sex,
            karyotypic_sex,
            gender: Some(gender),
            taxonomy: Some(taxonomy),
        }).finish() == (IndividualModel {
            id,
            alternate_ids,
            date_of_birth: Some(date_of_birth),
            time_at_last_encounter: Some(time_at_last_encounter),
            vital_status: Some(vital_status),
            sex: sex.code(),
            karyotypic_sex: karyotypic_sex.code(),
            gender: Some(gender),
            taxonomy: Some(taxonomy),
        }),
{
}

/// Meta data holds what was set.
pub proof fn lemma_meta_data_round_trip(
    created: Timestamp,
    created_by: Seq<char>,
    submitted_by: Seq<char>,
    resources: Seq<ResourceModel>,
    updates: Seq<UpdateModel>,
    version: Seq<char>,
    external_references: Seq<ExternalReferenceModel>,
)
    ensures
        (MetaDataDraft {
            created: Some(created),
            created_by: Some(created_by),
            submitted_by: Some(submitted_by),
            resources,
            updates,
            phenopacket_schema_version: Some(version),
            external_references,
        }).finish() == (MetaDataModel {
            created: Some(created),
            created_by,
            submitted_by,
            resources,
            updates,
            phenopacket_schema_version: version,
            external_references,
        }),
{
}

/// A phenotypic feature holds what was set.
pub proof fn lemma_phenotypic_feature_round_trip(
    description: Seq<char>,
    feature_type: OntologyClassModel,
    excluded: bool,
    severity: OntologyClassModel,
    modifiers: Seq<OntologyClassModel>,
    onset: TimeElementModel,
    resolution: TimeElementModel,
    evidence: Seq<EvidenceModel>,
)
    ensures
        (PhenotypicFeatureDraft {
            description: Some(description),
            feature_type: Some(feature_type),
            excluded,
            severity: Some(severity),
            modifiers,
            onset: Some(onset),
            resolution: Some(resolution),
            evidence,
        }).finish() == (PhenotypicFeatureModel {
            description,
            feature_type: Some(feature_type),
            excluded,
            severity: Some(severity),
            modifiers,
            onset: Some(onset),
            resolution: Some(resolution),
            evidence,
        }),
{
}

/// A phenopacket holds what was set.
pub proof fn lemma_phenopacket_round_trip(
    id: Seq<char>,
    subject: IndividualModel,
    phenotypic_features: Seq<PhenotypicFeatureModel>,
    meta_data: MetaDataModel,
)
    ensures
        (PhenopacketDraft {
            id: Some(id),
            subject: Some(subject),
            phenotypic_features,
            meta_data: Some(meta_data),
        }).finish() == (PhenopacketModel {
            id,
            subject: Some(subject),
            phenotypic_features,
            meta_data: Some(meta_data),
        }),
{
}

} // verus!
