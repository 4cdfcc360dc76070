//! The finished records and their mathematical models.
//!
//! Every record is a plain value with public fields. Its model (`@`) holds the
//! same fields with each string as a `Seq<char>` and each list as a `Seq`, so
//! that contracts can speak of a record's content without speaking of storage.

use vstd::prelude::*;

verus! {

/// A point in time: seconds since the Unix epoch, and nanoseconds within the second.
#[derive(Clone, Copy, Debug, PartialEq, Eq, Hash, Default)]
pub struct Timestamp {
    pub seconds: i64,
    pub nanos: i32,
}

impl DeepView for Timestamp {
    type V = Timestamp;

    open spec fn deep_view(&self) -> Timestamp {
        *self
    }
}

impl View for Timestamp {
    type V = Timestamp;

    open spec fn view(&self) -> Timestamp {
        *self
    }
}

/// Phenotypic sex of an individual.
#[derive(Clone, Copy, Debug, PartialEq, Eq, Hash)]
pub enum Sex {
    UnknownSex,
    Female,
    Male,
    OtherSex,
}

impl Sex {
    /// The number under which the variant is stored in a record.
    pub open spec fn code(self) -> i32 {
        match self {
            Sex::UnknownSex => 0,
            Sex::Female => 1,
            Sex::Male => 2,
            Sex::OtherSex => 3,
        }
    }
}

impl DeepView for Sex {
    type V = Sex;

    open spec fn deep_view(&self) -> Sex {
        *self
    }
}

impl Default for Sex {
    fn default() -> (r: Sex)
        ensures
            r == Sex::UnknownSex,
    {
        Sex::UnknownSex
    }
}

impl From<Sex> for i32 {
    fn from(sex: Sex) -> (r: i32) {
        match sex {
            Sex::UnknownSex => 0,
            Sex::Female => 1,
            Sex::Male => 2,
            Sex::OtherSex => 3,
        }
    }
}

impl vstd::std_specs::convert::FromSpecImpl<Sex> for i32 {
    open spec fn obeys_from_spec() -> bool {
        true
    }

    open spec fn from_spec(sex: Sex) -> i32 {
        sex.code()
    }
}

/// Chromosomal sex of an individual.
#[derive(Clone, Copy, Debug, PartialEq, Eq, Hash)]
pub enum KaryotypicSex {
    UnknownKaryotype,
    Xx,
    Xy,
    Xo,
    Xxy,
    Xxx,
    Xxyy,
    Xxxy,
    Xxxx,
    Xyy,
    OtherKaryotype,
}

impl KaryotypicSex {
    /// The number under which the variant is stored in a record.
    pub open spec fn code(self) -> i32 {
        match self {
            KaryotypicSex::UnknownKaryotype => 0,
            KaryotypicSex::Xx => 1,
            KaryotypicSex::Xy => 2,
            KaryotypicSex::Xo => 3,
            KaryotypicSex::Xxy => 4,
            KaryotypicSex::Xxx => 5,
            KaryotypicSex::Xxyy => 6,
            KaryotypicSex::Xxxy => 7,
            KaryotypicSex::Xxxx => 8,
            KaryotypicSex::Xyy => 9,
            KaryotypicSex::OtherKaryotype => 10,
        }
    }
}

impl DeepView for KaryotypicSex {
    type V = KaryotypicSex;

    open spec fn deep_view(&self) -> KaryotypicSex {
        *self
    }
}

impl Default for KaryotypicSex {
    fn default() -> (r: KaryotypicSex)
        ensures
            r == KaryotypicSex::UnknownKaryotype,
    {
        KaryotypicSex::UnknownKaryotype
    }
}

impl From<KaryotypicSex> for i32 {
    fn from(karyotype: KaryotypicSex) -> (r: i32) {
        match karyotype {
            KaryotypicSex::UnknownKaryotype => 0,
            KaryotypicSex::Xx => 1,
            KaryotypicSex::Xy => 2,
            KaryotypicSex::Xo => 3,
            KaryotypicSex::Xxy => 4,
            KaryotypicSex::Xxx => 5,
            KaryotypicSex::Xxyy => 6,
            KaryotypicSex::Xxxy => 7,
            KaryotypicSex::Xxxx => 8,
            KaryotypicSex::Xyy => 9,
            KaryotypicSex::OtherKaryotype => 10,
        }
    }
}

impl vstd::std_specs::convert::FromSpecImpl<KaryotypicSex> for i32 {
    open spec fn obeys_from_spec() -> bool {
        true
    }

    open spec fn from_spec(karyotype: KaryotypicSex) -> i32 {
        karyotype.code()
    }
}

/// Whether an individual is alive.
#[derive(Clone, Copy, Debug, PartialEq, Eq, Hash)]
pub enum Status {
    UnknownStatus,
    Alive,
    Deceased,
}

impl Status {
    /// The number under which the variant is stored in a record.
    pub open spec fn code(self) -> i32 {
        match self {
            Status::UnknownStatus => 0,
            Status::Alive => 1,
            Status::Deceased => 2,
        }
    }
}

impl DeepView for Status {
    type V = Status;

    open spec fn deep_view(&self) -> Status {
        *self
    }
}

impl Default for Status {
    fn default() -> (r: Status)
        ensures
            r == Status::UnknownStatus,
    {
        Status::UnknownStatus
    }
}

impl From<Status> for i32 {
    fn from(status: Status) -> (r: i32) {
        match status {
            Status::UnknownStatus => 0,
            Status::Alive => 1,
            Status::Deceased => 2,
        }
    }
}

impl vstd::std_specs::convert::FromSpecImpl<Status> for i32 {
    open spec fn obeys_from_spec() -> bool {
        true
    }

    open spec fn from_spec(status: Status) -> i32 {
        status.code()
    }
}

/// A coded concept: an identifier in some ontology and its label.
#[derive(Debug, PartialEq)]
pub struct OntologyClass {
    pub id: String,
    pub label: String,
}

/// The model of an [`OntologyClass`].
pub ghost struct OntologyClassModel {
    pub id: Seq<char>,
    pub label: Seq<char>,
}

impl DeepView for OntologyClass {
    type V = OntologyClassModel;

    open spec fn deep_view(&self) -> OntologyClassModel {
        OntologyClassModel { id: self.id.deep_view(), label: self.label.deep_view() }
    }
}

impl View for OntologyClass {
    type V = OntologyClassModel;

    open spec fn view(&self) -> OntologyClassModel {
        self.deep_view()
    }
}

impl Default for OntologyClass {
    fn default() -> (r: Self)
        ensures
            r@ == (OntologyClassModel { id: Seq::empty(), label: Seq::empty() }),
    {
        OntologyClass { id: String::new(), label: String::new() }
    }
}

impl Clone for OntologyClass {
    fn clone(&self) -> (r: Self)
        ensures
            r@ == self@,
    {
        OntologyClass { id: self.id.clone(), label: self.label.clone() }
    }
}

/// A pointer to a resource outside the record.
#[derive(Debug, PartialEq)]
pub struct ExternalReference {
    pub id: String,
    pub reference: String,
    pub description: String,
}

/// The model of an [`ExternalReference`].
pub ghost struct ExternalReferenceModel {
    pub id: Seq<char>,
    pub reference: Seq<char>,
    pub description: Seq<char>,
}

impl DeepView for ExternalReference {
    type V = ExternalReferenceModel;

    open spec fn deep_view(&self) -> ExternalReferenceModel {
        ExternalReferenceModel {
            id: self.id.deep_view(),
            reference: self.reference.deep_view(),
            description: self.description.deep_view(),
        }
    }
}

impl View for ExternalReference {
    type V = ExternalReferenceModel;

    open spec fn view(&self) -> ExternalReferenceModel {
        self.deep_view()
    }
}

impl Default for ExternalReference {
    fn default() -> (r: Self)
        ensures
            r@ == (ExternalReferenceModel {
                id: Seq::empty(),
                reference: Seq::empty(),
                description: Seq::empty(),
            }),
    {
        ExternalReference {
            id: String::new(),
            reference: String::new(),
            description: String::new(),
        }
    }
}

impl Clone for ExternalReference {
    fn clone(&self) -> (r: Self)
        ensures
            r@ == self@,
    {
        ExternalReference {
            id: self.id.clone(),
            reference: self.reference.clone(),
            description: self.description.clone(),
        }
    }
}

/// What an assertion rests on: a kind of evidence and where it was reported.
#[derive(Debug, PartialEq)]
pub struct Evidence {
    pub evidence_code: Option<OntologyClass>,
    pub reference: Option<ExternalReference>,
}

/// The model of an [`Evidence`].
pub ghost struct EvidenceModel {
    pub evidence_code: Option<OntologyClassModel>,
    pub reference: Option<ExternalReferenceModel>,
}

impl DeepView for Evidence {
    type V = EvidenceModel;

    open spec fn deep_view(&self) -> EvidenceModel {
        EvidenceModel {
            evidence_code: self.evidence_code.deep_view(),
            reference: self.reference.deep_view(),
        }
    }
}

impl View for Evidence {
    type V = EvidenceModel;

    open spec fn view(&self) -> EvidenceModel {
        self.deep_view()
    }
}

impl Default for Evidence {
    fn default() -> (r: Self)
        ensures
            r@ == (EvidenceModel { evidence_code: None, reference: None }),
    {
        Evidence { evidence_code: None, reference: None }
    }
}

impl Clone for Evidence {
    fn clone(&self) -> (r: Self)
        ensures
            r@ == self@,
    {
        Evidence { evidence_code: self.evidence_code.clone(), reference: self.reference.clone() }
    }
}

/// An age before birth, in completed weeks and further days.
#[derive(Debug, PartialEq)]
pub struct GestationalAge {
    pub weeks: i32,
    pub days: i32,
}

/// The model of a [`GestationalAge`].
pub ghost struct GestationalAgeModel {
    pub weeks: i32,
    pub days: i32,
}

impl DeepView for GestationalAge {
    type V = GestationalAgeModel;

    open spec fn deep_view(&self) -> GestationalAgeModel {
        GestationalAgeModel { weeks: self.weeks, days: self.days }
    }
}

impl View for GestationalAge {
    type V = GestationalAgeModel;

    open spec fn view(&self) -> GestationalAgeModel {
        self.deep_view()
    }
}

impl Default for GestationalAge {
    fn default() -> (r: Self)
        ensures
            r@ == (GestationalAgeModel { weeks: 0, days: 0 }),
    {
        GestationalAge { weeks: 0, days: 0 }
    }
}

impl Clone for GestationalAge {
    fn clone(&self) -> (r: Self)
        ensures
            r@ == self@,
    {
        GestationalAge { weeks: self.weeks, days: self.days }
    }
}

/// An age as a duration in text, such as `P1Y2M4D`. The text is stored as given.
#[derive(Debug, PartialEq)]
pub struct Age {
    pub iso8601duration: String,
}

/// The model of an [`Age`].
pub ghost struct AgeModel {
    pub iso8601duration: Seq<char>,
}

impl DeepView for Age {
    type V = AgeModel;

    open spec fn deep_view(&self) -> AgeModel {
        AgeModel { iso8601duration: self.iso8601duration.deep_view() }
    }
}

impl View for Age {
    type V = AgeModel;

    open spec fn view(&self) -> AgeModel {
        self.deep_view()
    }
}

impl Default for Age {
    fn default() -> (r: Self)
        ensures
            r@ == (AgeModel { iso8601duration: Seq::empty() }),
    {
        Age { iso8601duration: String::new() }
    }
}

impl Clone for Age {
    fn clone(&self) -> (r: Self)
        ensures
            r@ == self@,
    {
        Age { iso8601duration: self.iso8601duration.clone() }
    }
}

/// The alternative shapes of a time element. A value holds exactly one of them.
#[derive(Debug, PartialEq)]
pub enum Element {
    GestationalAge(GestationalAge),
    Age(Age),
    OntologyClass(OntologyClass),
    Timestamp(Timestamp),
}

/// The model of an [`Element`].
pub ghost enum ElementModel {
    GestationalAge(GestationalAgeModel),
    Age(AgeModel),
    OntologyClass(OntologyClassModel),
    Timestamp(Timestamp),
}

impl DeepView for Element {
    type V = ElementModel;

    open spec fn deep_view(&self) -> ElementModel {
        match self {
            Element::GestationalAge(g) => ElementModel::GestationalAge(g.deep_view()),
            Element::Age(a) => ElementModel::Age(a.deep_view()),
            Element::OntologyClass(o) => ElementModel::OntologyClass(o.deep_view()),
            Element::Timestamp(t) => ElementModel::Timestamp(*t),
        }
    }
}

impl View for Element {
    type V = ElementModel;

    open spec fn view(&self) -> ElementModel {
        self.deep_view()
    }
}

impl Clone for Element {
    fn clone(&self) -> (r: Self)
        ensures
            r@ == self@,
    {
        match self {
            Element::GestationalAge(g) => Element::GestationalAge(g.clone()),
            Element::Age(a) => Element::Age(a.clone()),
            Element::OntologyClass(o) => Element::OntologyClass(o.clone()),
            Element::Timestamp(t) => Element::Timestamp(*t),
        }
    }
}

/// A point or a span in time, in one of the shapes of [`Element`].
#[derive(Debug, PartialEq)]
pub struct TimeElement {
    pub element: Option<Element>,
}

/// The model of a [`TimeElement`].
pub ghost struct TimeElementModel {
    pub element: Option<ElementModel>,
}

impl DeepView for TimeElement {
    type V = TimeElementModel;

    open spec fn deep_view(&self) -> TimeElementModel {
        TimeElementModel { element: self.element.deep_view() }
    }
}

impl View for TimeElement {
    type V = TimeElementModel;

    open spec fn view(&self) -> TimeElementModel {
        self.deep_view()
    }
}

impl Default for TimeElement {
    fn default() -> (r: Self)
        ensures
            r@ == (TimeElementModel { element: None }),
    {
        TimeElement { element: None }
    }
}

impl Clone for TimeElement {
    fn clone(&self) -> (r: Self)
        ensures
            r@ == self@,
    {
        TimeElement { element: self.element.clone() }
    }
}

/// Whether an individual is alive, and what is known of the death.
#[derive(Debug, PartialEq)]
pub struct VitalStatus {
    /// A [`Status`], stored as its code.
    pub status: i32,
    pub time_of_death: Option<TimeElement>,
    pub cause_of_death: Option<OntologyClass>,
    pub survival_time_in_days: u32,
}

/// The model of a [`VitalStatus`].
pub ghost struct VitalStatusModel {
    pub status: i32,
    pub time_of_death: Option<TimeElementModel>,
    pub cause_of_death: Option<OntologyClassModel>,
    pub survival_time_in_days: u32,
}

impl DeepView for VitalStatus {
    type V = VitalStatusModel;

    open spec fn deep_view(&self) -> VitalStatusModel {
        VitalStatusModel {
            status: self.status,
            time_of_death: self.time_of_death.deep_view(),
            cause_of_death: self.cause_of_death.deep_view(),
            survival_time_in_days: self.survival_time_in_days,
        }
    }
}

impl View for VitalStatus {
    type V = VitalStatusModel;

    open spec fn view(&self) -> VitalStatusModel {
        self.deep_view()
    }
}

impl Default for VitalStatus {
    fn default() -> (r: Self)
        ensures
            r@ == (VitalStatusModel {
                status: 0,
                time_of_death: None,
                cause_of_death: None,
                survival_time_in_days: 0,
            }),
    {
        VitalStatus {
            status: 0,
            time_of_death: None,
            cause_of_death: None,
            survival_time_in_days: 0,
        }
    }
}

impl Clone for VitalStatus {
    fn clone(&self) -> (r: Self)
        ensures
            r@ == self@,
    {
        VitalStatus {
            status: self.status,
            time_of_death: self.time_of_death.clone(),
            cause_of_death: self.cause_of_death.clone(),
            survival_time_in_days: self.survival_time_in_days,
        }
    }
}

/// The subject of a phenopacket.
#[derive(Debug, PartialEq)]
pub struct Individual {
    pub id: String,
    pub alternate_ids: Vec<String>,
    pub date_of_birth: Option<Timestamp>,
    pub time_at_last_encounter: Option<TimeElement>,
    pub vital_status: Option<VitalStatus>,
    /// A [`Sex`], stored as its code.
    pub sex: i32,
    /// A [`KaryotypicSex`], stored as its code.
    pub karyotypic_sex: i32,
    pub gender: Option<OntologyClass>,
    pub taxonomy: Option<OntologyClass>,
}

/// The model of an [`Individual`].
pub ghost struct IndividualModel {
    pub id: Seq<char>,
    pub alternate_ids: Seq<Seq<char>>,
    pub date_of_birth: Option<Timestamp>,
    pub time_at_last_encounter: Option<TimeElementModel>,
    pub vital_status: Option<VitalStatusModel>,
    pub sex: i32,
    pub karyotypic_sex: i32,
    pub gender: Option<OntologyClassModel>,
    pub taxonomy: Option<OntologyClassModel>,
}

impl DeepView for Individual {
    type V = IndividualModel;

    open spec fn deep_view(&self) -> IndividualModel {
        IndividualModel {
            id: self.id.deep_view(),
            alternate_ids: self.alternate_ids.deep_view(),
            date_of_birth: self.date_of_birth.deep_view(),
            time_at_last_encounter: self.time_at_last_encounter.deep_view(),
            vital_status: self.vital_status.deep_view(),
            sex: self.sex,
            karyotypic_sex: self.karyotypic_sex,
            gender: self.gender.deep_view(),
            taxonomy: self.taxonomy.deep_view(),
        }
    }
}

impl View for Individual {
    type V = IndividualModel;

    open spec fn view(&self) -> IndividualModel {
        self.deep_view()
    }
}

impl Default for Individual {
    fn default() -> (r: Self)
        ensures
            r@ == (IndividualModel {
                id: Seq::empty(),
                alternate_ids: Seq::empty(),
                date_of_birth: None,
                time_at_last_encounter: None,
                vital_status: None,
                sex: 0,
                karyotypic_sex: 0,
                gender: None,
                taxonomy: None,
            }),
    {
        let r = Individual {
            id: String::new(),
            alternate_ids: Vec::new(),
            date_of_birth: None,
            time_at_last_encounter: None,
            vital_status: None,
            sex: 0,
            karyotypic_sex: 0,
            gender: None,
            taxonomy: None,
        };
        assert(r.alternate_ids.deep_view() =~= Seq::empty());
        r
    }
}

impl Clone for Individual {
    fn clone(&self) -> (r: Self)
        ensures
            r@ == self@,
    {
        let r = Individual {
            id: self.id.clone(),
            alternate_ids: self.alternate_ids.clone(),
            date_of_birth: self.date_of_birth,
            time_at_last_encounter: self.time_at_last_encounter.clone(),
            vital_status: self.vital_status.clone(),
            sex: self.sex,
            karyotypic_sex: self.karyotypic_sex,
            gender: self.gender.clone(),
            taxonomy: self.taxonomy.clone(),
        };
        assert(r.alternate_ids.deep_view() =~= self.alternate_ids.deep_view());
        r
    }
}

/// An ontology or another source of identifiers that a phenopacket refers to.
#[derive(Debug, PartialEq)]
pub struct Resource {
    pub id: String,
    pub name: String,
    pub url: String,
    pub version: String,
    pub namespace_prefix: String,
    pub iri_prefix: String,
}

/// The model of a [`Resource`].
pub ghost struct ResourceModel {
    pub id: Seq<char>,
    pub name: Seq<char>,
    pub url: Seq<char>,
    pub version: Seq<char>,
    pub namespace_prefix: Seq<char>,
    pub iri_prefix: Seq<char>,
}

impl DeepView for Resource {
    type V = ResourceModel;

    open spec fn deep_view(&self) -> ResourceModel {
        ResourceModel {
            id: self.id.deep_view(),
            name: self.name.deep_view(),
            url: self.url.deep_view(),
            version: self.version.deep_view(),
            namespace_prefix: self.namespace_prefix.deep_view(),
            iri_prefix: self.iri_prefix.deep_view(),
        }
    }
}

impl View for Resource {
    type V = ResourceModel;

    open spec fn view(&self) -> ResourceModel {
        self.deep_view()
    }
}

impl Default for Resource {
    fn default() -> (r: Self)
        ensures
            r@ == (ResourceModel {
                id: Seq::empty(),
                name: Seq::empty(),
                url: Seq::empty(),
                version: Seq::empty(),
                namespace_prefix: Seq::empty(),
                iri_prefix: Seq::empty(),
            }),
    {
        Resource {
            id: String::new(),
            name: String::new(),
            url: String::new(),
            version: String::new(),
            namespace_prefix: String::new(),
            iri_prefix: String::new(),
        }
    }
}

impl Clone for Resource {
    fn clone(&self) -> (r: Self)
        ensures
            r@ == self@,
    {
        Resource {
            id: self.id.clone(),
            name: self.name.clone(),
            url: self.url.clone(),
            version: self.version.clone(),
            namespace_prefix: self.namespace_prefix.clone(),
            iri_prefix: self.iri_prefix.clone(),
        }
    }
}

/// A change made to a phenopacket after it was created.
#[derive(Debug, PartialEq)]
pub struct Update {
    pub timestamp: Option<Timestamp>,
    pub updated_by: String,
    pub comment: String,
}

/// The model of an [`Update`].
pub ghost struct UpdateModel {
    pub timestamp: Option<Timestamp>,
    pub updated_by: Seq<char>,
    pub comment: Seq<char>,
}

impl DeepView for Update {
    type V = UpdateModel;

    open spec fn deep_view(&self) -> UpdateModel {
        UpdateModel {
            timestamp: self.timestamp.deep_view(),
            updated_by: self.updated_by.deep_view(),
            comment: self.comment.deep_view(),
        }
    }
}

impl View for Update {
    type V = UpdateModel;

    open spec fn view(&self) -> UpdateModel {
        self.deep_view()
    }
}

impl Default for Update {
    fn default() -> (r: Self)
        ensures
            r@ == (UpdateModel {
                timestamp: None,
                updated_by: Seq::empty(),
                comment: Seq::empty(),
            }),
    {
        Update { timestamp: None, updated_by: String::new(), comment: String::new() }
    }
}

impl Clone for Update {
    fn clone(&self) -> (r: Self)
        ensures
            r@ == self@,
    {
        Update {
            timestamp: self.timestamp,
            updated_by: self.updated_by.clone(),
            comment: self.comment.clone(),
        }
    }
}

/// Who made a phenopacket, when, and against which resources.
#[derive(Debug, PartialEq)]
pub struct MetaData {
    pub created: Option<Timestamp>,
    pub created_by: String,
    pub submitted_by: String,
    pub resources: Vec<Resource>,
    pub updates: Vec<Update>,
    pub phenopacket_schema_version: String,
    pub external_references: Vec<ExternalReference>,
}

/// The model of a [`MetaData`].
pub ghost struct MetaDataModel {
    pub created: Option<Timestamp>,
    pub created_by: Seq<char>,
    pub submitted_by: Seq<char>,
    pub resources: Seq<ResourceModel>,
    pub updates: Seq<UpdateModel>,
    pub phenopacket_schema_version: Seq<char>,
    pub external_references: Seq<ExternalReferenceModel>,
}

impl DeepView for MetaData {
    type V = MetaDataModel;

    open spec fn deep_view(&self) -> MetaDataModel {
        MetaDataModel {
            created: self.created.deep_view(),
            created_by: self.created_by.deep_view(),
            submitted_by: self.submitted_by.deep_view(),
            resources: self.resources.deep_view(),
            updates: self.updates.deep_view(),
            phenopacket_schema_version: self.phenopacket_schema_version.deep_view(),
            external_references: self.external_references.deep_view(),
        }
    }
}

impl View for MetaData {
    type V = MetaDataModel;

    open spec fn view(&self) -> MetaDataModel {
        self.deep_view()
    }
}

impl Default for MetaData {
    fn default() -> (r: Self)
        ensures
            r@ == (MetaDataModel {
                created: None,
                created_by: Seq::empty(),
                submitted_by: Seq::empty(),
                resources: Seq::empty(),
                updates: Seq::empty(),
                phenopacket_schema_version: Seq::empty(),
                external_references: Seq::empty(),
            }),
    {
        let r = MetaData {
            created: None,
            created_by: String::new(),
            submitted_by: String::new(),
            resources: Vec::new(),
            updates: Vec::new(),
            phenopacket_schema_version: String::new(),
            external_references: Vec::new(),
        };
        assert(r.resources.deep_view() =~= Seq::empty());
        assert(r.updates.deep_view() =~= Seq::empty());
        assert(r.external_references.deep_view() =~= Seq::empty());
        r
    }
}

impl Clone for MetaData {
    fn clone(&self) -> (r: Self)
        ensures
            r@ == self@,
    {
        let r = MetaData {
            created: self.created,
            created_by: self.created_by.clone(),
            submitted_by: self.submitted_by.clone(),
            resources: self.resources.clone(),
            updates: self.updates.clone(),
            phenopacket_schema_version: self.phenopacket_schema_version.clone(),
            external_references: self.external_references.clone(),
        };
        assert(r.resources.deep_view() =~= self.resources.deep_view());
        assert(r.updates.deep_view() =~= self.updates.deep_view());
        assert(r.external_references.deep_view() =~= self.external_references.deep_view());
        r
    }
}

/// One observed or excluded phenotype.
#[derive(Debug, PartialEq)]
pub struct PhenotypicFeature {
    pub description: String,
    pub feature_type: Option<OntologyClass>,
    pub excluded: bool,
    pub severity: Option<OntologyClass>,
    pub modifiers: Vec<OntologyClass>,
    pub onset: Option<TimeElement>,
    pub resolution: Option<TimeElement>,
    pub evidence: Vec<Evidence>,
}

/// The model of a [`PhenotypicFeature`].
pub ghost struct PhenotypicFeatureModel {
    pub description: Seq<char>,
    pub feature_type: Option<OntologyClassModel>,
    pub excluded: bool,
    pub severity: Option<OntologyClassModel>,
    pub modifiers: Seq<OntologyClassModel>,
    pub onset: Option<TimeElementModel>,
    pub resolution: Option<TimeElementModel>,
    pub evidence: Seq<EvidenceModel>,
}

impl DeepView for PhenotypicFeature {
    type V = PhenotypicFeatureModel;

    open spec fn deep_view(&self) -> PhenotypicFeatureModel {
        PhenotypicFeatureModel {
            description: self.description.deep_view(),
            feature_type: self.feature_type.deep_view(),
            excluded: self.excluded,
            severity: self.severity.deep_view(),
            modifiers: self.modifiers.deep_view(),
            onset: self.onset.deep_view(),
            resolution: self.resolution.deep_view(),
            evidence: self.evidence.deep_view(),
        }
    }
}

impl View for PhenotypicFeature {
    type V = PhenotypicFeatureModel;

    open spec fn view(&self) -> PhenotypicFeatureModel {
        self.deep_view()
    }
}

impl Default for PhenotypicFeature {
    fn default() -> (r: Self)
        ensures
            r@ == (PhenotypicFeatureModel {
                description: Seq::empty(),
                feature_type: None,
                excluded: false,
                severity: None,
                modifiers: Seq::empty(),
                onset: None,
                resolution: None,
                evidence: Seq::empty(),
            }),
    {
        let r = PhenotypicFeature {
            description: String::new(),
            feature_type: None,
            excluded: false,
            severity: None,
            modifiers: Vec::new(),
            onset: None,
            resolution: None,
            evidence: Vec::new(),
        };
        assert(r.modifiers.deep_view() =~= Seq::empty());
        assert(r.evidence.deep_view() =~= Seq::empty());
        r
    }
}

impl Clone for PhenotypicFeature {
    fn clone(&self) -> (r: Self)
        ensures
            r@ == self@,
    {
        let r = PhenotypicFeature {
            description: self.description.clone(),
            feature_type: self.feature_type.clone(),
            excluded: self.excluded,
            severity: self.severity.clone(),
            modifiers: self.modifiers.clone(),
            onset: self.onset.clone(),
            resolution: self.resolution.clone(),
            evidence: self.evidence.clone(),
        };
        assert(r.modifiers.deep_view() =~= self.modifiers.deep_view());
        assert(r.evidence.deep_view() =~= self.evidence.deep_view());
        r
    }
}

/// A phenopacket: one subject, its phenotypes, and how the packet came to be.
#[derive(Debug, PartialEq)]
pub struct Phenopacket {
    pub id: String,
    pub subject: Option<Individual>,
    pub phenotypic_features: Vec<PhenotypicFeature>,
    pub meta_data: Option<MetaData>,
}

/// The model of a [`Phenopacket`].
pub ghost struct PhenopacketModel {
    pub id: Seq<char>,
    pub subject: Option<IndividualModel>,
    pub phenotypic_features: Seq<PhenotypicFeatureModel>,
    pub meta_data: Option<MetaDataModel>,
}

impl DeepView for Phenopacket {
    type V = PhenopacketModel;

    open spec fn deep_view(&self) -> PhenopacketModel {
        PhenopacketModel {
            id: self.id.deep_view(),
            subject: self.subject.deep_view(),
            phenotypic_features: self.phenotypic_features.deep_view(),
            meta_data: self.meta_data.deep_view(),
        }
    }
}

impl View for Phenopacket {
    type V = PhenopacketModel;

    open spec fn view(&self) -> PhenopacketModel {
        self.deep_view()
    }
}

impl Default for Phenopacket {
    fn default() -> (r: Self)
        ensures
            r@ == (PhenopacketModel {
                id: Seq::empty(),
                subject: None,
                phenotypic_features: Seq::empty(),
                meta_data: None,
            }),
    {
        let r = Phenopacket {
            id: String::new(),
            subject: None,
            phenotypic_features: Vec::new(),
            meta_data: None,
        };
        assert(r.phenotypic_features.deep_view() =~= Seq::empty());
        r
    }
}

impl Clone for Phenopacket {
    fn clone(&self) -> (r: Self)
        ensures
            r@ == self@,
    {
        let r = Phenopacket {
            id: self.id.clone(),
            subject: self.subject.clone(),
            phenotypic_features: self.phenotypic_features.clone(),
            meta_data: self.meta_data.clone(),
        };
        assert(r.phenotypic_features.deep_view() =~= self.phenotypic_features.deep_view());
        r
    }
}

} // verus!
