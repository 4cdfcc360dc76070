//! Builders of a phenopacket's meta data: the resources it refers to, the
//! updates made to it, and the meta data record itself.

use crate::base::{or_empty, text_or_empty};
use crate::schema::{
    ExternalReference, ExternalReferenceModel, MetaData, MetaDataModel, Resource, ResourceModel,
    Timestamp, Update, UpdateModel,
};
use crate::{build_all_into, built_all, Build, Buildable, Filled, Slot, Unset};
use std::marker::PhantomData;
use vstd::prelude::*;

verus! {

/// What a [`MetaDataBuilder`] holds.
pub ghost struct MetaDataDraft {
    pub created: Option<Timestamp>,
    pub created_by: Option<Seq<char>>,
    pub submitted_by: Option<Seq<char>>,
    pub resources: Seq<ResourceModel>,
    pub updates: Seq<UpdateModel>,
    pub phenopacket_schema_version: Option<Seq<char>>,
    pub external_references: Seq<ExternalReferenceModel>,
}

impl MetaDataDraft {
    /// The draft of a builder on which no setter has run.
    pub open spec fn empty() -> MetaDataDraft {
        MetaDataDraft {
            created: None,
            created_by: None,
            submitted_by: None,
            resources: Seq::empty(),
            updates: Seq::empty(),
            phenopacket_schema_version: None,
            external_references: Seq::empty(),
        }
    }

    /// Whether every mandatory field has its value.
    pub open spec fn complete(self) -> bool {
        &&& self.created is Some
        &&& self.created_by is Some
        &&& self.phenopacket_schema_version is Some
    }

    /// The record that a complete draft finalizes to. A submitter that was
    /// never set is the empty text.
    pub open spec fn finish(self) -> MetaDataModel {
        MetaDataModel {
            created: self.created,
            created_by: self.created_by->0,
            submitted_by: or_empty(self.submitted_by),
            resources: self.resources,
            updates: self.updates,
            phenopacket_schema_version: self.phenopacket_schema_version->0,
            external_references: self.external_references,
        }
    }
}

/// Builder of a [`MetaData`]. The time of creation, the creator and the schema
/// version are mandatory, each with a marker of its own: `T`, `U` and `V`.
#[derive(Debug, PartialEq)]
pub struct MetaDataBuilder<T: Slot = Unset, U: Slot = Unset, V: Slot = Unset> {
    created: Option<Timestamp>,
    created_by: Option<String>,
    submitted_by: Option<String>,
    resources: Vec<Resource>,
    updates: Vec<Update>,
    phenopacket_schema_version: Option<String>,
    external_references: Vec<ExternalReference>,
    data: PhantomData<(T, U, V)>,
}

impl<T: Slot, U: Slot, V: Slot> View for MetaDataBuilder<T, U, V> {
    type V = MetaDataDraft;

    closed spec fn view(&self) -> MetaDataDraft {
        MetaDataDraft {
            created: self.created,
            created_by: self.created_by.deep_view(),
            submitted_by: self.submitted_by.deep_view(),
            resources: self.resources.deep_view(),
            updates: self.updates.deep_view(),
            phenopacket_schema_version: self.phenopacket_schema_version.deep_view(),
            external_references: self.external_references.deep_view(),
        }
    }
}

impl<U: Slot, V: Slot> MetaDataBuilder<Unset, U, V> {
    /// Sets the time of creation.
    pub fn created(self, created: impl Build<Timestamp>) -> (r: MetaDataBuilder<Filled, U, V>)
        ensures
            r@ == (MetaDataDraft { created: Some(created.built()), ..self@ }),
            r.wf(),
    {
        proof {
            use_type_invariant(&self);
        }
        MetaDataBuilder {
            created: Some(created.build()),
            created_by: self.created_by,
            submitted_by: self.submitted_by,
            resources: self.resources,
            updates: self.updates,
            phenopacket_schema_version: self.phenopacket_schema_version,
            external_references: self.external_references,
            data: PhantomData,
        }
    }
}

impl<T: Slot, V: Slot> MetaDataBuilder<T, Unset, V> {
    /// Sets the creator.
    pub fn created_by(self, created_by: impl Build<String>) -> (r: MetaDataBuilder<T, Filled, V>)
        ensures
            r@ == (MetaDataDraft { created_by: Some(created_by.built()), ..self@ }),
            r.wf(),
    {
        proof {
            use_type_invariant(&self);
        }
        MetaDataBuilder {
            created: self.created,
            created_by: Some(created_by.build()),
            submitted_by: self.submitted_by,
            resources: self.resources,
            updates: self.updates,
            phenopacket_schema_version: self.phenopacket_schema_version,
            external_references: self.external_references,
            data: PhantomData,
        }
    }
}

impl<T: Slot, U: Slot> MetaDataBuilder<T, U, Unset> {
    /// Sets the schema version.
    pub fn phenopacket_schema_version(self, version: impl Build<String>) -> (r: MetaDataBuilder<
        T,
        U,
        Filled,
    >)
        ensures
            r@ == (MetaDataDraft { phenopacket_schema_version: Some(version.built()), ..self@ }),
            r.wf(),
    {
        proof {
            use_type_invariant(&self);
        }
        MetaDataBuilder {
            created: self.created,
            created_by: self.created_by,
            submitted_by: self.submitted_by,
            resources: self.resources,
            updates: self.updates,
            phenopacket_schema_version: Some(version.build()),
            external_references: self.external_references,
            data: PhantomData,
        }
    }

    /// Sets the schema version to `2.0.0`.
    pub fn v2(self) -> (r: MetaDataBuilder<T, U, Filled>)
        ensures
            r@ == (MetaDataDraft { phenopacket_schema_version: Some("2.0.0"@), ..self@ }),
            r.wf(),
    {
        self.phenopacket_schema_version("2.0.0")
    }

    /// Sets the schema version to `2.0.2`.
    pub fn v2_0_2(self) -> (r: MetaDataBuilder<T, U, Filled>)
        ensures
            r@ == (MetaDataDraft { phenopacket_schema_version: Some("2.0.2"@), ..self@ }),
            r.wf(),
    {
        self.phenopacket_schema_version("2.0.2")
    }
}

impl<T: Slot, U: Slot, V: Slot> MetaDataBuilder<T, U, V> {
    /// Each marker reads "filled" exactly when its field is held.
    pub open spec fn wf(&self) -> bool {
        &&& T::filled() <==> self@.created is Some
        &&& U::filled() <==> self@.created_by is Some
        &&& V::filled() <==> self@.phenopacket_schema_version is Some
    }

    #[verifier::type_invariant]
    spec fn inv(self) -> bool {
        self.wf()
    }

    /// Sets the submitter. The value set last counts.
    pub fn submitted_by(self, submitted_by: impl Build<String>) -> (r: MetaDataBuilder<T, U, V>)
        ensures
            r@ == (MetaDataDraft { submitted_by: Some(submitted_by.built()), ..self@ }),
            r.wf(),
    {
        proof {
            use_type_invariant(&self);
        }
        let mut builder = self;
        builder.submitted_by = Some(submitted_by.build());
        builder
    }

    /// Appends one resource.
    pub fn add_resource(self, resource: impl Build<Resource>) -> (r: MetaDataBuilder<T, U, V>)
        ensures
            r@ == (MetaDataDraft { resources: self@.resources.push(resource.built()), ..self@ }),
            r.wf(),
    {
        proof {
            use_type_invariant(&self);
        }
        let ghost before = self.resources.deep_view();
        let mut builder = self;
        let mut resources = builder.resources;
        resources.push(resource.build());
        assert(resources.deep_view() == before.push(resource.built()));
        builder.resources = resources;
        builder
    }

    /// Appends the resources, in the order given.
    pub fn extend_resources<B: Build<Resource>>(
        self,
        resources: Vec<B>,
    ) -> (r: MetaDataBuilder<T, U, V>)
        ensures
            r@ == (MetaDataDraft {
                resources: self@.resources + built_all::<Resource, B>(resources@),
                ..self@
            }),
            r.wf(),
    {
        proof {
            use_type_invariant(&self);
        }
        let mut builder = self;
        let mut held = builder.resources;
        build_all_into(&mut held, resources);
        builder.resources = held;
        builder
    }

    /// Removes every resource.
    pub fn clear_resources(self) -> (r: MetaDataBuilder<T, U, V>)
        ensures
            r@ == (MetaDataDraft { resources: Seq::empty(), ..self@ }),
            r.wf(),
    {
        proof {
            use_type_invariant(&self);
        }
        let mut builder = self;
        let mut held = builder.resources;
        held.clear();
        assert(held.deep_view() == Seq::<ResourceModel>::empty());
        builder.resources = held;
        builder
    }

    /// Appends one update.
    pub fn add_update(self, update: impl Build<Update>) -> (r: MetaDataBuilder<T, U, V>)
        ensures
            r@ == (MetaDataDraft { updates: self@.updates.push(update.built()), ..self@ }),
            r.wf(),
    {
        proof {
            use_type_invariant(&self);
        }
        let ghost before = self.updates.deep_view();
        let mut builder = self;
        let mut updates = builder.updates;
        updates.push(update.build());
        assert(updates.deep_view() == before.push(update.built()));
        builder.updates = updates;
        builder
    }

    /// Appends the updates, in the order given.
    pub fn extend_updates<B: Build<Update>>(self, updates: Vec<B>) -> (r: MetaDataBuilder<T, U, V>)
        ensures
            r@ == (MetaDataDraft {
                updates: self@.updates + built_all::<Update, B>(updates@),
                ..self@
            }),
            r.wf(),
    {
        proof {
            use_type_invariant(&self);
        }
        let mut builder = self;
        let mut held = builder.updates;
        build_all_into(&mut held, updates);
        builder.updates = held;
        builder
    }

    /// Removes every update.
    pub fn clear_updates(self) -> (r: MetaDataBuilder<T, U, V>)
        ensures
            r@ == (MetaDataDraft { updates: Seq::empty(), ..self@ }),
            r.wf(),
    {
        proof {
            use_type_invariant(&self);
        }
        let mut builder = self;
        let mut held = builder.updates;
        held.clear();
        assert(held.deep_view() == Seq::<UpdateModel>::empty());
        builder.updates = held;
        builder
    }

    /// Appends one external reference.
    pub fn add_external_reference(
        self,
        external_reference: impl Build<ExternalReference>,
    ) -> (r: MetaDataBuilder<T, U, V>)
        ensures
            r@ == (MetaDataDraft {
                external_references: self@.external_references.push(external_reference.built()),
                ..self@
            }),
            r.wf(),
    {
        proof {
            use_type_invariant(&self);
        }
        let ghost before = self.external_references.deep_view();
        let mut builder = self;
        let mut external_references = builder.external_references;
        external_references.push(external_reference.build());
        assert(external_references.deep_view() == before.push(external_reference.built()));
        builder.external_references = external_references;
        builder
    }

    /// Appends the external references, in the order given.
    pub fn extend_external_references<B: Build<ExternalReference>>(
        self,
        external_references: Vec<B>,
    ) -> (r: MetaDataBuilder<T, U, V>)
        ensures
            r@ == (MetaDataDraft {
                external_references: self@.external_references
                    + built_all::<ExternalReference, B>(external_references@),
                ..self@
            }),
            r.wf(),
    {
        proof {
            use_type_invariant(&self);
        }
        let mut builder = self;
        let mut held = builder.external_references;
        build_all_into(&mut held, external_references);
        builder.external_references = held;
        builder
    }

    /// Removes every external reference.
    pub fn clear_external_references(self) -> (r: MetaDataBuilder<T, U, V>)
        ensures
            r@ == (MetaDataDraft { external_references: Seq::empty(), ..self@ }),
            r.wf(),
    {
        proof {
            use_type_invariant(&self);
        }
        let mut builder = self;
        let mut held = builder.external_references;
        held.clear();
        assert(held.deep_view() == Seq::<ExternalReferenceModel>::empty());
        builder.external_references = held;
        builder
    }
}

impl<T: Slot, U: Slot, V: Slot> Clone for MetaDataBuilder<T, U, V> {
    fn clone(&self) -> (r: Self)
        ensures
            r@ == self@,
            r.wf(),
    {
        proof {
            use_type_invariant(self);
        }
        let r = MetaDataBuilder {
            created: self.created,
            created_by: self.created_by.clone(),
            submitted_by: self.submitted_by.clone(),
            resources: self.resources.clone(),
            updates: self.updates.clone(),
            phenopacket_schema_version: self.phenopacket_schema_version.clone(),
            external_references: self.external_references.clone(),
            data: PhantomData,
        };
        assert(r.resources.deep_view() =~= self.resources.deep_view());
        assert(r.updates.deep_view() =~= self.updates.deep_view());
        assert(r.external_references.deep_view() =~= self.external_references.deep_view());
        r
    }
}

impl Default for MetaDataBuilder<Unset, Unset, Unset> {
    fn default() -> (r: Self)
        ensures
            r@ == MetaDataDraft::empty(),
            r.wf(),
    {
        let r = MetaDataBuilder {
            created: None,
            created_by: None,
            submitted_by: None,
            resources: Vec::new(),
            updates: Vec::new(),
            phenopacket_schema_version: None,
            external_references: Vec::new(),
            data: PhantomData,
        };
        assert(r.resources.deep_view() == Seq::<ResourceModel>::empty());
        assert(r.updates.deep_view() == Seq::<UpdateModel>::empty());
        assert(r.external_references.deep_view() == Seq::<ExternalReferenceModel>::empty());
        r
    }
}

impl Buildable for MetaData {
    type Builder = MetaDataBuilder;
}

impl Build<MetaData> for MetaDataBuilder<Filled, Filled, Filled> {
    open spec fn built(self) -> MetaDataModel {
        self@.finish()
    }

    fn build(self) -> (r: MetaData)
        ensures
            self@.complete() && r@ == self@.finish(),
    {
        proof {
            use_type_invariant(&self);
        }
        MetaData {
            created: self.created,
            created_by: self.created_by.unwrap(),
            submitted_by: text_or_empty(self.submitted_by),
            resources: self.resources,
            updates: self.updates,
            phenopacket_schema_version: self.phenopacket_schema_version.unwrap(),
            external_references: self.external_references,
        }
    }
}

/// A mandatory field of a resource.
pub ghost enum ResourceField {
    Id,
    Name,
    NamespacePrefix,
    Url,
    Version,
    IriPrefix,
}

/// What a [`ResourceBuilder`] holds.
pub ghost struct ResourceDraft {
    pub id: Option<Seq<char>>,
    pub name: Option<Seq<char>>,
    pub namespace_prefix: Option<Seq<char>>,
    pub url: Option<Seq<char>>,
    pub version: Option<Seq<char>>,
    pub iri_prefix: Option<Seq<char>>,
}

impl ResourceDraft {
    /// The draft of a builder on which no setter has run.
    pub open spec fn empty() -> ResourceDraft {
        ResourceDraft {
            id: None,
            name: None,
            namespace_prefix: None,
            url: None,
            version: None,
            iri_prefix: None,
        }
    }

    /// The draft that holds all six fields.
    pub open spec fn full(
        id: Seq<char>,
        name: Seq<char>,
        namespace_prefix: Seq<char>,
        url: Seq<char>,
        version: Seq<char>,
        iri_prefix: Seq<char>,
    ) -> ResourceDraft {
        ResourceDraft {
            id: Some(id),
            name: Some(name),
            namespace_prefix: Some(namespace_prefix),
            url: Some(url),
            version: Some(version),
            iri_prefix: Some(iri_prefix),
        }
    }

    /// Whether every mandatory field has its value.
    pub open spec fn complete(self) -> bool {
        &&& self.id is Some
        &&& self.name is Some
        &&& self.namespace_prefix is Some
        &&& self.url is Some
        &&& self.version is Some
        &&& self.iri_prefix is Some
    }

    /// The record that a complete draft finalizes to.
    pub open spec fn finish(self) -> ResourceModel {
        ResourceModel {
            id: self.id->0,
            name: self.name->0,
            url: self.url->0,
            version: self.version->0,
            namespace_prefix: self.namespace_prefix->0,
            iri_prefix: self.iri_prefix->0,
        }
    }

    /// What the draft holds in `field`.
    pub open spec fn get(self, field: ResourceField) -> Option<Seq<char>> {
        match field {
            ResourceField::Id => self.id,
            ResourceField::Name => self.name,
            ResourceField::NamespacePrefix => self.namespace_prefix,
            ResourceField::Url => self.url,
            ResourceField::Version => self.version,
            ResourceField::IriPrefix => self.iri_prefix,
        }
    }

    /// The draft after the setter of `field` has run with `text`.
    pub open spec fn set(self, field: ResourceField, text: Seq<char>) -> ResourceDraft {
        match field {
            ResourceField::Id => ResourceDraft { id: Some(text), ..self },
            ResourceField::Name => ResourceDraft { name: Some(text), ..self },
            ResourceField::NamespacePrefix => ResourceDraft {
                namespace_prefix: Some(text),
                ..self
            },
            ResourceField::Url => ResourceDraft { url: Some(text), ..self },
            ResourceField::Version => ResourceDraft { version: Some(text), ..self },
            ResourceField::IriPrefix => ResourceDraft { iri_prefix: Some(text), ..self },
        }
    }

    /// The draft after the setters of `steps` have run, first to last.
    pub open spec fn set_all(self, steps: Seq<(ResourceField, Seq<char>)>) -> ResourceDraft
        decreases steps.len(),
    {
        if steps.len() == 0 {
            self
        } else {
            self.set_all(steps.drop_last()).set(steps.last().0, steps.last().1)
        }
    }
}

/// Builder of a [`Resource`]. All six fields are mandatory, each with a marker
/// of its own: `T` for the identifier, `U` for the name, `V` for the namespace
/// prefix, `X` for the URL, `Y` for the version and `Z` for the IRI prefix.
#[derive(Debug, PartialEq)]
pub struct ResourceBuilder<
    T: Slot = Unset,
    U: Slot = Unset,
    V: Slot = Unset,
    X: Slot = Unset,
    Y: Slot = Unset,
    Z: Slot = Unset,
> {
    id: Option<String>,
    name: Option<String>,
    namespace_prefix: Option<String>,
    url: Option<String>,
    version: Option<String>,
    iri_prefix: Option<String>,
    data: PhantomData<(T, U, V, X, Y, Z)>,
}

impl<T: Slot, U: Slot, V: Slot, X: Slot, Y: Slot, Z: Slot> View for ResourceBuilder<
    T,
    U,
    V,
    X,
    Y,
    Z,
> {
    type V = ResourceDraft;

    closed spec fn view(&self) -> ResourceDraft {
        ResourceDraft {
            id: self.id.deep_view(),
            name: self.name.deep_view(),
            namespace_prefix: self.namespace_prefix.deep_view(),
            url: self.url.deep_view(),
            version: self.version.deep_view(),
            iri_prefix: self.iri_prefix.deep_view(),
        }
    }
}

impl<U: Slot, V: Slot, X: Slot, Y: Slot, Z: Slot> ResourceBuilder<Unset, U, V, X, Y, Z> {
    /// Sets the identifier.
    pub fn id(self, id: impl Build<String>) -> (r: ResourceBuilder<Filled, U, V, X, Y, Z>)
        ensures
            r@ == self@.set(ResourceField::Id, id.built()),
            r.wf(),
    {
        proof {
            use_type_invariant(&self);
        }
        ResourceBuilder {
            id: Some(id.build()),
            name: self.name,
            namespace_prefix: self.namespace_prefix,
            url: self.url,
            version: self.version,
            iri_prefix: self.iri_prefix,
            data: PhantomData,
        }
    }
}

impl<T: Slot, V: Slot, X: Slot, Y: Slot, Z: Slot> ResourceBuilder<T, Unset, V, X, Y, Z> {
    /// Sets the name.
    pub fn name(self, name: impl Build<String>) -> (r: ResourceBuilder<T, Filled, V, X, Y, Z>)
        ensures
            r@ == self@.set(ResourceField::Name, name.built()),
            r.wf(),
    {
        proof {
            use_type_invariant(&self);
        }
        ResourceBuilder {
            id: self.id,
            name: Some(name.build()),
            namespace_prefix: self.namespace_prefix,
            url: self.url,
            version: self.version,
            iri_prefix: self.iri_prefix,
            data: PhantomData,
        }
    }
}

impl<T: Slot, U: Slot, X: Slot, Y: Slot, Z: Slot> ResourceBuilder<T, U, Unset, X, Y, Z> {
    /// Sets the namespace prefix.
    pub fn namespace_prefix(
        self,
        namespace_prefix: impl Build<String>,
    ) -> (r: ResourceBuilder<T, U, Filled, X, Y, Z>)
        ensures
            r@ == self@.set(ResourceField::NamespacePrefix, namespace_prefix.built()),
            r.wf(),
    {
        proof {
            use_type_invariant(&self);
        }
        ResourceBuilder {
            id: self.id,
            name: self.name,
            namespace_prefix: Some(namespace_prefix.build()),
            url: self.url,
            version: self.version,
            iri_prefix: self.iri_prefix,
            data: PhantomData,
        }
    }
}

impl<T: Slot, U: Slot, V: Slot, Y: Slot, Z: Slot> ResourceBuilder<T, U, V, Unset, Y, Z> {
    /// Sets the URL.
    pub fn url(self, url: impl Build<String>) -> (r: ResourceBuilder<T, U, V, Filled, Y, Z>)
        ensures
            r@ == self@.set(ResourceField::Url, url.built()),
            r.wf(),
    {
        proof {
            use_type_invariant(&self);
        }
        ResourceBuilder {
            id: self.id,
            name: self.name,
            namespace_prefix: self.namespace_prefix,
            url: Some(url.build()),
            version: self.version,
            iri_prefix: self.iri_prefix,
            data: PhantomData,
        }
    }
}

impl<T: Slot, U: Slot, V: Slot, X: Slot, Z: Slot> ResourceBuilder<T, U, V, X, Unset, Z> {
    /// Sets the version.
    pub fn version(self, version: impl Build<String>) -> (r: ResourceBuilder<T, U, V, X, Filled, Z>)
        ensures
            r@ == self@.set(ResourceField::Version, version.built()),
            r.wf(),
    {
        proof {
            use_type_invariant(&self);
        }
        ResourceBuilder {
            id: self.id,
            name: self.name,
            namespace_prefix: self.namespace_prefix,
            url: self.url,
            version: Some(version.build()),
            iri_prefix: self.iri_prefix,
            data: PhantomData,
        }
    }
}

impl<T: Slot, U: Slot, V: Slot, X: Slot, Y: Slot> ResourceBuilder<T, U, V, X, Y, Unset> {
    /// Sets the IRI prefix.
    pub fn iri_prefix(
        self,
        iri_prefix: impl Build<String>,
    ) -> (r: ResourceBuilder<T, U, V, X, Y, Filled>)
        ensures
            r@ == self@.set(ResourceField::IriPrefix, iri_prefix.built()),
            r.wf(),
    {
        proof {
            use_type_invariant(&self);
        }
        ResourceBuilder {
            id: self.id,
            name: self.name,
            namespace_prefix: self.namespace_prefix,
            url: self.url,
            version: self.version,
            iri_prefix: Some(iri_prefix.build()),
            data: PhantomData,
        }
    }
}

/// A builder that holds all six fields.
fn full_resource(
    id: &str,
    name: &str,
    namespace_prefix: &str,
    url: &str,
    version: String,
    iri_prefix: &str,
) -> (r: ResourceBuilder<Filled, Filled, Filled, Filled, Filled, Filled>)
    ensures
        r@ == ResourceDraft::full(id@, name@, namespace_prefix@, url@, version@, iri_prefix@),
        r.wf(),
{
    ResourceBuilder {
        id: Some(id.to_owned()),
        name: Some(name.to_owned()),
        namespace_prefix: Some(namespace_prefix.to_owned()),
        url: Some(url.to_owned()),
        version: Some(version),
        iri_prefix: Some(iri_prefix.to_owned()),
        data: PhantomData,
    }
}

impl<T: Slot, U: Slot, V: Slot, X: Slot, Y: Slot, Z: Slot> ResourceBuilder<T, U, V, X, Y, Z> {
    /// Each marker reads "filled" exactly when its field is held.
    pub open spec fn wf(&self) -> bool {
        &&& T::filled() <==> self@.id is Some
        &&& U::filled() <==> self@.name is Some
        &&& V::filled() <==> self@.namespace_prefix is Some
        &&& X::filled() <==> self@.url is Some
        &&& Y::filled() <==> self@.version is Some
        &&& Z::filled() <==> self@.iri_prefix is Some
    }

    #[verifier::type_invariant]
    spec fn inv(self) -> bool {
        self.wf()
    }

    /// Fills every field for the Human Phenotype Ontology, in the given
    /// version. What was held before is dropped.
    pub fn hpo(self, version: impl Build<String>) -> (r: ResourceBuilder<
        Filled,
        Filled,
        Filled,
        Filled,
        Filled,
        Filled,
    >)
        ensures
            r@ == ResourceDraft::full(
                "hp"@,
                "human phenotype ontology"@,
                "HP"@,
                "https://purl.obolibrary.org/obo/hp.owl"@,
                version.built(),
                "https://purl.obolibrary.org/obo/HP_"@,
            ),
            r.wf(),
    {
        full_resource(
            "hp",
            "human phenotype ontology",
            "HP",
            "https://purl.obolibrary.org/obo/hp.owl",
            version.build(),
            "https://purl.obolibrary.org/obo/HP_",
        )
    }

    /// Fills every field for the Genotype Ontology, in the given version. What
    /// was held before is dropped.
    pub fn geno(self, version: impl Build<String>) -> (r: ResourceBuilder<
        Filled,
        Filled,
        Filled,
        Filled,
        Filled,
        Filled,
    >)
        ensures
            r@ == ResourceDraft::full(
                "geno"@,
                "genotype ontology"@,
                "GENO"@,
                "https://purl.obolibrary.org/obo/geno.owl"@,
                version.built(),
                "https://purl.obolibrary.org/obo/GENO_"@,
            ),
            r.wf(),
    {
        full_resource(
            "geno",
            "genotype ontology",
            "GENO",
            "https://purl.obolibrary.org/obo/geno.owl",
            version.build(),
            "https://purl.obolibrary.org/obo/GENO_",
        )
    }

    /// Fills every field for the NCI Thesaurus, in the given version. What was
    /// held before is dropped.
    pub fn ncit(self, version: impl Build<String>) -> (r: ResourceBuilder<
        Filled,
        Filled,
        Filled,
        Filled,
        Filled,
        Filled,
    >)
        ensures
            r@ == ResourceDraft::full(
                "ncit"@,
                "NCI Thesaurus"@,
                "NCIT"@,
                "https://purl.obolibrary.org/obo/ncit.owl"@,
                version.built(),
                "https://purl.obolibrary.org/obo/NCIT_"@,
            ),
            r.wf(),
    {
        full_resource(
            "ncit",
            "NCI Thesaurus",
            "NCIT",
            "https://purl.obolibrary.org/obo/ncit.owl",
            version.build(),
            "https://purl.obolibrary.org/obo/NCIT_",
        )
    }

    /// Fills every field for the Mondo Disease Ontology, in the given version.
    /// What was held before is dropped.
    pub fn mondo(self, version: impl Build<String>) -> (r: ResourceBuilder<
        Filled,
        Filled,
        Filled,
        Filled,
        Filled,
        Filled,
    >)
        ensures
            r@ == ResourceDraft::full(
                "mondo"@,
                "Mondo Disease Ontology"@,
                "MONDO"@,
                "https://purl.obolibrary.org/obo/mondo.obo"@,
                version.built(),
                "https://purl.obolibrary.org/obo/MONDO_"@,
            ),
            r.wf(),
    {
        full_resource(
            "mondo",
            "Mondo Disease Ontology",
            "MONDO",
            "https://purl.obolibrary.org/obo/mondo.obo",
            version.build(),
            "https://purl.obolibrary.org/obo/MONDO_",
        )
    }

    /// Fills every field for the Uber-anatomy ontology, in the given version.
    /// What was held before is dropped.
    pub fn uberon(self, version: impl Build<String>) -> (r: ResourceBuilder<
        Filled,
        Filled,
        Filled,
        Filled,
        Filled,
        Filled,
    >)
        ensures
            r@ == ResourceDraft::full(
                "uberon"@,
                "Uber-anatomy ontology"@,
                "UBERON"@,
                "https://purl.obolibrary.org/obo/uberon.owl"@,
                version.built(),
                "https://purl.obolibrary.org/obo/UBERON_"@,
            ),
            r.wf(),
    {
        full_resource(
            "uberon",
            "Uber-anatomy ontology",
            "UBERON",
            "https://purl.obolibrary.org/obo/uberon.owl",
            version.build(),
            "https://purl.obolibrary.org/obo/UBERON_",
        )
    }

    /// Fills every field for the NCBI organismal classification, in the given
    /// version. What was held before is dropped.
    pub fn ncbi_taxon(self, version: impl Build<String>) -> (r: ResourceBuilder<
        Filled,
        Filled,
        Filled,
        Filled,
        Filled,
        Filled,
    >)
        ensures
            r@ == ResourceDraft::full(
                "ncbitaxon"@,
                "NCBI organismal classification"@,
                "NCBITaxon"@,
                "https://purl.obolibrary.org/obo/ncbitaxon.owl"@,
                version.built(),
                "https://purl.obolibrary.org/obo/NCBITaxon_"@,
            ),
            r.wf(),
    {
        full_resource(
            "ncbitaxon",
            "NCBI organismal classification",
            "NCBITaxon",
            "https://purl.obolibrary.org/obo/ncbitaxon.owl",
            version.build(),
            "https://purl.obolibrary.org/obo/NCBITaxon_",
        )
    }

    /// Fills every field for the Sequence types and features ontology, in the
    /// given version. What was held before is dropped.
    pub fn so(self, version: impl Build<String>) -> (r: ResourceBuilder<
        Filled,
        Filled,
        Filled,
        Filled,
        Filled,
        Filled,
    >)
        ensures
            r@ == ResourceDraft::full(
                "so"@,
                "Sequence types and features ontology"@,
                "SO"@,
                "https://purl.obolibrary.org/obo/so.owl"@,
                version.built(),
                "https://purl.obolibrary.org/obo/SO_"@,
            ),
            r.wf(),
    {
        full_resource(
            "so",
            "Sequence types and features ontology",
            "SO",
            "https://purl.obolibrary.org/obo/so.owl",
            version.build(),
            "https://purl.obolibrary.org/obo/SO_",
        )
    }

    /// Fills every field for the Unified Code for Units of Measure, in the
    /// given version. What was held before is dropped.
    pub fn ucum(self, version: impl Build<String>) -> (r: ResourceBuilder<
        Filled,
        Filled,
        Filled,
        Filled,
        Filled,
        Filled,
    >)
        ensures
            r@ == ResourceDraft::full(
                "ucum"@,
                "Unified Code for Units of Measure"@,
                "UCUM"@,
                "https://ucum.org"@,
                version.built(),
                "https://units-of-measurement.org/"@,
            ),
            r.wf(),
    {
        full_resource(
            "ucum",
            "Unified Code for Units of Measure",
            "UCUM",
            "https://ucum.org",
            version.build(),
            "https://units-of-measurement.org/",
        )
    }

    /// Fills every field for the Units of measurement ontology, in the given
    /// version. What was held before is dropped.
    pub fn uo(self, version: impl Build<String>) -> (r: ResourceBuilder<
        Filled,
        Filled,
        Filled,
        Filled,
        Filled,
        Filled,
    >)
        ensures
            r@ == ResourceDraft::full(
                "uo"@,
                "Units of measurement ontology"@,
                "UO"@,
                "https://purl.obolibrary.org/obo/uo.owl"@,
                version.built(),
                "https://purl.obolibrary.org/obo/UO_"@,
            ),
            r.wf(),
    {
        full_resource(
            "uo",
            "Units of measurement ontology",
            "UO",
            "https://purl.obolibrary.org/obo/uo.owl",
            version.build(),
            "https://purl.obolibrary.org/obo/UO_",
        )
    }

    /// Fills every field for Logical Observation Identifiers Names and Codes,
    /// in the given version. What was held before is dropped.
    pub fn loinc(self, version: impl Build<String>) -> (r: ResourceBuilder<
        Filled,
        Filled,
        Filled,
        Filled,
        Filled,
        Filled,
    >)
        ensures
            r@ == ResourceDraft::full(
                "loinc"@,
                "Logical Observation Identifiers Names and Codes"@,
                "LOINC"@,
                "https://loinc.org"@,
                version.built(),
                "https://loinc.org/"@,
            ),
            r.wf(),
    {
        full_resource(
            "loinc",
            "Logical Observation Identifiers Names and Codes",
            "LOINC",
            "https://loinc.org",
            version.build(),
            "https://loinc.org/",
        )
    }

    /// Fills every field for the Online Catalog of Human Genes and Genetic
    /// Disorders, in the given version. What was held before is dropped.
    pub fn omim(self, version: impl Build<String>) -> (r: ResourceBuilder<
        Filled,
        Filled,
        Filled,
        Filled,
        Filled,
        Filled,
    >)
        ensures
            r@ == ResourceDraft::full(
                "omim"@,
                "An Online Catalog of Human Genes and Genetic Disorders"@,
                "OMIM"@,
                "https://www.omim.org"@,
                version.built(),
                "https://www.omim.org/entry/"@,
            ),
            r.wf(),
    {
        full_resource(
            "omim",
            "An Online Catalog of Human Genes and Genetic Disorders",
            "OMIM",
            "https://www.omim.org",
            version.build(),
            "https://www.omim.org/entry/",
        )
    }

    /// Fills every field for the HUGO Gene Nomenclature Committee, in the given
    /// version. What was held before is dropped.
    pub fn hgnc(self, version: impl Build<String>) -> (r: ResourceBuilder<
        Filled,
        Filled,
        Filled,
        Filled,
        Filled,
        Filled,
    >)
        ensures
            r@ == ResourceDraft::full(
                "hgnc"@,
                "HUGO Gene Nomenclature Committee"@,
                "HGNC"@,
                "https://www.genenames.org"@,
                version.built(),
                "https://www.genenames.org/data/gene-symbol-report/#!/hgnc_id/"@,
            ),
            r.wf(),
    {
        full_resource(
            "hgnc",
            "HUGO Gene Nomenclature Committee",
            "HGNC",
            "https://www.genenames.org",
            version.build(),
            "https://www.genenames.org/data/gene-symbol-report/#!/hgnc_id/",
        )
    }

    /// Fills every field for PubMed, which has no version: the version is the
    /// empty text. What was held before is dropped.
    pub fn pmid(self) -> (r: ResourceBuilder<Filled, Filled, Filled, Filled, Filled, Filled>)
        ensures
            r@ == ResourceDraft::full(
                "pmid"@,
                "PubMed"@,
                "PMID"@,
                "https://pubmed.ncbi.nlm.nih.gov"@,
                Seq::empty(),
                "https://pubmed.ncbi.nlm.nih.gov/"@,
            ),
            r.wf(),
    {
        full_resource(
            "pmid",
            "PubMed",
            "PMID",
            "https://pubmed.ncbi.nlm.nih.gov",
            String::new(),
            "https://pubmed.ncbi.nlm.nih.gov/",
        )
    }
}

impl<T: Slot, U: Slot, V: Slot, X: Slot, Y: Slot, Z: Slot> Clone for ResourceBuilder<
    T,
    U,
    V,
    X,
    Y,
    Z,
> {
    fn clone(&self) -> (r: Self)
        ensures
            r@ == self@,
            r.wf(),
    {
        proof {
            use_type_invariant(self);
        }
        ResourceBuilder {
            id: self.id.clone(),
            name: self.name.clone(),
            namespace_prefix: self.namespace_prefix.clone(),
            url: self.url.clone(),
            version: self.version.clone(),
            iri_prefix: self.iri_prefix.clone(),
            data: PhantomData,
        }
    }
}

impl Default for ResourceBuilder<Unset, Unset, Unset, Unset, Unset, Unset> {
    fn default() -> (r: Self)
        ensures
            r@ == ResourceDraft::empty(),
            r.wf(),
    {
        ResourceBuilder {
            id: None,
            name: None,
            namespace_prefix: None,
            url: None,
            version: None,
            iri_prefix: None,
            data: PhantomData,
        }
    }
}

impl Buildable for Resource {
    type Builder = ResourceBuilder;
}

impl Build<Resource> for ResourceBuilder<Filled, Filled, Filled, Filled, Filled, Filled> {
    open spec fn built(self) -> ResourceModel {
        self@.finish()
    }

    fn build(self) -> (r: Resource)
        ensures
            self@.complete() && r@ == self@.finish(),
    {
        proof {
            use_type_invariant(&self);
        }
        Resource {
            id: self.id.unwrap(),
            name: self.name.unwrap(),
            url: self.url.unwrap(),
            version: self.version.unwrap(),
            namespace_prefix: self.namespace_prefix.unwrap(),
            iri_prefix: self.iri_prefix.unwrap(),
        }
    }
}

/// What an [`UpdateBuilder`] holds.
pub ghost struct UpdateDraft {
    pub timestamp: Option<Timestamp>,
    pub updated_by: Option<Seq<char>>,
    pub comment: Option<Seq<char>>,
}

impl UpdateDraft {
    /// The draft of a builder on which no setter has run.
    pub open spec fn empty() -> UpdateDraft {
        UpdateDraft { timestamp: None, updated_by: None, comment: None }
    }

    /// Whether every mandatory field has its value.
    pub open spec fn complete(self) -> bool {
        self.timestamp is Some
    }

    /// The record that a complete draft finalizes to. An author or a comment
    /// that was never set is the empty text.
    pub open spec fn finish(self) -> UpdateModel {
        UpdateModel {
            timestamp: self.timestamp,
            updated_by: or_empty(self.updated_by),
            comment: or_empty(self.comment),
        }
    }
}

/// Builder of an [`Update`]. The timestamp is mandatory.
#[derive(Debug, PartialEq)]
pub struct UpdateBuilder<T: Slot = Unset> {
    timestamp: Option<Timestamp>,
    updated_by: Option<String>,
    comment: Option<String>,
    data: PhantomData<T>,
}

impl<T: Slot> View for UpdateBuilder<T> {
    type V = UpdateDraft;

    closed spec fn view(&self) -> UpdateDraft {
        UpdateDraft {
            timestamp: self.timestamp,
            updated_by: self.updated_by.deep_view(),
            comment: self.comment.deep_view(),
        }
    }
}

impl UpdateBuilder<Unset> {
    /// Sets the timestamp.
    pub fn timestamp(self, timestamp: impl Build<Timestamp>) -> (r: UpdateBuilder<Filled>)
        ensures
            r@ == (UpdateDraft { timestamp: Some(timestamp.built()), ..self@ }),
            r.wf(),
    {
        UpdateBuilder {
            timestamp: Some(timestamp.build()),
            updated_by: self.updated_by,
            comment: self.comment,
            data: PhantomData,
        }
    }
}

impl<T: Slot> UpdateBuilder<T> {
    /// The marker reads "filled" exactly when the timestamp is held.
    pub open spec fn wf(&self) -> bool {
        T::filled() <==> self@.timestamp is Some
    }

    #[verifier::type_invariant]
    spec fn inv(self) -> bool {
        self.wf()
    }

    /// Sets the author of the update. The value set last counts.
    pub fn updated_by(self, updated_by: impl Build<String>) -> (r: UpdateBuilder<T>)
        ensures
            r@ == (UpdateDraft { updated_by: Some(updated_by.built()), ..self@ }),
            r.wf(),
    {
        proof {
            use_type_invariant(&self);
        }
        UpdateBuilder {
            timestamp: self.timestamp,
            updated_by: Some(updated_by.build()),
            comment: self.comment,
            data: PhantomData,
        }
    }

    /// Sets the comment. The value set last counts.
    pub fn comment(self, comment: impl Build<String>) -> (r: UpdateBuilder<T>)
        ensures
            r@ == (UpdateDraft { comment: Some(comment.built()), ..self@ }),
            r.wf(),
    {
        proof {
            use_type_invariant(&self);
        }
        UpdateBuilder {
            timestamp: self.timestamp,
            updated_by: self.updated_by,
            comment: Some(comment.build()),
            data: PhantomData,
        }
    }
}

impl<T: Slot> Clone for UpdateBuilder<T> {
    fn clone(&self) -> (r: Self)
        ensures
            r@ == self@,
            r.wf(),
    {
        proof {
            use_type_invariant(self);
        }
        UpdateBuilder {
            timestamp: self.timestamp,
            updated_by: self.updated_by.clone(),
            comment: self.comment.clone(),
            data: PhantomData,
        }
    }
}

impl Default for UpdateBuilder<Unset> {
    fn default() -> (r: Self)
        ensures
            r@ == UpdateDraft::empty(),
            r.wf(),
    {
        UpdateBuilder { timestamp: None, updated_by: None, comment: None, data: PhantomData }
    }
}

impl Buildable for Update {
    type Builder = UpdateBuilder;
}

impl Build<Update> for UpdateBuilder<Filled> {
    open spec fn built(self) -> UpdateModel {
        self@.finish()
    }

    fn build(self) -> (r: Update)
        ensures
            self@.complete() && r@ == self@.finish(),
    {
        proof {
            use_type_invariant(&self);
        }
        Update {
            timestamp: self.timestamp,
            updated_by: text_or_empty(self.updated_by),
            comment: text_or_empty(self.comment),
        }
    }
}

} // verus!
