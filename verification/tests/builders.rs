use phenopacket_builder::schema::{
    Age, Element, Evidence, ExternalReference, GestationalAge, Individual, KaryotypicSex, MetaData,
    OntologyClass, Phenopacket, PhenotypicFeature, Resource, Sex, Status, TimeElement, Timestamp,
    Update, VitalStatus,
};
use phenopacket_builder::timestamp::{TimestampBuilder, TimestampParseError};
use phenopacket_builder::{build_all_into, oc, Build, Buildable};

fn takes_build_val(val: impl Build<u8>) -> u8 {
    val.build()
}

fn seizure() -> OntologyClass {
    OntologyClass {
        id: "HP:0001250".to_string(),
        label: "Seizure".to_string(),
    }
}

fn at(seconds: i64, nanos: i32) -> Timestamp {
    Timestamp { seconds, nanos }
}

fn resource(id: &str, name: &str, prefix: &str, url: &str, version: &str, iri: &str) -> Resource {
    Resource {
        id: id.to_string(),
        name: name.to_string(),
        url: url.to_string(),
        version: version.to_string(),
        namespace_prefix: prefix.to_string(),
        iri_prefix: iri.to_string(),
    }
}

#[test]
fn a_value_builds_into_itself() {
    assert_eq!(takes_build_val(123), 123);
    assert_eq!(seizure().build(), seizure());
}

#[test]
fn text_builds_into_a_string() {
    let from_str: String = "P1Y".build();
    let from_string: String = "P1Y".to_string().build();
    assert_eq!(from_str, "P1Y");
    assert_eq!(from_string, "P1Y");
}

#[test]
fn oc_is_a_shortcut_for_an_ontology_class() {
    let seizure = oc("HP:0001250", "Seizure");
    assert_eq!(&seizure.id, "HP:0001250");
    assert_eq!(&seizure.label, "Seizure");
    assert_eq!(oc("HP:0001250".to_string(), "Seizure"), seizure);
}

#[test]
fn build_all_into_appends_in_order() {
    let mut target = vec!["a".to_string()];
    build_all_into(&mut target, vec!["b", "c"]);
    assert_eq!(target, vec!["a", "b", "c"]);
    build_all_into(&mut target, Vec::<String>::new());
    assert_eq!(target, vec!["a", "b", "c"]);
}

#[test]
fn timestamp_from_seconds_and_nanos() {
    let ts: Timestamp = Timestamp::builder().seconds_nanos(125, 11).build();
    assert_eq!(ts.seconds, 125);
    assert_eq!(ts.nanos, 11);
    let text = prost_types::Timestamp {
        seconds: ts.seconds,
        nanos: ts.nanos,
    }
    .to_string();
    assert_eq!(&text, "1970-01-01T00:02:05.000000011Z");
}

#[test]
fn timestamp_from_a_date() {
    let ts: Timestamp = Timestamp::builder()
        .iso8601timestamp("2021-11-03")
        .expect("well formatted timestamp")
        .build();
    assert_eq!(ts, at(1_635_897_600, 0));
}

#[test]
fn timestamp_from_a_date_and_time() {
    let ts: Timestamp = Timestamp::builder()
        .iso8601timestamp("1970-01-01T00:10:05Z")
        .expect("well formatted timestamp")
        .build();
    assert_eq!(ts.seconds, 605);
    assert_eq!(ts.nanos, 0);
}

#[test]
fn timestamp_with_a_fraction_and_an_offset() {
    let ts: Timestamp = Timestamp::builder()
        .iso8601timestamp("2019-07-21T00:25:54.662Z")
        .unwrap()
        .build();
    assert_eq!(ts, at(1_563_668_754, 662_000_000));
    let shifted: Timestamp = Timestamp::builder()
        .iso8601timestamp("1970-01-01T01:00:00+01:00")
        .unwrap()
        .build();
    assert_eq!(shifted, at(0, 0));
}

#[test]
fn malformed_timestamp_is_refused_and_the_builder_comes_back() {
    let refused = Timestamp::builder()
        .iso8601timestamp("the third of November")
        .expect_err("no timestamp");
    assert_eq!(refused.error, TimestampParseError::ParseFailure);
    assert_eq!(refused.builder, TimestampBuilder::default());

    let ts = refused
        .builder
        .iso8601timestamp("2021-11-03")
        .expect("a corrected text is taken")
        .build();
    assert_eq!(ts, at(1_635_897_600, 0));
}

#[test]
fn more_malformed_timestamps() {
    let texts = [
        "",
        "2021-13-01",
        "2021-02-30",
        "2021-11-03T25:00:00Z",
        "2021-11-03 junk",
        "２０２１-11-03",
    ];
    for text in texts {
        let refused = Timestamp::builder().iso8601timestamp(text);
        assert!(refused.is_err());
    }
}

#[test]
fn accept_takes_a_parsed_timestamp_and_refuses_none() {
    let taken = Timestamp::builder().accept(Some(at(7, 9))).unwrap().build();
    assert_eq!(taken, at(7, 9));
    let refused = Timestamp::builder().accept(None).unwrap_err();
    assert_eq!(refused.error, TimestampParseError::ParseFailure);
    assert_eq!(refused.builder, TimestampBuilder::default());
}

#[test]
fn age_holds_the_duration_as_given() {
    let age: Age = Age::builder().iso8601duration("P1Y2M4D").build();
    assert_eq!(
        age,
        Age {
            iso8601duration: "P1Y2M4D".to_string(),
        }
    );
    let unchecked: Age = Age::builder().iso8601duration("not a duration").build();
    assert_eq!(&unchecked.iso8601duration, "not a duration");
}

#[test]
fn gestational_age_days_default_to_zero() {
    let ga: GestationalAge = GestationalAge::builder().weeks(25).build();
    assert_eq!(ga, GestationalAge { weeks: 25, days: 0 });
}

#[test]
fn gestational_age_in_either_order() {
    let weeks_first: GestationalAge = GestationalAge::builder().weeks(25).days(5).build();
    let days_first: GestationalAge = GestationalAge::builder().days(5).weeks(25).build();
    assert_eq!(weeks_first, GestationalAge { weeks: 25, days: 5 });
    assert_eq!(days_first, weeks_first);
    let last_days: GestationalAge = GestationalAge::builder().days(1).weeks(25).days(6).build();
    assert_eq!(last_days, GestationalAge { weeks: 25, days: 6 });
}

#[test]
fn time_element_gestational_age() {
    let te: TimeElement = TimeElement::builder()
        .gestational_age(GestationalAge::builder().weeks(25).days(5))
        .build();
    assert_eq!(
        te.element,
        Some(Element::GestationalAge(GestationalAge { weeks: 25, days: 5 }))
    );
    let weeks: TimeElement = TimeElement::builder().gestational_age_weeks(12).build();
    assert_eq!(
        weeks.element,
        Some(Element::GestationalAge(GestationalAge { weeks: 12, days: 0 }))
    );
    let both: TimeElement = TimeElement::builder()
        .gestational_age_weeks_days(12, 3)
        .build();
    assert_eq!(
        both.element,
        Some(Element::GestationalAge(GestationalAge { weeks: 12, days: 3 }))
    );
}

#[test]
fn time_element_age() {
    let expected = Some(Element::Age(Age {
        iso8601duration: "P1Y2D".to_string(),
    }));
    let from_builder: TimeElement = TimeElement::builder()
        .age(Age::builder().iso8601duration("P1Y2D"))
        .build();
    assert_eq!(from_builder.element, expected);
    let from_text: TimeElement = TimeElement::builder().age_iso8601duration("P1Y2D").build();
    assert_eq!(from_text.element, expected);
}

#[test]
fn time_element_ontology_class_and_timestamp() {
    let coded: TimeElement = TimeElement::builder().ontology_class(seizure()).build();
    assert_eq!(coded.element, Some(Element::OntologyClass(seizure())));
    let timed: TimeElement = TimeElement::builder()
        .timestamp(Timestamp::builder().seconds_nanos(605, 0))
        .build();
    assert_eq!(timed.element, Some(Element::Timestamp(at(605, 0))));
}

#[test]
fn the_alternative_selected_last_stays() {
    let te: TimeElement = TimeElement::builder()
        .age_iso8601duration("P1Y2D")
        .gestational_age_weeks_days(25, 5)
        .build();
    assert_eq!(
        te.element,
        Some(Element::GestationalAge(GestationalAge { weeks: 25, days: 5 }))
    );
    let back: TimeElement = TimeElement::builder()
        .gestational_age_weeks(25)
        .timestamp(at(1, 2))
        .ontology_class(seizure())
        .age_iso8601duration("P3Y")
        .build();
    assert_eq!(
        back.element,
        Some(Element::Age(Age {
            iso8601duration: "P3Y".to_string()
        }))
    );
}

#[test]
fn external_reference_defaults_to_empty_texts() {
    let bare: ExternalReference = ExternalReference::builder().build();
    assert_eq!(bare, ExternalReference::default());
    assert_eq!(&bare.id, "");
    assert_eq!(&bare.reference, "");
    assert_eq!(&bare.description, "");
}

#[test]
fn external_reference_holds_what_was_set() {
    let full: ExternalReference = ExternalReference::builder()
        .description("A case report")
        .id("PMID:30808312")
        .reference("https://pubmed.ncbi.nlm.nih.gov/30808312")
        .id("PMID:1")
        .build();
    assert_eq!(
        full,
        ExternalReference {
            id: "PMID:1".to_string(),
            reference: "https://pubmed.ncbi.nlm.nih.gov/30808312".to_string(),
            description: "A case report".to_string(),
        }
    );
}

#[test]
fn vital_status_survival_time_defaults_to_zero() {
    let alive: VitalStatus = VitalStatus::builder().alive().build();
    assert_eq!(
        alive,
        VitalStatus {
            status: 1,
            time_of_death: None,
            cause_of_death: None,
            survival_time_in_days: 0,
        }
    );
}

#[test]
fn vital_status_holds_what_was_set() {
    let vs: VitalStatus = VitalStatus::builder()
        .survival_time_in_days(42u32)
        .cause_of_death(oc("MONDO:0005148", "type 2 diabetes mellitus"))
        .time_of_death(TimeElement::builder().age_iso8601duration("P70Y"))
        .deceased()
        .build();
    assert_eq!(
        vs,
        VitalStatus {
            status: 2,
            time_of_death: Some(TimeElement {
                element: Some(Element::Age(Age {
                    iso8601duration: "P70Y".to_string()
                }))
            }),
            cause_of_death: Some(OntologyClass {
                id: "MONDO:0005148".to_string(),
                label: "type 2 diabetes mellitus".to_string(),
            }),
            survival_time_in_days: 42,
        }
    );
}

#[test]
fn vital_status_time_of_death_shortcuts() {
    let at_age: VitalStatus = VitalStatus::builder()
        .deceased()
        .time_of_death_at_age(Age::builder().iso8601duration("P70Y"))
        .build();
    assert_eq!(
        at_age.time_of_death,
        Some(TimeElement {
            element: Some(Element::Age(Age {
                iso8601duration: "P70Y".to_string()
            }))
        })
    );
    let before_birth: VitalStatus = VitalStatus::builder()
        .time_of_death_at_gestational_age(GestationalAge { weeks: 30, days: 2 })
        .status(Status::Deceased)
        .build();
    assert_eq!(
        before_birth.time_of_death,
        Some(TimeElement {
            element: Some(Element::GestationalAge(GestationalAge { weeks: 30, days: 2 }))
        })
    );
    assert_eq!(before_birth.status, 2);
}

#[test]
fn the_status_set_last_stays() {
    let vs: VitalStatus = VitalStatus::builder()
        .alive()
        .survival_time_in_days(3u32)
        .deceased()
        .status(Status::UnknownStatus)
        .build();
    assert_eq!(vs.status, 0);
    assert_eq!(vs.survival_time_in_days, 3);
}

#[test]
fn enumerations_are_stored_as_their_codes() {
    assert_eq!(i32::from(Status::UnknownStatus), 0);
    assert_eq!(i32::from(Status::Alive), 1);
    assert_eq!(i32::from(Status::Deceased), 2);
    assert_eq!(i32::from(Sex::UnknownSex), 0);
    assert_eq!(i32::from(Sex::Female), 1);
    assert_eq!(i32::from(Sex::Male), 2);
    assert_eq!(i32::from(Sex::OtherSex), 3);
    assert_eq!(i32::from(KaryotypicSex::UnknownKaryotype), 0);
    assert_eq!(i32::from(KaryotypicSex::Xx), 1);
    assert_eq!(i32::from(KaryotypicSex::Xy), 2);
    assert_eq!(i32::from(KaryotypicSex::Xo), 3);
    assert_eq!(i32::from(KaryotypicSex::Xxy), 4);
    assert_eq!(i32::from(KaryotypicSex::Xxx), 5);
    assert_eq!(i32::from(KaryotypicSex::Xxyy), 6);
    assert_eq!(i32::from(KaryotypicSex::Xxxy), 7);
    assert_eq!(i32::from(KaryotypicSex::Xxxx), 8);
    assert_eq!(i32::from(KaryotypicSex::Xyy), 9);
    assert_eq!(i32::from(KaryotypicSex::OtherKaryotype), 10);
    assert_eq!(Sex::default(), Sex::UnknownSex);
    assert_eq!(KaryotypicSex::default(), KaryotypicSex::UnknownKaryotype);
    assert_eq!(Status::default(), Status::UnknownStatus);
}

#[test]
fn individual_with_only_an_identifier() {
    let bare: Individual = Individual::builder().id("individual-id").build();
    assert_eq!(
        bare,
        Individual {
            id: "individual-id".to_string(),
            alternate_ids: vec![],
            date_of_birth: None,
            time_at_last_encounter: None,
            vital_status: None,
            sex: 0,
            karyotypic_sex: 0,
            gender: None,
            taxonomy: None,
        }
    );
}

#[test]
fn individual_holds_what_was_set() {
    let individual: Individual = Individual::builder()
        .gender(oc("LOINC:LA22878-5", "Identifies as male"))
        .taxonomy(oc("NCBITaxon:9606", "homo sapiens"))
        .karyotypic_sex(KaryotypicSex::Xxy)
        .sex(Sex::OtherSex)
        .vital_status(VitalStatus::builder().alive().survival_time_in_days(10u32))
        .time_at_last_encounter(TimeElement::builder().gestational_age_weeks(30))
        .date_of_birth(at(605, 7))
        .add_alternate_id("first")
        .id("individual-id")
        .add_alternate_id("second".to_string())
        .build();
    assert_eq!(
        individual,
        Individual {
            id: "individual-id".to_string(),
            alternate_ids: vec!["first".to_string(), "second".to_string()],
            date_of_birth: Some(at(605, 7)),
            time_at_last_encounter: Some(TimeElement {
                element: Some(Element::GestationalAge(GestationalAge { weeks: 30, days: 0 }))
            }),
            vital_status: Some(VitalStatus {
                status: 1,
                time_of_death: None,
                cause_of_death: None,
                survival_time_in_days: 10,
            }),
            sex: 3,
            karyotypic_sex: 4,
            gender: Some(OntologyClass {
                id: "LOINC:LA22878-5".to_string(),
                label: "Identifies as male".to_string(),
            }),
            taxonomy: Some(OntologyClass {
                id: "NCBITaxon:9606".to_string(),
                label: "homo sapiens".to_string(),
            }),
        }
    );
}

#[test]
fn three_alternate_ids_come_in_call_order_and_clear_removes_all() {
    let three = Individual::builder()
        .add_alternate_id("one")
        .add_alternate_id("two")
        .add_alternate_id("three");
    let kept: Individual = three.id("i").build();
    assert_eq!(kept.alternate_ids, vec!["one", "two", "three"]);

    let cleared: Individual = Individual::builder()
        .extend_alternate_ids(vec!["zero"])
        .add_alternate_id("one")
        .add_alternate_id("two")
        .add_alternate_id("three")
        .clear_alternate_ids()
        .id("i")
        .build();
    assert_eq!(cleared.alternate_ids, Vec::<String>::new());

    let refilled: Individual = Individual::builder()
        .add_alternate_id("gone")
        .clear_alternate_ids()
        .clear_alternate_ids()
        .add_alternate_id("kept")
        .id("i")
        .build();
    assert_eq!(refilled.alternate_ids, vec!["kept"]);
}

#[test]
fn alternate_ids_extend_in_argument_order() {
    let individual: Individual = Individual::builder()
        .add_alternate_id("a")
        .extend_alternate_ids(vec!["b", "c", "d"])
        .extend_alternate_ids(Vec::<String>::new())
        .extend_alternate_ids(vec!["e".to_string()])
        .id("i")
        .build();
    assert_eq!(individual.alternate_ids, vec!["a", "b", "c", "d", "e"]);
}

#[test]
fn individual_vital_status_shortcuts() {
    let deceased: Individual = Individual::builder().id("i").alive().deceased().build();
    assert_eq!(
        deceased.vital_status,
        Some(VitalStatus {
            status: 2,
            time_of_death: None,
            cause_of_death: None,
            survival_time_in_days: 0,
        })
    );
    let deceased_at: Individual = Individual::builder()
        .id("i")
        .deceased_at(TimeElement::builder().age_iso8601duration("P70Y"))
        .build();
    assert_eq!(
        deceased_at.vital_status,
        Some(VitalStatus {
            status: 2,
            time_of_death: Some(TimeElement {
                element: Some(Element::Age(Age {
                    iso8601duration: "P70Y".to_string()
                }))
            }),
            cause_of_death: None,
            survival_time_in_days: 0,
        })
    );
    let alive: Individual = Individual::builder().id("i").deceased().alive().build();
    assert_eq!(alive.vital_status.unwrap().status, 1);
}

#[test]
fn individual_sex_shortcuts() {
    assert_eq!(Individual::builder().id("i").male().build().sex, 2);
    assert_eq!(Individual::builder().id("i").female().build().sex, 1);
    assert_eq!(Individual::builder().id("i").other_sex().build().sex, 3);
    assert_eq!(Individual::builder().id("i").male().female().build().sex, 1);
    assert_eq!(
        Individual::builder().id("i").sex(Sex::UnknownSex).build().sex,
        0
    );
}

#[test]
fn individual_karyotypic_sex_shortcuts() {
    let of = |individual: Individual| individual.karyotypic_sex;
    assert_eq!(of(Individual::builder().id("i").karyotypic_sex_xx().build()), 1);
    assert_eq!(of(Individual::builder().id("i").karyotypic_sex_xy().build()), 2);
    assert_eq!(of(Individual::builder().id("i").karyotypic_sex_xo().build()), 3);
    assert_eq!(of(Individual::builder().id("i").karyotypic_sex_xxy().build()), 4);
    assert_eq!(
        of(Individual::builder().id("i").karyotypic_sex(KaryotypicSex::Xxx).build()),
        5
    );
    assert_eq!(of(Individual::builder().id("i").karyotypic_sex_xxyy().build()), 6);
    assert_eq!(of(Individual::builder().id("i").karyotypic_sex_xxxy().build()), 7);
    assert_eq!(of(Individual::builder().id("i").karyotypic_sex_xxxx().build()), 8);
    assert_eq!(of(Individual::builder().id("i").karyotypic_sex_xyy().build()), 9);
    assert_eq!(of(Individual::builder().id("i").karyotypic_sex_other().build()), 10);
}

#[test]
fn homo_sapiens_is_the_human_taxon() {
    let human: Individual = Individual::builder().homo_sapiens().id("i").build();
    assert_eq!(
        human.taxonomy,
        Some(OntologyClass {
            id: "NCBITaxon:9606".to_string(),
            label: "homo sapiens".to_string(),
        })
    );
}

#[test]
fn resource_fields_in_several_orders() {
    let expected = resource("hp", "HPO", "HP", "https://hpo.jax.org", "2024-01-01", "HP_");
    let in_order: Resource = Resource::builder()
        .id("hp")
        .name("HPO")
        .namespace_prefix("HP")
        .url("https://hpo.jax.org")
        .version("2024-01-01")
        .iri_prefix("HP_")
        .build();
    let reversed: Resource = Resource::builder()
        .iri_prefix("HP_")
        .version("2024-01-01")
        .url("https://hpo.jax.org")
        .namespace_prefix("HP")
        .name("HPO")
        .id("hp")
        .build();
    let mixed: Resource = Resource::builder()
        .url("https://hpo.jax.org")
        .id("hp")
        .iri_prefix("HP_")
        .name("HPO")
        .version("2024-01-01")
        .namespace_prefix("HP")
        .build();
    assert_eq!(in_order, expected);
    assert_eq!(reversed, expected);
    assert_eq!(mixed, expected);
}

#[test]
fn resource_presets() {
    let v = "2024-01-01";
    assert_eq!(
        Resource::builder().hpo(v).build(),
        resource(
            "hp",
            "human phenotype ontology",
            "HP",
            "https://purl.obolibrary.org/obo/hp.owl",
            "2024-01-01",
            "https://purl.obolibrary.org/obo/HP_",
        )
    );
    assert_eq!(
        Resource::builder().geno(v).build(),
        resource(
            "geno",
            "genotype ontology",
            "GENO",
            "https://purl.obolibrary.org/obo/geno.owl",
            "2024-01-01",
            "https://purl.obolibrary.org/obo/GENO_",
        )
    );
    assert_eq!(
        Resource::builder().ncit(v).build(),
        resource(
            "ncit",
            "NCI Thesaurus",
            "NCIT",
            "https://purl.obolibrary.org/obo/ncit.owl",
            "2024-01-01",
            "https://purl.obolibrary.org/obo/NCIT_",
        )
    );
    assert_eq!(
        Resource::builder().mondo(v).build(),
        resource(
            "mondo",
            "Mondo Disease Ontology",
            "MONDO",
            "https://purl.obolibrary.org/obo/mondo.obo",
            "2024-01-01",
            "https://purl.obolibrary.org/obo/MONDO_",
        )
    );
    assert_eq!(
        Resource::builder().uberon(v).build(),
        resource(
            "uberon",
            "Uber-anatomy ontology",
            "UBERON",
            "https://purl.obolibrary.org/obo/uberon.owl",
            "2024-01-01",
            "https://purl.obolibrary.org/obo/UBERON_",
        )
    );
    assert_eq!(
        Resource::builder().ncbi_taxon(v).build(),
        resource(
            "ncbitaxon",
            "NCBI organismal classification",
            "NCBITaxon",
            "https://purl.obolibrary.org/obo/ncbitaxon.owl",
            "2024-01-01",
            "https://purl.obolibrary.org/obo/NCBITaxon_",
        )
    );
    assert_eq!(
        Resource::builder().so(v).build(),
        resource(
            "so",
            "Sequence types and features ontology",
            "SO",
            "https://purl.obolibrary.org/obo/so.owl",
            "2024-01-01",
            "https://purl.obolibrary.org/obo/SO_",
        )
    );
    assert_eq!(
        Resource::builder().ucum(v).build(),
        resource(
            "ucum",
            "Unified Code for Units of Measure",
            "UCUM",
            "https://ucum.org",
            "2024-01-01",
            "https://units-of-measurement.org/",
        )
    );
    assert_eq!(
        Resource::builder().uo(v).build(),
        resource(
            "uo",
            "Units of measurement ontology",
            "UO",
            "https://purl.obolibrary.org/obo/uo.owl",
            "2024-01-01",
            "https://purl.obolibrary.org/obo/UO_",
        )
    );
    assert_eq!(
        Resource::builder().loinc(v).build(),
        resource(
            "loinc",
            "Logical Observation Identifiers Names and Codes",
            "LOINC",
            "https://loinc.org",
            "2024-01-01",
            "https://loinc.org/",
        )
    );
    assert_eq!(
        Resource::builder().omim(v).build(),
        resource(
            "omim",
            "An Online Catalog of Human Genes and Genetic Disorders",
            "OMIM",
            "https://www.omim.org",
            "2024-01-01",
            "https://www.omim.org/entry/",
        )
    );
    assert_eq!(
        Resource::builder().hgnc(v).build(),
        resource(
            "hgnc",
            "HUGO Gene Nomenclature Committee",
            "HGNC",
            "https://www.genenames.org",
            "2024-01-01",
            "https://www.genenames.org/data/gene-symbol-report/#!/hgnc_id/",
        )
    );
    assert_eq!(
        Resource::builder().pmid().build(),
        resource(
            "pmid",
            "PubMed",
            "PMID",
            "https://pubmed.ncbi.nlm.nih.gov",
            "",
            "https://pubmed.ncbi.nlm.nih.gov/",
        )
    );
}

#[test]
fn no_two_presets_share_an_identifier_a_url_or_an_iri_prefix() {
    let v = "2024-01-01";
    let presets = [
        Resource::builder().hpo(v).build(),
        Resource::builder().geno(v).build(),
        Resource::builder().ncit(v).build(),
        Resource::builder().mondo(v).build(),
        Resource::builder().uberon(v).build(),
        Resource::builder().ncbi_taxon(v).build(),
        Resource::builder().so(v).build(),
        Resource::builder().ucum(v).build(),
        Resource::builder().uo(v).build(),
        Resource::builder().loinc(v).build(),
        Resource::builder().omim(v).build(),
        Resource::builder().hgnc(v).build(),
        Resource::builder().pmid().build(),
    ];
    for (i, one) in presets.iter().enumerate() {
        for other in &presets[i + 1..] {
            assert_ne!(one.id, other.id);
            assert_ne!(one.name, other.name);
            assert_ne!(one.namespace_prefix, other.namespace_prefix);
            assert_ne!(one.url, other.url);
            assert_ne!(one.iri_prefix, other.iri_prefix);
        }
    }
    let ncit = &presets[2];
    assert_eq!(&ncit.url, "https://purl.obolibrary.org/obo/ncit.owl");
}

#[test]
fn a_preset_drops_what_was_set_before() {
    let hpo: Resource = Resource::builder()
        .id("mine")
        .url("https://example.org")
        .hpo("2018-03-08".to_string())
        .build();
    assert_eq!(&hpo.id, "hp");
    assert_eq!(&hpo.url, "https://purl.obolibrary.org/obo/hp.owl");
    assert_eq!(&hpo.version, "2018-03-08");
}

#[test]
fn update_defaults_to_empty_texts() {
    let update: Update = Update::builder().timestamp(at(605, 0)).build();
    assert_eq!(
        update,
        Update {
            timestamp: Some(at(605, 0)),
            updated_by: String::new(),
            comment: String::new(),
        }
    );
}

#[test]
fn update_holds_what_was_set() {
    let update: Update = Update::builder()
        .comment("first draft")
        .updated_by("Peter R.")
        .timestamp(Timestamp::builder().seconds_nanos(605, 1))
        .comment("second draft")
        .build();
    assert_eq!(
        update,
        Update {
            timestamp: Some(at(605, 1)),
            updated_by: "Peter R.".to_string(),
            comment: "second draft".to_string(),
        }
    );
}

fn meta_data_of(created: Timestamp, by: &str, version: &str) -> MetaData {
    MetaData {
        created: Some(created),
        created_by: by.to_string(),
        submitted_by: String::new(),
        resources: vec![],
        updates: vec![],
        phenopacket_schema_version: version.to_string(),
        external_references: vec![],
    }
}

#[test]
fn meta_data_mandatory_fields_in_all_six_orders() {
    let expected = meta_data_of(at(605, 0), "Peter R.", "2.0.0");
    let t = at(605, 0);
    let by = "Peter R.";
    let v = "2.0.0";
    let b = MetaData::builder;
    assert_eq!(b().created(t).created_by(by).phenopacket_schema_version(v).build(), expected);
    assert_eq!(b().created(t).phenopacket_schema_version(v).created_by(by).build(), expected);
    assert_eq!(b().created_by(by).created(t).phenopacket_schema_version(v).build(), expected);
    assert_eq!(b().created_by(by).phenopacket_schema_version(v).created(t).build(), expected);
    assert_eq!(b().phenopacket_schema_version(v).created(t).created_by(by).build(), expected);
    assert_eq!(b().phenopacket_schema_version(v).created_by(by).created(t).build(), expected);
}

#[test]
fn meta_data_schema_version_shortcuts() {
    let v2: MetaData = MetaData::builder().v2().created(at(1, 0)).created_by("x").build();
    assert_eq!(&v2.phenopacket_schema_version, "2.0.0");
    let v2_0_2: MetaData = MetaData::builder().created(at(1, 0)).created_by("x").v2_0_2().build();
    assert_eq!(&v2_0_2.phenopacket_schema_version, "2.0.2");
}

#[test]
fn meta_data_holds_what_was_set() {
    let update = Update {
        timestamp: Some(at(700, 0)),
        updated_by: "Daniel D.".to_string(),
        comment: String::new(),
    };
    let reference = ExternalReference {
        id: "PMID:30808312".to_string(),
        reference: String::new(),
        description: "A case report".to_string(),
    };
    let meta_data: MetaData = MetaData::builder()
        .submitted_by("nobody")
        .add_resource(Resource::builder().pmid())
        .add_update(Update::builder().timestamp(at(700, 0)).updated_by("Daniel D."))
        .created(Timestamp::builder().seconds_nanos(605, 0))
        .submitted_by("Peter R.")
        .add_external_reference(
            ExternalReference::builder()
                .id("PMID:30808312")
                .description("A case report"),
        )
        .created_by("Peter R.")
        .v2()
        .build();
    assert_eq!(
        meta_data,
        MetaData {
            created: Some(at(605, 0)),
            created_by: "Peter R.".to_string(),
            submitted_by: "Peter R.".to_string(),
            resources: vec![Resource::builder().pmid().build()],
            updates: vec![update],
            phenopacket_schema_version: "2.0.0".to_string(),
            external_references: vec![reference],
        }
    );
}

#[test]
fn meta_data_collections_append_extend_and_clear() {
    let r = |id: &str| resource(id, "n", "p", "u", "v", "i");
    let u = |s: i64| Update {
        timestamp: Some(at(s, 0)),
        updated_by: String::new(),
        comment: String::new(),
    };
    let e = |id: &str| ExternalReference {
        id: id.to_string(),
        reference: String::new(),
        description: String::new(),
    };
    let base = || MetaData::builder().created(at(1, 0)).created_by("x").v2();

    let resources: MetaData = base()
        .add_resource(r("a"))
        .add_resource(r("b"))
        .add_resource(r("c"))
        .extend_resources(vec![r("d"), r("e")])
        .build();
    assert_eq!(resources.resources, vec![r("a"), r("b"), r("c"), r("d"), r("e")]);
    assert_eq!(base().add_resource(r("a")).clear_resources().build().resources, vec![]);

    let updates: MetaData = base()
        .add_update(u(1))
        .add_update(u(2))
        .add_update(u(3))
        .extend_updates(vec![Update::builder().timestamp(at(4, 0))])
        .build();
    assert_eq!(updates.updates, vec![u(1), u(2), u(3), u(4)]);
    assert_eq!(base().add_update(u(1)).clear_updates().build().updates, vec![]);

    let references: MetaData = base()
        .add_external_reference(e("a"))
        .add_external_reference(e("b"))
        .add_external_reference(e("c"))
        .extend_external_references(vec![ExternalReference::builder().id("d")])
        .build();
    assert_eq!(references.external_references, vec![e("a"), e("b"), e("c"), e("d")]);
    assert_eq!(
        base()
            .add_external_reference(e("a"))
            .clear_external_references()
            .build()
            .external_references,
        vec![]
    );
}

#[test]
fn phenotypic_feature_defaults() {
    let bare: PhenotypicFeature = PhenotypicFeature::builder().feature_type(seizure()).build();
    assert_eq!(
        bare,
        PhenotypicFeature {
            description: String::new(),
            feature_type: Some(seizure()),
            excluded: false,
            severity: None,
            modifiers: vec![],
            onset: None,
            resolution: None,
            evidence: vec![],
        }
    );
}

#[test]
fn phenotypic_feature_holds_what_was_set() {
    let evidence = Evidence {
        evidence_code: Some(oc("ECO:0000033", "author statement")),
        reference: None,
    };
    let feature: PhenotypicFeature = PhenotypicFeature::builder()
        .description("Generalised tonic-clonic")
        .excluded()
        .severity(oc("HP:0012828", "Severe"))
        .add_modifier(oc("HP:0031796", "Recurrent"))
        .onset(TimeElement::builder().age_iso8601duration("P6M"))
        .resolution(TimeElement::builder().age_iso8601duration("P4Y2M"))
        .add_evidence(Evidence {
            evidence_code: Some(oc("ECO:0000033", "author statement")),
            reference: None,
        })
        .feature_type(OntologyClass::builder().id_label("HP:0001250", "Seizure"))
        .build();
    assert_eq!(
        feature,
        PhenotypicFeature {
            description: "Generalised tonic-clonic".to_string(),
            feature_type: Some(seizure()),
            excluded: true,
            severity: Some(oc("HP:0012828", "Severe")),
            modifiers: vec![oc("HP:0031796", "Recurrent")],
            onset: Some(TimeElement {
                element: Some(Element::Age(Age {
                    iso8601duration: "P6M".to_string()
                }))
            }),
            resolution: Some(TimeElement {
                element: Some(Element::Age(Age {
                    iso8601duration: "P4Y2M".to_string()
                }))
            }),
            evidence: vec![evidence],
        }
    );
}

#[test]
fn phenotypic_feature_observed_and_excluded() {
    let feature = || PhenotypicFeature::builder().feature_type(seizure());
    assert!(!feature().build().excluded);
    assert!(feature().excluded().build().excluded);
    assert!(!feature().excluded().observed().build().excluded);
    assert!(feature().observed().excluded().build().excluded);
}

#[test]
fn phenotypic_feature_collections_append_extend_and_clear() {
    let m = |id: &str| oc(id, "modifier");
    let e = |id: &str| Evidence {
        evidence_code: Some(oc(id, "evidence")),
        reference: None,
    };
    let feature = || PhenotypicFeature::builder().feature_type(seizure());

    let modifiers: PhenotypicFeature = feature()
        .add_modifier(m("a"))
        .add_modifier(m("b"))
        .add_modifier(m("c"))
        .extend_modifiers(vec![
            OntologyClass::builder().id_label("d", "modifier"),
            OntologyClass::builder().id_label("e", "modifier"),
        ])
        .build();
    assert_eq!(modifiers.modifiers, vec![m("a"), m("b"), m("c"), m("d"), m("e")]);
    assert_eq!(feature().add_modifier(m("a")).clear_modifiers().build().modifiers, vec![]);

    let evidence: PhenotypicFeature = feature()
        .add_evidence(e("a"))
        .add_evidence(e("b"))
        .add_evidence(e("c"))
        .extend_evidence(vec![e("d")])
        .build();
    assert_eq!(evidence.evidence, vec![e("a"), e("b"), e("c"), e("d")]);
    assert_eq!(feature().add_evidence(e("a")).clear_evidence().build().evidence, vec![]);
}

#[test]
fn phenopacket_mandatory_fields_in_either_order() {
    let meta_data = || meta_data_of(at(605, 0), "Peter R.", "2.0.0");
    let expected = Phenopacket {
        id: "phenopacket-id".to_string(),
        subject: None,
        phenotypic_features: vec![],
        meta_data: Some(meta_data()),
    };
    let id_first: Phenopacket = Phenopacket::builder()
        .id("phenopacket-id")
        .meta_data(meta_data())
        .build();
    let meta_data_first: Phenopacket = Phenopacket::builder()
        .meta_data(
            MetaData::builder()
                .created(at(605, 0))
                .created_by("Peter R.")
                .v2(),
        )
        .id("phenopacket-id")
        .build();
    assert_eq!(id_first, expected);
    assert_eq!(meta_data_first, expected);
}

#[test]
fn phenopacket_holds_what_was_set() {
    let feature = |id: &str| PhenotypicFeature::builder().feature_type(oc(id, "feature"));
    let phenopacket: Phenopacket = Phenopacket::builder()
        .add_phenotypic_feature(feature("gone"))
        .clear_phenotypic_features()
        .add_phenotypic_feature(feature("a"))
        .subject(Individual::builder().id("individual-id").female())
        .extend_phenotypic_features(vec![feature("b"), feature("c")])
        .meta_data(meta_data_of(at(605, 0), "Peter R.", "2.0.2"))
        .id("phenopacket-id")
        .build();
    assert_eq!(
        phenopacket,
        Phenopacket {
            id: "phenopacket-id".to_string(),
            subject: Some(Individual::builder().id("individual-id").female().build()),
            phenotypic_features: vec![
                feature("a").build(),
                feature("b").build(),
                feature("c").build(),
            ],
            meta_data: Some(meta_data_of(at(605, 0), "Peter R.", "2.0.2")),
        }
    );
}

#[test]
fn a_fresh_builder_is_the_default_one() {
    assert_eq!(OntologyClass::builder(), Default::default());
    assert_eq!(Individual::builder(), Default::default());
    assert_eq!(Resource::builder(), Default::default());
    assert_eq!(MetaData::builder(), Default::default());
    assert_eq!(Phenopacket::builder(), Default::default());
}

#[test]
fn a_cloned_builder_builds_the_same_record() {
    let builder = Individual::builder()
        .id("individual-id")
        .add_alternate_id("alternate-id")
        .time_at_last_encounter(TimeElement::builder().age_iso8601duration("P3Y4M"))
        .deceased_at(TimeElement::builder().gestational_age_weeks(30))
        .female()
        .homo_sapiens();
    let copy = builder.clone();
    assert_eq!(copy, builder);
    let record: Individual = builder.build();
    assert_eq!(copy.karyotypic_sex_xx().build().karyotypic_sex, 1);
    assert_eq!(record.karyotypic_sex, 0);
    assert_eq!(record.clone(), record);

    let half = MetaData::builder()
        .created_by("Peter R.")
        .add_resource(Resource::builder().hpo("2018-03-08"));
    let one: MetaData = half.clone().created(at(1, 0)).v2().build();
    let other: MetaData = half.created(at(2, 0)).v2_0_2().build();
    assert_eq!(one.resources, other.resources);
    assert_eq!(one.created, Some(at(1, 0)));
    assert_eq!(other.created, Some(at(2, 0)));
}

#[test]
fn narrower_integers_are_taken_where_an_integer_is_wanted() {
    let weeks: u8 = 25;
    let days: i16 = 5;
    let ga: GestationalAge = GestationalAge::builder().weeks(weeks).days(days).build();
    assert_eq!(ga, GestationalAge { weeks: 25, days: 5 });

    let seconds: u32 = 4_000_000_000;
    let nanos: u16 = 65_535;
    let ts: Timestamp = Timestamp::builder().seconds_nanos(seconds, nanos).build();
    assert_eq!(ts, at(4_000_000_000, 65_535));
    let before_epoch: i8 = -1;
    assert_eq!(Timestamp::builder().seconds_nanos(before_epoch, before_epoch).build(), at(-1, -1));

    let survival: u16 = 365;
    let vs: VitalStatus = VitalStatus::builder().alive().survival_time_in_days(survival).build();
    assert_eq!(vs.survival_time_in_days, 365);

    let te: TimeElement = TimeElement::builder().gestational_age_weeks_days(weeks, days).build();
    assert_eq!(
        te.element,
        Some(Element::GestationalAge(GestationalAge { weeks: 25, days: 5 }))
    );
}

#[test]
fn a_borrowed_string_builds_into_a_string() {
    let id = String::from("HP:0001250");
    let seizure = oc(&id, "Seizure");
    assert_eq!(seizure.id, id);
}

fn schema_status(status: phenopackets::schema::v2::core::vital_status::Status) -> i32 {
    i32::from(status)
}

fn schema_sex(sex: phenopackets::schema::v2::core::Sex) -> i32 {
    i32::from(sex)
}

fn schema_karyotype(karyotype: phenopackets::schema::v2::core::KaryotypicSex) -> i32 {
    i32::from(karyotype)
}

#[test]
fn codes_are_those_of_the_phenopacket_schema() {
    assert_eq!(
        i32::from(Status::UnknownStatus),
        schema_status(phenopackets::schema::v2::core::vital_status::Status::UnknownStatus)
    );
    assert_eq!(
        i32::from(Status::Alive),
        schema_status(phenopackets::schema::v2::core::vital_status::Status::Alive)
    );
    assert_eq!(
        i32::from(Status::Deceased),
        schema_status(phenopackets::schema::v2::core::vital_status::Status::Deceased)
    );

    assert_eq!(
        i32::from(Sex::UnknownSex),
        schema_sex(phenopackets::schema::v2::core::Sex::UnknownSex)
    );
    assert_eq!(i32::from(Sex::Female), schema_sex(phenopackets::schema::v2::core::Sex::Female));
    assert_eq!(i32::from(Sex::Male), schema_sex(phenopackets::schema::v2::core::Sex::Male));
    assert_eq!(
        i32::from(Sex::OtherSex),
        schema_sex(phenopackets::schema::v2::core::Sex::OtherSex)
    );

    let pairs = [
        (
            KaryotypicSex::UnknownKaryotype,
            phenopackets::schema::v2::core::KaryotypicSex::UnknownKaryotype,
        ),
        (KaryotypicSex::Xx, phenopackets::schema::v2::core::KaryotypicSex::Xx),
        (KaryotypicSex::Xy, phenopackets::schema::v2::core::KaryotypicSex::Xy),
        (KaryotypicSex::Xo, phenopackets::schema::v2::core::KaryotypicSex::Xo),
        (KaryotypicSex::Xxy, phenopackets::schema::v2::core::KaryotypicSex::Xxy),
        (KaryotypicSex::Xxx, phenopackets::schema::v2::core::KaryotypicSex::Xxx),
        (KaryotypicSex::Xxyy, phenopackets::schema::v2::core::KaryotypicSex::Xxyy),
        (KaryotypicSex::Xxxy, phenopackets::schema::v2::core::KaryotypicSex::Xxxy),
        (KaryotypicSex::Xxxx, phenopackets::schema::v2::core::KaryotypicSex::Xxxx),
        (KaryotypicSex::Xyy, phenopackets::schema::v2::core::KaryotypicSex::Xyy),
        (
            KaryotypicSex::OtherKaryotype,
            phenopackets::schema::v2::core::KaryotypicSex::OtherKaryotype,
        ),
    ];
    for (ours, theirs) in pairs {
        assert_eq!(i32::from(ours), schema_karyotype(theirs));
    }
}
