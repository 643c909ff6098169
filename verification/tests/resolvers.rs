use openalex_adapter::adapter::{DispatchError, OpenAlexAdapter};
use openalex_adapter::context::DataContext;
use openalex_adapter::field_value::FieldValue;
use openalex_adapter::vertex::{
    Author, Funder, Geo, IDObject, Institution, OpenAccess, OpenAlexObject, Price, Publisher,
    Role, Society, Source, SummaryStats, Vertex, Work,
};

fn mk_object(id: &str) -> OpenAlexObject {
    OpenAlexObject {
        cited_by_count: 42,
        counts_by_year: vec![],
        created_date: String::from("2020-01-01"),
        display_name: String::from("Example"),
        id: String::from(id),
        ids: IDObject {
            doi: Some(String::from("https://doi.org/10.1/x")),
            mag: None,
            openalex: Some(String::from(id)),
            pmid: None,
            pmcid: None,
        },
        updated_date: String::from("2023-05-06"),
    }
}

fn mk_work(id: &str) -> Work {
    Work {
        object: mk_object(id),
        abstract_inverted_index: None,
        authorships: vec![],
        apc_list: None,
        apc_paid: None,
        best_oa_location: None,
        biblio: None,
        cited_by_api_url: String::from("https://api.openalex.org/works?filter=cites:W1"),
        concepts: vec![],
        corresponding_author_ids: vec![],
        corresponding_institution_ids: vec![],
        doi: None,
        grants: vec![],
        institutions_distinct_count: None,
        is_oa: None,
        is_paratext: None,
        is_retracted: Some(false),
        language: Some(String::from("en")),
        license: None,
        locations: vec![],
        locations_count: None,
        mesh: vec![],
        ngrams_url: None,
        open_access: None,
        primary_location: None,
        publication_date: Some(String::from("2020-03-04")),
        publication_year: Some(2020),
        referenced_works: vec![String::from("W10"), String::from("W11")],
        related_works: vec![],
        sustainable_development_goals: vec![],
        title: Some(String::from("A title")),
        ttype: None,
        type_crossref: None,
    }
}

fn mk_author(id: &str) -> Author {
    Author {
        object: mk_object(id),
        display_name_alternatives: vec![String::from("E. Xample")],
        last_known_institution: None,
        orcid: None,
        summary_stats: Some(SummaryStats {
            two_year_mean_citedness: Some(3.25f64.to_bits()),
            h_index: Some(17),
            i10_index: None,
        }),
        works_api_url: String::from("https://api.openalex.org/works?filter=author.id:A1"),
        works_count: Some(120),
    }
}

fn mk_institution(id: &str, roles: Vec<Role>) -> Institution {
    Institution {
        object: mk_object(id),
        associated_institutions: vec![],
        display_name_alternatives: vec![],
        display_name_acronyms: vec![],
        country_code: Some(String::from("DE")),
        geo: Some(Geo {
            city: Some(String::from("Berlin")),
            geonames_city_id: None,
            region: None,
            country_code: Some(String::from("DE")),
            country: Some(String::from("Germany")),
            latitude: Some(52),
            longitude: Some(13),
        }),
        homepage_url: String::from("https://example.org"),
        image_thumbnail_url: None,
        image_url: None,
        repositories: vec![],
        roles,
        ror: None,
        summary_stats: None,
        ttype: None,
        works_api_url: String::from("https://api.openalex.org/works?filter=institution.id:I1"),
        works_count: None,
    }
}

fn mk_publisher(id: &str, roles: Vec<Role>) -> Publisher {
    Publisher {
        object: mk_object(id),
        alternative_titles: vec![],
        country_codes: vec![String::from("US")],
        hierarchy_level: Some(0),
        image_thumbnail_url: None,
        image_url: None,
        lineage: vec![],
        parent_publisher: None,
        roles,
        sources_api_url: String::from("https://api.openalex.org/sources?filter=publisher:P10"),
        summary_stats: None,
        works_count: None,
    }
}

fn mk_funder(id: &str, roles: Vec<Role>) -> Funder {
    Funder {
        object: mk_object(id),
        alternative_titles: vec![],
        country_code: None,
        description: None,
        grants_count: None,
        homepage_url: None,
        image_thumbnail_url: None,
        image_url: None,
        roles,
        summary_stats: None,
        works_count: None,
    }
}

fn mk_source(id: &str) -> Source {
    Source {
        object: mk_object(id),
        abreviated_title: None,
        alternative_titles: vec![],
        apc_payment: vec![
            Price { price: 2500, currency: String::from("EUR") },
            Price { price: 0, currency: String::from("USD") },
        ],
        apc_usd: Some(2700),
        country_code: None,
        homepage_url: None,
        host_organization: None,
        host_organization_lineage: vec![],
        host_organization_name: None,
        is_in_doaj: None,
        is_oa: Some(true),
        issn: vec![],
        issn_l: None,
        societies: vec![Society {
            url: String::from("https://soc.example"),
            organization: String::from("Example Society"),
        }],
        summary_stats: None,
        ttype: None,
        works_api_url: String::from("https://api.openalex.org/works?filter=source:S1"),
        works_count: None,
    }
}

fn role(tag: &str, id: &str) -> Role {
    Role { role: String::from(tag), id: String::from(id), works_count: 7 }
}

#[test]
fn rows_without_entity_resolve_to_null() {
    let adapter = OpenAlexAdapter::new();
    let rows: Vec<DataContext<u32>> = vec![
        DataContext::new(None, 0),
        DataContext::new(None, 1),
    ];
    let out = adapter.resolve_property(rows, "Work", "title").unwrap();
    assert_eq!(out.len(), 2);
    assert_eq!(out[0].1, FieldValue::Null);
    assert_eq!(out[1].1, FieldValue::Null);
    assert_eq!(out[0].0.payload, 0);
    assert_eq!(out[1].0.payload, 1);
}

#[test]
fn rows_without_entity_coerce_to_false() {
    let adapter = OpenAlexAdapter::new();
    let rows: Vec<DataContext<u32>> = vec![DataContext::new(None, 9)];
    let out = adapter.resolve_coercion(rows, "Institution", "Funder").unwrap();
    assert_eq!(out.len(), 1);
    assert!(!out[0].1);
}

#[test]
fn typename_returns_kind_name_for_every_kind() {
    let adapter = OpenAlexAdapter::new();
    let vertices = vec![
        (Vertex::Work(mk_work("W1")), "Work"),
        (Vertex::Author(mk_author("A1")), "Author"),
        (Vertex::Source(mk_source("S1")), "Source"),
        (Vertex::Institution(mk_institution("I1", vec![])), "Institution"),
        (Vertex::Publisher(mk_publisher("P10", vec![])), "Publisher"),
        (Vertex::Funder(mk_funder("F1", vec![])), "Funder"),
    ];
    for (vertex, name) in vertices {
        let rows: Vec<DataContext<u32>> = vec![DataContext::new(Some(vertex), 0)];
        let out = adapter.resolve_property(rows, name, "__typename").unwrap();
        assert_eq!(out[0].1, FieldValue::Text(String::from(name)));
    }
}

#[test]
fn typename_is_independent_of_entity_data() {
    let adapter = OpenAlexAdapter::new();
    let rows: Vec<DataContext<u32>> = vec![
        DataContext::new(Some(Vertex::Work(mk_work("W1"))), 0),
        DataContext::new(Some(Vertex::Work(mk_work("W-other"))), 1),
    ];
    let out = adapter.resolve_property(rows, "Work", "__typename").unwrap();
    assert_eq!(out[0].1, FieldValue::Text(String::from("Work")));
    assert_eq!(out[1].1, FieldValue::Text(String::from("Work")));
}

#[test]
fn property_stream_keeps_positional_correspondence() {
    let adapter = OpenAlexAdapter::new();
    let rows: Vec<DataContext<u32>> = vec![
        DataContext::new(Some(Vertex::Work(mk_work("W1"))), 10),
        DataContext::new(None, 11),
        DataContext::new(Some(Vertex::Work(mk_work("W2"))), 12),
    ];
    let out = adapter.resolve_property(rows, "Work", "id").unwrap();
    assert_eq!(out.len(), 3);
    assert_eq!(out[0].0.payload, 10);
    assert_eq!(out[1].0.payload, 11);
    assert_eq!(out[2].0.payload, 12);
    assert_eq!(out[0].1, FieldValue::Text(String::from("W1")));
    assert_eq!(out[1].1, FieldValue::Null);
    assert_eq!(out[2].1, FieldValue::Text(String::from("W2")));
}

#[test]
fn absent_optional_field_is_null_not_default() {
    let adapter = OpenAlexAdapter::new();
    let rows: Vec<DataContext<u32>> =
        vec![DataContext::new(Some(Vertex::Work(mk_work("W1"))), 0)];
    let out = adapter.resolve_property(rows, "Work", "doi").unwrap();
    assert_eq!(out[0].1, FieldValue::Null);
}

#[test]
fn chained_absence_of_nested_structure_is_null() {
    let adapter = OpenAlexAdapter::new();
    // open_access is absent, so every derived sub-field is Null.
    let rows: Vec<DataContext<u32>> =
        vec![DataContext::new(Some(Vertex::Work(mk_work("W1"))), 0)];
    let out = adapter.resolve_property(rows, "Work", "open_access_is_oa").unwrap();
    assert_eq!(out[0].1, FieldValue::Null);

    let mut work = mk_work("W1");
    work.open_access = Some(OpenAccess {
        is_oa: Some(true),
        oa_status: None,
        oa_url: None,
        any_repository_has_fulltext: None,
    });
    let rows: Vec<DataContext<u32>> = vec![DataContext::new(Some(Vertex::Work(work)), 0)];
    let out = adapter.resolve_property(rows, "Work", "open_access_is_oa").unwrap();
    assert_eq!(out[0].1, FieldValue::Boolean(true));
}

#[test]
fn work_property_values_match_the_table() {
    let adapter = OpenAlexAdapter::new();
    let rows: Vec<DataContext<u32>> =
        vec![DataContext::new(Some(Vertex::Work(mk_work("W1"))), 0)];
    let out = adapter.resolve_property(rows, "Work", "cited_by_count").unwrap();
    assert_eq!(out[0].1, FieldValue::Uint64(42));

    let rows: Vec<DataContext<u32>> =
        vec![DataContext::new(Some(Vertex::Work(mk_work("W1"))), 0)];
    let out = adapter.resolve_property(rows, "Work", "publication_year").unwrap();
    assert_eq!(out[0].1, FieldValue::Uint64(2020));

    let rows: Vec<DataContext<u32>> =
        vec![DataContext::new(Some(Vertex::Work(mk_work("W1"))), 0)];
    let out = adapter.resolve_property(rows, "Work", "referenced_works").unwrap();
    assert_eq!(
        out[0].1,
        FieldValue::TextList(vec![String::from("W10"), String::from("W11")])
    );
}

#[test]
fn mean_citedness_keeps_fractional_precision() {
    let adapter = OpenAlexAdapter::new();
    let rows: Vec<DataContext<u32>> =
        vec![DataContext::new(Some(Vertex::Author(mk_author("A1"))), 0)];
    let out = adapter
        .resolve_property(rows, "Author", "summary_stats_mean_citeness")
        .unwrap();
    match &out[0].1 {
        FieldValue::Float64Bits(bits) => assert_eq!(f64::from_bits(*bits), 3.25),
        other => panic!("expected a fractional value, got {:?}", other),
    }
}

#[test]
fn price_entries_render_with_the_fixed_template() {
    let adapter = OpenAlexAdapter::new();
    let rows: Vec<DataContext<u32>> =
        vec![DataContext::new(Some(Vertex::Source(mk_source("S1"))), 0)];
    let out = adapter.resolve_property(rows, "Source", "apc_payment").unwrap();
    assert_eq!(
        out[0].1,
        FieldValue::TextList(vec![String::from("2500 - EUR"), String::from("0 - USD")])
    );
}

#[test]
fn society_entries_render_with_the_fixed_template() {
    let adapter = OpenAlexAdapter::new();
    let rows: Vec<DataContext<u32>> =
        vec![DataContext::new(Some(Vertex::Source(mk_source("S1"))), 0)];
    let out = adapter.resolve_property(rows, "Source", "societies").unwrap();
    assert_eq!(
        out[0].1,
        FieldValue::TextList(vec![String::from("https://soc.example - Example Society")])
    );
}

#[test]
fn institution_geo_subfields_unwrap() {
    let adapter = OpenAlexAdapter::new();
    let inst = mk_institution("I1", vec![]);
    let rows: Vec<DataContext<u32>> =
        vec![DataContext::new(Some(Vertex::Institution(inst)), 0)];
    let out = adapter.resolve_property(rows, "Institution", "geo_city").unwrap();
    assert_eq!(out[0].1, FieldValue::Text(String::from("Berlin")));

    let mut inst = mk_institution("I1", vec![]);
    inst.geo = None;
    let rows: Vec<DataContext<u32>> =
        vec![DataContext::new(Some(Vertex::Institution(inst)), 0)];
    let out = adapter.resolve_property(rows, "Institution", "geo_city").unwrap();
    assert_eq!(out[0].1, FieldValue::Null);
}

#[test]
fn unknown_kind_is_a_dispatch_error() {
    let adapter = OpenAlexAdapter::new();
    let rows: Vec<DataContext<u32>> = vec![];
    let err = adapter.resolve_property(rows, "Banana", "id").unwrap_err();
    assert_eq!(err, DispatchError::UnknownKind);
}

#[test]
fn unknown_field_is_a_dispatch_error() {
    let adapter = OpenAlexAdapter::new();
    let rows: Vec<DataContext<u32>> = vec![];
    let err = adapter.resolve_property(rows, "Work", "no_such_field").unwrap_err();
    assert_eq!(err, DispatchError::UnknownProperty);
}

#[test]
fn unknown_edge_is_a_dispatch_error() {
    let adapter = OpenAlexAdapter::new();
    let rows: Vec<DataContext<u32>> = vec![];
    let err = adapter.resolve_neighbors(rows, "Funder", "Works").unwrap_err();
    assert_eq!(err, DispatchError::UnknownEdge);
}

#[test]
fn coercion_outside_the_trio_is_a_dispatch_error() {
    let adapter = OpenAlexAdapter::new();
    let rows: Vec<DataContext<u32>> = vec![];
    let err = adapter.resolve_coercion(rows, "Work", "Author").unwrap_err();
    assert_eq!(err, DispatchError::UnknownCoercion);
}

#[test]
fn role_based_coercion_follows_the_role_list() {
    let adapter = OpenAlexAdapter::new();
    let inst = mk_institution("I1", vec![role("funder", "F1")]);
    let rows: Vec<DataContext<u32>> =
        vec![DataContext::new(Some(Vertex::Institution(inst.clone())), 0)];
    let out = adapter.resolve_coercion(rows, "Institution", "Funder").unwrap();
    assert!(out[0].1);

    let rows: Vec<DataContext<u32>> =
        vec![DataContext::new(Some(Vertex::Institution(inst)), 0)];
    let out = adapter.resolve_coercion(rows, "Institution", "Publisher").unwrap();
    assert!(!out[0].1);

    let both = mk_institution("I1", vec![role("funder", "F1"), role("publisher", "P10")]);
    let rows: Vec<DataContext<u32>> =
        vec![DataContext::new(Some(Vertex::Institution(both)), 0)];
    let out = adapter.resolve_coercion(rows, "Institution", "Publisher").unwrap();
    assert!(out[0].1);
}

#[test]
fn coercion_works_for_all_six_pairs() {
    let adapter = OpenAlexAdapter::new();
    let funder = mk_funder("F1", vec![role("institution", "I1")]);
    let rows: Vec<DataContext<u32>> =
        vec![DataContext::new(Some(Vertex::Funder(funder)), 0)];
    let out = adapter.resolve_coercion(rows, "Funder", "Institution").unwrap();
    assert!(out[0].1);

    let publisher = mk_publisher("P10", vec![role("funder", "F1")]);
    let rows: Vec<DataContext<u32>> =
        vec![DataContext::new(Some(Vertex::Publisher(publisher)), 0)];
    let out = adapter.resolve_coercion(rows, "Publisher", "Funder").unwrap();
    assert!(out[0].1);

    let publisher = mk_publisher("P10", vec![]);
    let rows: Vec<DataContext<u32>> =
        vec![DataContext::new(Some(Vertex::Publisher(publisher)), 0)];
    let out = adapter.resolve_coercion(rows, "Publisher", "Institution").unwrap();
    assert!(!out[0].1);
}

#[test]
fn coercion_is_idempotent_on_an_unchanged_entity() {
    let adapter = OpenAlexAdapter::new();
    let inst = mk_institution("I1", vec![role("funder", "F1")]);
    let rows1: Vec<DataContext<u32>> =
        vec![DataContext::new(Some(Vertex::Institution(inst.clone())), 0)];
    let rows2: Vec<DataContext<u32>> =
        vec![DataContext::new(Some(Vertex::Institution(inst)), 0)];
    let first = adapter.resolve_coercion(rows1, "Institution", "Funder").unwrap();
    let second = adapter.resolve_coercion(rows2, "Institution", "Funder").unwrap();
    assert_eq!(first[0].1, second[0].1);
}

#[test]
fn narrowing_accessors_match_the_kind() {
    let work = Vertex::Work(mk_work("W1"));
    assert!(work.as_work().is_some());
    assert!(work.as_author().is_none());
    assert!(work.as_funder().is_none());
    assert_eq!(work.typename(), "Work");

    let funder = Vertex::Funder(mk_funder("F1", vec![]));
    assert!(funder.as_funder().is_some());
    assert!(funder.as_work().is_none());
    assert_eq!(funder.typename(), "Funder");
}
