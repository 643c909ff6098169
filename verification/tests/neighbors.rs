use openalex_adapter::adapter::{starting_vertices, DispatchError, OpenAlexAdapter};
use openalex_adapter::context::DataContext;
use openalex_adapter::neighbors::{
    page_neighbors, surviving_neighbors, NeighborCursor, NeighborPlan,
};
use openalex_adapter::vertex::{
    Authorship, DehydratedAuthor, IDObject, Institution, OpenAlexObject, Role, Vertex,
    VertexKind, Work,
};

fn mk_object(id: &str) -> OpenAlexObject {
    OpenAlexObject {
        cited_by_count: 1,
        counts_by_year: vec![],
        created_date: String::from("2020-01-01"),
        display_name: String::from("Example"),
        id: String::from(id),
        ids: IDObject { doi: None, mag: None, openalex: None, pmid: None, pmcid: None },
        updated_date: String::from("2023-05-06"),
    }
}

fn mk_work(id: &str) -> Work {
    Work {
        object: mk_object(id),
        abstract_inverted_index: None,
        authorships: vec![],
        apc_list: None,
        apc_paid: None,
        best_oa_location: None,
        biblio: None,
        cited_by_api_url: String::from("https://api.openalex.org/works?filter=cites:W1"),
        concepts: vec![],
        corresponding_author_ids: vec![],
        corresponding_institution_ids: vec![],
        doi: None,
        grants: vec![],
        institutions_distinct_count: None,
        is_oa: None,
        is_paratext: None,
        is_retracted: None,
        language: None,
        license: None,
        locations: vec![],
        locations_count: None,
        mesh: vec![],
        ngrams_url: None,
        open_access: None,
        primary_location: None,
        publication_date: None,
        publication_year: None,
        referenced_works: vec![],
        related_works: vec![],
        sustainable_development_goals: vec![],
        title: None,
        ttype: None,
        type_crossref: None,
    }
}

fn mk_institution(id: &str, roles: Vec<Role>) -> Institution {
    Institution {
        object: mk_object(id),
        associated_institutions: vec![],
        display_name_alternatives: vec![],
        display_name_acronyms: vec![],
        country_code: None,
        geo: None,
        homepage_url: String::from("https://example.org"),
        image_thumbnail_url: None,
        image_url: None,
        repositories: vec![],
        roles,
        ror: None,
        summary_stats: None,
        ttype: None,
        works_api_url: String::from("https://api.openalex.org/works?filter=institution.id:I1"),
        works_count: None,
    }
}

fn authorship(author_id: &str) -> Authorship {
    Authorship {
        author_position: None,
        author: DehydratedAuthor {
            id: String::from(author_id),
            display_name: String::from("Someone"),
            orcid: None,
        },
        institutions: vec![],
        countries: vec![],
        is_corresponding: None,
        raw_affiliation_string: None,
    }
}

#[test]
fn row_without_entity_gets_the_empty_plan() {
    let adapter = OpenAlexAdapter::new();
    let rows: Vec<DataContext<u32>> = vec![DataContext::new(None, 0)];
    let out = adapter.resolve_neighbors(rows, "Work", "Authors").unwrap();
    assert_eq!(out.len(), 1);
    assert_eq!(out[0].1, NeighborPlan::Empty);
}

#[test]
fn work_authors_plan_lists_author_ids_in_order() {
    let adapter = OpenAlexAdapter::new();
    let mut work = mk_work("W1");
    work.authorships = vec![authorship("A1"), authorship("A2"), authorship("A3")];
    let rows: Vec<DataContext<u32>> = vec![DataContext::new(Some(Vertex::Work(work)), 0)];
    let out = adapter.resolve_neighbors(rows, "Work", "Authors").unwrap();
    match &out[0].1 {
        NeighborPlan::Ids { ids, kind } => {
            assert_eq!(*kind, VertexKind::Author);
            assert_eq!(
                ids,
                &vec![String::from("A1"), String::from("A2"), String::from("A3")]
            );
        },
        other => panic!("expected an identifier plan, got {:?}", other),
    }
}

#[test]
fn work_cited_by_plan_is_a_listing() {
    let adapter = OpenAlexAdapter::new();
    let work = mk_work("W1");
    let rows: Vec<DataContext<u32>> = vec![DataContext::new(Some(Vertex::Work(work)), 0)];
    let out = adapter.resolve_neighbors(rows, "Work", "Cited_by").unwrap();
    match &out[0].1 {
        NeighborPlan::Listing { url, kind } => {
            assert_eq!(*kind, VertexKind::Work);
            assert_eq!(url.as_str(), "https://api.openalex.org/works?filter=cites:W1");
        },
        other => panic!("expected a listing plan, got {:?}", other),
    }
}

#[test]
fn role_indirected_edge_uses_the_first_matching_role() {
    let adapter = OpenAlexAdapter::new();
    let inst = mk_institution(
        "I1",
        vec![
            Role { role: String::from("education"), id: String::from("I1"), works_count: 1 },
            Role { role: String::from("publisher"), id: String::from("P77"), works_count: 2 },
        ],
    );
    let rows: Vec<DataContext<u32>> =
        vec![DataContext::new(Some(Vertex::Institution(inst)), 0)];
    let out = adapter.resolve_neighbors(rows, "Institution", "Publisher").unwrap();
    match &out[0].1 {
        NeighborPlan::Ids { ids, kind } => {
            assert_eq!(*kind, VertexKind::Publisher);
            assert_eq!(ids, &vec![String::from("P77")]);
        },
        other => panic!("expected an identifier plan, got {:?}", other),
    }
}

#[test]
fn role_indirected_edge_without_a_match_yields_no_neighbor() {
    let adapter = OpenAlexAdapter::new();
    let inst = mk_institution("I1", vec![]);
    let rows: Vec<DataContext<u32>> =
        vec![DataContext::new(Some(Vertex::Institution(inst)), 0)];
    let out = adapter.resolve_neighbors(rows, "Institution", "Funder").unwrap();
    match &out[0].1 {
        NeighborPlan::Ids { ids, kind } => {
            assert_eq!(*kind, VertexKind::Funder);
            assert!(ids.is_empty());
        },
        other => panic!("expected an identifier plan, got {:?}", other),
    }
}

#[test]
fn neighbor_stream_keeps_positional_correspondence() {
    let adapter = OpenAlexAdapter::new();
    let rows: Vec<DataContext<u32>> = vec![
        DataContext::new(Some(Vertex::Work(mk_work("W1"))), 5),
        DataContext::new(None, 6),
        DataContext::new(Some(Vertex::Work(mk_work("W2"))), 7),
    ];
    let out = adapter.resolve_neighbors(rows, "Work", "References").unwrap();
    assert_eq!(out.len(), 3);
    assert_eq!(out[0].0.payload, 5);
    assert_eq!(out[1].0.payload, 6);
    assert_eq!(out[2].0.payload, 7);
}

#[test]
fn cursor_hands_out_one_locator_per_pull() {
    let ids = vec![String::from("A1"), String::from("A2"), String::from("A3")];
    let mut cursor = NeighborCursor::new(ids, VertexKind::Author);
    assert_eq!(cursor.remaining(), 3);
    // Pulling the first element asks for exactly one locator: the other
    // two stay unissued, so no eager full-list prefetch can happen.
    let first = cursor.next_request().unwrap();
    assert_eq!(first, "A1");
    assert_eq!(cursor.remaining(), 2);
    assert_eq!(cursor.target_kind(), VertexKind::Author);
}

#[test]
fn exhausted_cursor_issues_nothing() {
    let mut cursor = NeighborCursor::new(vec![String::from("X")], VertexKind::Work);
    assert_eq!(cursor.next_request().unwrap(), "X");
    assert!(cursor.next_request().is_none());
    assert!(cursor.next_request().is_none());
    assert_eq!(cursor.remaining(), 0);
}

#[test]
fn empty_plan_cursor_never_asks_for_a_fetch() {
    let mut cursor = NeighborCursor::new(Vec::new(), VertexKind::Funder);
    assert_eq!(cursor.remaining(), 0);
    assert!(cursor.next_request().is_none());
}

#[test]
fn one_failed_fetch_drops_only_its_own_element() {
    let w1 = Vertex::Work(mk_work("W10"));
    let w3 = Vertex::Work(mk_work("W12"));
    // Three identifiers; the second fetch fails.
    let outcomes = vec![Some(w1.clone()), None, Some(w3.clone())];
    let neighbors = surviving_neighbors(outcomes);
    assert_eq!(neighbors.len(), 2);
    assert_eq!(neighbors[0], w1);
    assert_eq!(neighbors[1], w3);
}

#[test]
fn all_failed_fetches_yield_an_empty_sequence() {
    let outcomes: Vec<Option<Vertex>> = vec![None, None];
    assert!(surviving_neighbors(outcomes).is_empty());
}

#[test]
fn failed_page_fetch_yields_an_empty_sequence() {
    let page = vec![Vertex::Work(mk_work("W1")), Vertex::Work(mk_work("W2"))];
    let got = page_neighbors(Some(page.clone()));
    assert_eq!(got, page);
    assert!(page_neighbors(None).is_empty());
}

#[test]
fn id_search_resolves_to_a_single_work() {
    let adapter = OpenAlexAdapter::new();
    let id = "https://openalex.org/W2741809807";
    let req = adapter.resolve_starting_vertices("OpenAlexIDSearchWork", Some(id)).unwrap();
    assert_eq!(req.url, id);
    assert_eq!(req.kind, VertexKind::Work);

    // The gateway answers with the work carrying the requested identifier.
    let fetched = Vertex::Work(mk_work(id));
    let seq = starting_vertices(Some(fetched));
    assert_eq!(seq.len(), 1);
    assert_eq!(seq[0].as_work().unwrap().object.id, id);
}

#[test]
fn unreachable_identifier_yields_an_empty_sequence() {
    let adapter = OpenAlexAdapter::new();
    let req = adapter
        .resolve_starting_vertices("OpenAlexIDSearchWork", Some("https://openalex.org/W0"))
        .unwrap();
    assert_eq!(req.kind, VertexKind::Work);
    // The fetch fails; the starting sequence is empty, not an error.
    let seq = starting_vertices(None);
    assert!(seq.is_empty());
}

#[test]
fn random_work_request_targets_the_random_endpoint() {
    let adapter = OpenAlexAdapter::new();
    let req = adapter.resolve_starting_vertices("OpenAlexRandomWork", None).unwrap();
    assert_eq!(req.url, "https://api.openalex.org/works/random");
    assert_eq!(req.kind, VertexKind::Work);
}

#[test]
fn unknown_starting_edge_is_a_dispatch_error() {
    let adapter = OpenAlexAdapter::new();
    let err = adapter
        .resolve_starting_vertices("OpenAlexEverything", None)
        .unwrap_err();
    assert_eq!(err, DispatchError::UnknownStartingEdge);
}
