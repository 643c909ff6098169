//! The neighbor resolver: maps (entity kind, edge name) to a fetch plan
//! that turns the entity's embedded identifiers or listing URL into
//! freshly fetched neighbors.
//!
//! The core never fetches. It produces plans; the surrounding application
//! drives a `NeighborCursor` over an identifier plan, performing one
//! remote fetch per locator the cursor hands out, exactly when it is
//! handed out. A consumer that stops pulling therefore stops fetching: a
//! discarded, partially-consumed sequence performs no further work.
//! Failed fetches degrade to skipped elements, never to an error for the
//! row.

use vstd::prelude::*;

use crate::text::str_eq;
use crate::vertex::{
    Author, Authorship, Concept, DehydratedConcept, DehydratedInstitution, DehydratedSource,
    Funder, Grant, Institution, Publisher, Role, Source, Vertex, VertexKind, Work,
};

verus! {

/// One single-entity fetch: a locator plus the kind to decode as.
#[derive(Clone, Debug, PartialEq)]
pub struct FetchRequest {
    pub url: String,
    pub kind: VertexKind,
}

/// The expansion policy of one row's edge, fixed per (kind, edge):
/// either an ordered list of single-entity locators, or one listing URL
/// resolved as a page, or nothing at all (a row without an active entity,
/// or a role lookup that found no entry).
#[derive(Clone, Debug, PartialEq)]
pub enum NeighborPlan {
    /// No neighbors; nothing will be fetched.
    Empty,
    /// Fetch one entity of `kind` per identifier, in order.
    Ids { ids: Vec<String>, kind: VertexKind },
    /// Fetch one page of entities of `kind` from a listing URL.
    Listing { url: String, kind: VertexKind },
}

/// The mathematical model of a fetch plan.
pub ghost enum NeighborPlanView {
    Empty,
    Ids { ids: Seq<Seq<char>>, kind: VertexKind },
    Listing { url: Seq<char>, kind: VertexKind },
}

impl View for NeighborPlan {
    type V = NeighborPlanView;

    open spec fn view(&self) -> NeighborPlanView {
        match self {
            NeighborPlan::Empty => NeighborPlanView::Empty,
            NeighborPlan::Ids { ids, kind } => NeighborPlanView::Ids {
                ids: ids.deep_view(),
                kind: *kind,
            },
            NeighborPlan::Listing { url, kind } => NeighborPlanView::Listing {
                url: url@,
                kind: *kind,
            },
        }
    }
}

/// The author identifiers of a work's authorship list, in order.
pub open spec fn authorship_ids(l: Seq<Authorship>) -> Seq<Seq<char>> {
    Seq::new(l.len(), |i: int| l[i].author.id@)
}

/// The identifiers of a dehydrated-concept list, in order.
pub open spec fn concept_ids(l: Seq<DehydratedConcept>) -> Seq<Seq<char>> {
    Seq::new(l.len(), |i: int| l[i].id@)
}

/// The funder identifiers of a grant list, in order.
pub open spec fn grant_funder_ids(l: Seq<Grant>) -> Seq<Seq<char>> {
    Seq::new(l.len(), |i: int| l[i].funder@)
}

/// The identifiers of a dehydrated-institution list, in order.
pub open spec fn institution_ids(l: Seq<DehydratedInstitution>) -> Seq<Seq<char>> {
    Seq::new(l.len(), |i: int| l[i].id@)
}

/// The identifiers of a dehydrated-source list, in order.
pub open spec fn source_ids(l: Seq<DehydratedSource>) -> Seq<Seq<char>> {
    Seq::new(l.len(), |i: int| l[i].id@)
}

/// Zero-or-one identifier out of an optional dehydrated institution.
pub open spec fn opt_institution_id(o: Option<DehydratedInstitution>) -> Seq<Seq<char>> {
    match o {
        Some(d) => seq![d.id@],
        None => Seq::empty(),
    }
}

/// Zero-or-one identifier out of an optional embedded identifier.
pub open spec fn opt_id(o: Option<String>) -> Seq<Seq<char>> {
    match o {
        Some(s) => seq![s@],
        None => Seq::empty(),
    }
}

/// The identifier carried by the first role entry with the given tag, if
/// any; finding none is a normal outcome, not a failure.
pub open spec fn first_role_id(roles: Seq<Role>, tag: Seq<char>) -> Option<Seq<char>>
    decreases roles.len(),
{
    if roles.len() == 0 {
        None
    } else if roles[0].role@ == tag {
        Some(roles[0].id@)
    } else {
        first_role_id(roles.drop_first(), tag)
    }
}

/// Zero-or-one identifier out of a role lookup.
pub open spec fn role_id_seq(roles: Seq<Role>, tag: Seq<char>) -> Seq<Seq<char>> {
    match first_role_id(roles, tag) {
        Some(id) => seq![id],
        None => Seq::empty(),
    }
}

proof fn lemma_first_role_id_step(roles: Seq<Role>, tag: Seq<char>, i: int)
    requires
        0 <= i < roles.len(),
        roles[i].role@ != tag,
    ensures
        first_role_id(roles.skip(i), tag) == first_role_id(roles.skip(i + 1), tag),
{
    assert(roles.skip(i).drop_first() =~= roles.skip(i + 1));
    assert(roles.skip(i)[0] == roles[i]);
}

/// Find the identifier of the first role entry carrying the tag.
fn find_role_id(roles: &Vec<Role>, tag: &str) -> (r: Option<String>)
    ensures
        match first_role_id(roles@, tag@) {
            Some(id) => r matches Some(s) && s@ == id,
            None => r is None,
        },
{
    let mut i: usize = 0;
    proof {
        assert(roles@.skip(0) =~= roles@);
    }
    while i < roles.len()
        invariant
            i <= roles.len(),
            first_role_id(roles@, tag@) == first_role_id(roles@.skip(i as int), tag@),
        decreases roles.len() - i,
    {
        if str_eq(roles[i].role.as_str(), tag) {
            proof {
                assert(roles@.skip(i as int)[0] == roles@[i as int]);
            }
            return Some(roles[i].id.clone());
        }
        proof {
            lemma_first_role_id_step(roles@, tag@, i as int);
        }
        i = i + 1;
    }
    proof {
        assert(roles@.skip(i as int) =~= Seq::<Role>::empty());
    }
    None
}

/// Copy an identifier list.
fn clone_ids(l: &Vec<String>) -> (r: Vec<String>)
    ensures
        r.deep_view() == l.deep_view(),
{
    let mut out: Vec<String> = Vec::new();
    let mut i: usize = 0;
    while i < l.len()
        invariant
            i <= l.len(),
            out@ =~= l@.take(i as int),
        decreases l.len() - i,
    {
        out.push(l[i].clone());
        proof {
            assert(out@ =~= l@.take(i as int + 1));
        }
        i = i + 1;
    }
    proof {
        assert(out@ =~= l@);
        assert(out.deep_view() =~= l.deep_view());
    }
    out
}

/// The author identifiers of an authorship list.
fn ids_of_authorships(l: &Vec<Authorship>) -> (r: Vec<String>)
    ensures
        r.deep_view() == authorship_ids(l@),
{
    let mut out: Vec<String> = Vec::new();
    let mut i: usize = 0;
    while i < l.len()
        invariant
            i <= l.len(),
            out@.len() == i,
            forall|j: int| 0 <= j < i ==> out@[j]@ == l@[j].author.id@,
        decreases l.len() - i,
    {
        out.push(l[i].author.id.clone());
        i = i + 1;
    }
    proof {
        assert(out.deep_view() =~= authorship_ids(l@));
    }
    out
}

/// The identifiers of a dehydrated-concept list.
fn ids_of_concepts(l: &Vec<DehydratedConcept>) -> (r: Vec<String>)
    ensures
        r.deep_view() == concept_ids(l@),
{
    let mut out: Vec<String> = Vec::new();
    let mut i: usize = 0;
    while i < l.len()
        invariant
            i <= l.len(),
            out@.len() == i,
            forall|j: int| 0 <= j < i ==> out@[j]@ == l@[j].id@,
        decreases l.len() - i,
    {
        out.push(l[i].id.clone());
        i = i + 1;
    }
    proof {
        assert(out.deep_view() =~= concept_ids(l@));
    }
    out
}

/// The funder identifiers of a grant list.
fn ids_of_grants(l: &Vec<Grant>) -> (r: Vec<String>)
    ensures
        r.deep_view() == grant_funder_ids(l@),
{
    let mut out: Vec<String> = Vec::new();
    let mut i: usize = 0;
    while i < l.len()
        invariant
            i <= l.len(),
            out@.len() == i,
            forall|j: int| 0 <= j < i ==> out@[j]@ == l@[j].funder@,
        decreases l.len() - i,
    {
        out.push(l[i].funder.clone());
        i = i + 1;
    }
    proof {
        assert(out.deep_view() =~= grant_funder_ids(l@));
    }
    out
}

/// The identifiers of a dehydrated-institution list.
fn ids_of_institutions(l: &Vec<DehydratedInstitution>) -> (r: Vec<String>)
    ensures
        r.deep_view() == institution_ids(l@),
{
    let mut out: Vec<String> = Vec::new();
    let mut i: usize = 0;
    while i < l.len()
        invariant
            i <= l.len(),
            out@.len() == i,
            forall|j: int| 0 <= j < i ==> out@[j]@ == l@[j].id@,
        decreases l.len() - i,
    {
        out.push(l[i].id.clone());
        i = i + 1;
    }
    proof {
        assert(out.deep_view() =~= institution_ids(l@));
    }
    out
}

/// The identifiers of a dehydrated-source list.
fn ids_of_sources(l: &Vec<DehydratedSource>) -> (r: Vec<String>)
    ensures
        r.deep_view() == source_ids(l@),
{
    let mut out: Vec<String> = Vec::new();
    let mut i: usize = 0;
    while i < l.len()
        invariant
            i <= l.len(),
            out@.len() == i,
            forall|j: int| 0 <= j < i ==> out@[j]@ == l@[j].id@,
        decreases l.len() - i,
    {
        out.push(l[i].id.clone());
        i = i + 1;
    }
    proof {
        assert(out.deep_view() =~= source_ids(l@));
    }
    out
}

/// The edges of a work.
pub open spec fn is_work_edge(e: Seq<char>) -> bool {
    ||| e == "Authors"@
    ||| e == "Cited_by"@
    ||| e == "Concepts"@
    ||| e == "Funders"@
    ||| e == "References"@
    ||| e == "Related"@
}

/// The fetch plan of a work edge.
pub open spec fn work_edge_plan(w: Work, e: Seq<char>) -> NeighborPlanView {
    if e == "Authors"@ {
        NeighborPlanView::Ids { ids: authorship_ids(w.authorships@), kind: VertexKind::Author }
    } else if e == "Cited_by"@ {
        NeighborPlanView::Listing { url: w.cited_by_api_url@, kind: VertexKind::Work }
    } else if e == "Concepts"@ {
        NeighborPlanView::Ids { ids: concept_ids(w.concepts@), kind: VertexKind::Concept }
    } else if e == "Funders"@ {
        NeighborPlanView::Ids { ids: grant_funder_ids(w.grants@), kind: VertexKind::Funder }
    } else if e == "References"@ {
        NeighborPlanView::Ids { ids: w.referenced_works.deep_view(), kind: VertexKind::Work }
    } else {
        NeighborPlanView::Ids { ids: w.related_works.deep_view(), kind: VertexKind::Work }
    }
}

fn plan_work_edge(w: &Work, edge_name: &str) -> (r: NeighborPlan)
    requires
        is_work_edge(edge_name@),
    ensures
        r@ == work_edge_plan(*w, edge_name@),
{
    if str_eq(edge_name, "Authors") {
        NeighborPlan::Ids { ids: ids_of_authorships(&w.authorships), kind: VertexKind::Author }
    } else if str_eq(edge_name, "Cited_by") {
        NeighborPlan::Listing { url: w.cited_by_api_url.clone(), kind: VertexKind::Work }
    } else if str_eq(edge_name, "Concepts") {
        NeighborPlan::Ids { ids: ids_of_concepts(&w.concepts), kind: VertexKind::Concept }
    } else if str_eq(edge_name, "Funders") {
        NeighborPlan::Ids { ids: ids_of_grants(&w.grants), kind: VertexKind::Funder }
    } else if str_eq(edge_name, "References") {
        NeighborPlan::Ids { ids: clone_ids(&w.referenced_works), kind: VertexKind::Work }
    } else {
        NeighborPlan::Ids { ids: clone_ids(&w.related_works), kind: VertexKind::Work }
    }
}

/// The edges of an author.
pub open spec fn is_author_edge(e: Seq<char>) -> bool {
    ||| e == "Institution"@
    ||| e == "Works"@
}

/// The fetch plan of an author edge.
pub open spec fn author_edge_plan(a: Author, e: Seq<char>) -> NeighborPlanView {
    if e == "Institution"@ {
        NeighborPlanView::Ids {
            ids: opt_institution_id(a.last_known_institution),
            kind: VertexKind::Institution,
        }
    } else {
        NeighborPlanView::Listing { url: a.works_api_url@, kind: VertexKind::Work }
    }
}

fn plan_author_edge(a: &Author, edge_name: &str) -> (r: NeighborPlan)
    requires
        is_author_edge(edge_name@),
    ensures
        r@ == author_edge_plan(*a, edge_name@),
{
    if str_eq(edge_name, "Institution") {
        let mut ids: Vec<String> = Vec::new();
        match &a.last_known_institution {
            Some(d) => {
                ids.push(d.id.clone());
            },
            None => {},
        }
        proof {
            assert(ids.deep_view() =~= opt_institution_id(a.last_known_institution));
        }
        NeighborPlan::Ids { ids, kind: VertexKind::Institution }
    } else {
        NeighborPlan::Listing { url: a.works_api_url.clone(), kind: VertexKind::Work }
    }
}

/// The edges of a source.
pub open spec fn is_source_edge(e: Seq<char>) -> bool {
    ||| e == "Host"@
    ||| e == "Lineage"@
    ||| e == "Works"@
}

/// The fetch plan of a source edge.
pub open spec fn source_edge_plan(s: Source, e: Seq<char>) -> NeighborPlanView {
    if e == "Host"@ {
        NeighborPlanView::Ids { ids: opt_id(s.host_organization), kind: VertexKind::Institution }
    } else if e == "Lineage"@ {
        NeighborPlanView::Ids {
            ids: s.host_organization_lineage.deep_view(),
            kind: VertexKind::Institution,
        }
    } else {
        NeighborPlanView::Listing { url: s.works_api_url@, kind: VertexKind::Work }
    }
}

fn plan_source_edge(s: &Source, edge_name: &str) -> (r: NeighborPlan)
    requires
        is_source_edge(edge_name@),
    ensures
        r@ == source_edge_plan(*s, edge_name@),
{
    if str_eq(edge_name, "Host") {
        let mut ids: Vec<String> = Vec::new();
        match &s.host_organization {
            Some(id) => {
                ids.push(id.clone());
            },
            None => {},
        }
        proof {
            assert(ids.deep_view() =~= opt_id(s.host_organization));
        }
        NeighborPlan::Ids { ids, kind: VertexKind::Institution }
    } else if str_eq(edge_name, "Lineage") {
        NeighborPlan::Ids {
            ids: clone_ids(&s.host_organization_lineage),
            kind: VertexKind::Institution,
        }
    } else {
        NeighborPlan::Listing { url: s.works_api_url.clone(), kind: VertexKind::Work }
    }
}

/// The edges of a concept.
pub open spec fn is_concept_edge(e: Seq<char>) -> bool {
    ||| e == "Ancestors"@
    ||| e == "Related"@
    ||| e == "Works"@
}

/// The fetch plan of a concept edge.
pub open spec fn concept_edge_plan(c: Concept, e: Seq<char>) -> NeighborPlanView {
    if e == "Ancestors"@ {
        NeighborPlanView::Ids { ids: concept_ids(c.ancestors@), kind: VertexKind::Concept }
    } else if e == "Related"@ {
        NeighborPlanView::Ids { ids: concept_ids(c.related_concepts@), kind: VertexKind::Concept }
    } else {
        NeighborPlanView::Listing { url: c.works_api_url@, kind: VertexKind::Work }
    }
}

fn plan_concept_edge(c: &Concept, edge_name: &str) -> (r: NeighborPlan)
    requires
        is_concept_edge(edge_name@),
    ensures
        r@ == concept_edge_plan(*c, edge_name@),
{
    if str_eq(edge_name, "Ancestors") {
        NeighborPlan::Ids { ids: ids_of_concepts(&c.ancestors), kind: VertexKind::Concept }
    } else if str_eq(edge_name, "Related") {
        NeighborPlan::Ids { ids: ids_of_concepts(&c.related_concepts), kind: VertexKind::Concept }
    } else {
        NeighborPlan::Listing { url: c.works_api_url.clone(), kind: VertexKind::Work }
    }
}

/// The edges of an institution.
pub open spec fn is_institution_edge(e: Seq<char>) -> bool {
    ||| e == "Associated"@
    ||| e == "Repositories"@
    ||| e == "Publisher"@
    ||| e == "Funder"@
    ||| e == "Works"@
}

/// The fetch plan of an institution edge. The publisher and funder edges
/// are role-indirected: a lookup in the live role list, yielding no
/// neighbor when no entry carries the tag.
pub open spec fn institution_edge_plan(i: Institution, e: Seq<char>) -> NeighborPlanView {
    if e == "Associated"@ {
        NeighborPlanView::Ids {
            ids: institution_ids(i.associated_institutions@),
            kind: VertexKind::Institution,
        }
    } else if e == "Repositories"@ {
        NeighborPlanView::Ids { ids: source_ids(i.repositories@), kind: VertexKind::Source }
    } else if e == "Publisher"@ {
        NeighborPlanView::Ids {
            ids: role_id_seq(i.roles@, "publisher"@),
            kind: VertexKind::Publisher,
        }
    } else if e == "Funder"@ {
        NeighborPlanView::Ids { ids: role_id_seq(i.roles@, "funder"@), kind: VertexKind::Funder }
    } else {
        NeighborPlanView::Listing { url: i.works_api_url@, kind: VertexKind::Work }
    }
}

fn plan_institution_edge(i: &Institution, edge_name: &str) -> (r: NeighborPlan)
    requires
        is_institution_edge(edge_name@),
    ensures
        r@ == institution_edge_plan(*i, edge_name@),
{
    if str_eq(edge_name, "Associated") {
        NeighborPlan::Ids {
            ids: ids_of_institutions(&i.associated_institutions),
            kind: VertexKind::Institution,
        }
    } else if str_eq(edge_name, "Repositories") {
        NeighborPlan::Ids { ids: ids_of_sources(&i.repositories), kind: VertexKind::Source }
    } else if str_eq(edge_name, "Publisher") {
        let ids = role_lookup_ids(&i.roles, "publisher");
        NeighborPlan::Ids { ids, kind: VertexKind::Publisher }
    } else if str_eq(edge_name, "Funder") {
        let ids = role_lookup_ids(&i.roles, "funder");
        NeighborPlan::Ids { ids, kind: VertexKind::Funder }
    } else {
        NeighborPlan::Listing { url: i.works_api_url.clone(), kind: VertexKind::Work }
    }
}

/// The zero-or-one identifier list of a role lookup.
fn role_lookup_ids(roles: &Vec<Role>, tag: &str) -> (r: Vec<String>)
    ensures
        r.deep_view() == role_id_seq(roles@, tag@),
{
    let mut ids: Vec<String> = Vec::new();
    match find_role_id(roles, tag) {
        Some(id) => {
            ids.push(id);
        },
        None => {},
    }
    proof {
        assert(ids.deep_view() =~= role_id_seq(roles@, tag@));
    }
    ids
}

/// The edges of a publisher.
pub open spec fn is_publisher_edge(e: Seq<char>) -> bool {
    ||| e == "Lineage"@
    ||| e == "Institution"@
    ||| e == "Funder"@
    ||| e == "Sources"@
}

/// The fetch plan of a publisher edge.
pub open spec fn publisher_edge_plan(p: Publisher, e: Seq<char>) -> NeighborPlanView {
    if e == "Lineage"@ {
        NeighborPlanView::Ids { ids: p.lineage.deep_view(), kind: VertexKind::Publisher }
    } else if e == "Institution"@ {
        NeighborPlanView::Ids {
            ids: role_id_seq(p.roles@, "institution"@),
            kind: VertexKind::Institution,
        }
    } else if e == "Funder"@ {
        NeighborPlanView::Ids { ids: role_id_seq(p.roles@, "funder"@), kind: VertexKind::Funder }
    } else {
        NeighborPlanView::Listing { url: p.sources_api_url@, kind: VertexKind::Source }
    }
}

fn plan_publisher_edge(p: &Publisher, edge_name: &str) -> (r: NeighborPlan)
    requires
        is_publisher_edge(edge_name@),
    ensures
        r@ == publisher_edge_plan(*p, edge_name@),
{
    if str_eq(edge_name, "Lineage") {
        NeighborPlan::Ids { ids: clone_ids(&p.lineage), kind: VertexKind::Publisher }
    } else if str_eq(edge_name, "Institution") {
        let ids = role_lookup_ids(&p.roles, "institution");
        NeighborPlan::Ids { ids, kind: VertexKind::Institution }
    } else if str_eq(edge_name, "Funder") {
        let ids = role_lookup_ids(&p.roles, "funder");
        NeighborPlan::Ids { ids, kind: VertexKind::Funder }
    } else {
        NeighborPlan::Listing { url: p.sources_api_url.clone(), kind: VertexKind::Source }
    }
}

/// The edges of a funder.
pub open spec fn is_funder_edge(e: Seq<char>) -> bool {
    ||| e == "Institution"@
    ||| e == "Publisher"@
}

/// The fetch plan of a funder edge; both are role-indirected.
pub open spec fn funder_edge_plan(f: Funder, e: Seq<char>) -> NeighborPlanView {
    if e == "Institution"@ {
        NeighborPlanView::Ids {
            ids: role_id_seq(f.roles@, "institution"@),
            kind: VertexKind::Institution,
        }
    } else {
        NeighborPlanView::Ids { ids: role_id_seq(f.roles@, "publisher"@), kind: VertexKind::Publisher }
    }
}

fn plan_funder_edge(f: &Funder, edge_name: &str) -> (r: NeighborPlan)
    requires
        is_funder_edge(edge_name@),
    ensures
        r@ == funder_edge_plan(*f, edge_name@),
{
    if str_eq(edge_name, "Institution") {
        let ids = role_lookup_ids(&f.roles, "institution");
        NeighborPlan::Ids { ids, kind: VertexKind::Institution }
    } else {
        let ids = role_lookup_ids(&f.roles, "publisher");
        NeighborPlan::Ids { ids, kind: VertexKind::Publisher }
    }
}

/// Whether the (kind, edge) pair is in the closed edge table.
pub open spec fn is_edge(k: VertexKind, e: Seq<char>) -> bool {
    match k {
        VertexKind::Work => is_work_edge(e),
        VertexKind::Author => is_author_edge(e),
        VertexKind::Concept => is_concept_edge(e),
        VertexKind::Source => is_source_edge(e),
        VertexKind::Institution => is_institution_edge(e),
        VertexKind::Publisher => is_publisher_edge(e),
        VertexKind::Funder => is_funder_edge(e),
    }
}

/// The fetch plan of one entity's edge.
pub open spec fn edge_plan(v: Vertex, e: Seq<char>) -> NeighborPlanView {
    match v {
        Vertex::Work(w) => work_edge_plan(w, e),
        Vertex::Author(a) => author_edge_plan(a, e),
        Vertex::Concept(c) => concept_edge_plan(c, e),
        Vertex::Source(s) => source_edge_plan(s, e),
        Vertex::Institution(i) => institution_edge_plan(i, e),
        Vertex::Publisher(p) => publisher_edge_plan(p, e),
        Vertex::Funder(f) => funder_edge_plan(f, e),
    }
}

/// Build the fetch plan for one entity's edge. The caller has already
/// dispatched on kind; the edge must be in the kind's table.
pub fn plan_edge(vertex: &Vertex, edge_name: &str) -> (r: NeighborPlan)
    requires
        is_edge(crate::vertex::kind_of(*vertex), edge_name@),
    ensures
        r@ == edge_plan(*vertex, edge_name@),
{
    match vertex {
        Vertex::Work(w) => plan_work_edge(w, edge_name),
        Vertex::Author(a) => plan_author_edge(a, edge_name),
        Vertex::Concept(c) => plan_concept_edge(c, edge_name),
        Vertex::Source(s) => plan_source_edge(s, edge_name),
        Vertex::Institution(i) => plan_institution_edge(i, edge_name),
        Vertex::Publisher(p) => plan_publisher_edge(p, edge_name),
        Vertex::Funder(f) => plan_funder_edge(f, edge_name),
    }
}

/// A pull-driven walk over an identifier plan. Each call of
/// `next_request` hands out exactly one locator and nothing more: the
/// driver performs at most one fetch per element it actually pulls, so a
/// consumer that stops pulling causes no further fetches and a fresh,
/// untouched cursor causes none at all.
#[derive(Clone, Debug)]
pub struct NeighborCursor {
    ids: Vec<String>,
    kind: VertexKind,
    pos: usize,
}

impl NeighborCursor {
    /// The identifiers this cursor walks, in order.
    pub closed spec fn spec_ids(self) -> Seq<Seq<char>> {
        self.ids.deep_view()
    }

    /// The kind every fetched neighbor decodes as.
    pub closed spec fn spec_kind(self) -> VertexKind {
        self.kind
    }

    /// How many locators have been handed out so far.
    pub closed spec fn issued(self) -> nat {
        self.pos as nat
    }

    pub closed spec fn wf(self) -> bool {
        self.pos <= self.ids.len()
    }

    /// A fresh cursor over an identifier list: nothing issued yet.
    pub fn new(ids: Vec<String>, kind: VertexKind) -> (c: NeighborCursor)
        ensures
            c.wf(),
            c.spec_ids() == ids.deep_view(),
            c.spec_kind() == kind,
            c.issued() == 0,
    {
        NeighborCursor { ids, kind, pos: 0 }
    }

    /// The kind to decode fetched neighbors as.
    pub fn target_kind(&self) -> (k: VertexKind)
        ensures
            k == self.spec_kind(),
    {
        self.kind
    }

    /// How many locators are still unissued.
    pub fn remaining(&self) -> (n: usize)
        requires
            self.wf(),
        ensures
            n == self.spec_ids().len() - self.issued(),
    {
        self.ids.len() - self.pos
    }

    /// Hand out the next locator, or nothing when the plan is exhausted.
    /// Exactly one locator leaves per call; a locator never leaves without
    /// a call. This is the pull-driven laziness bound: fetches performed
    /// by the driver never exceed elements pulled.
    pub fn next_request(&mut self) -> (r: Option<String>)
        requires
            old(self).wf(),
        ensures
            final(self).wf(),
            final(self).spec_ids() == old(self).spec_ids(),
            final(self).spec_kind() == old(self).spec_kind(),
            old(self).issued() < old(self).spec_ids().len() ==> {
                &&& r matches Some(u) && u@ == old(self).spec_ids()[old(self).issued() as int]
                &&& final(self).issued() == old(self).issued() + 1
            },
            old(self).issued() >= old(self).spec_ids().len() ==> {
                &&& r is None
                &&& final(self).issued() == old(self).issued()
            },
    {
        if self.pos < self.ids.len() {
            let u = self.ids[self.pos].clone();
            self.pos = self.pos + 1;
            Some(u)
        } else {
            None
        }
    }
}

/// The successful outcomes of an outcome sequence, in order.
pub open spec fn somes_of(s: Seq<Option<Vertex>>) -> Seq<Vertex>
    decreases s.len(),
{
    if s.len() == 0 {
        Seq::empty()
    } else {
        (match s[0] {
            Some(v) => seq![v],
            None => Seq::empty(),
        }) + somes_of(s.drop_first())
    }
}

/// Assemble a row's neighbor sequence from per-identifier fetch outcomes:
/// an outcome per locator, in locator order, `None` where the fetch or
/// decode failed. Each failure drops only its own element -- the
/// survivors keep the source order, and no failure is raised to the
/// caller. Partial success is the normal case, not an error state.
pub fn surviving_neighbors(outcomes: Vec<Option<Vertex>>) -> (r: Vec<Vertex>)
    ensures
        r@ == somes_of(outcomes@),
{
    let ghost orig: Seq<Option<Vertex>> = outcomes@;
    let mut rest = outcomes;
    let mut out: Vec<Vertex> = Vec::new();
    while rest.len() > 0
        invariant
            out@ + somes_of(rest@) == somes_of(orig),
        decreases rest.len(),
    {
        let ghost before: Seq<Option<Vertex>> = rest@;
        let o = rest.remove(0);
        proof {
            assert(rest@ =~= before.drop_first());
        }
        match o {
            Some(v) => {
                out.push(v);
            },
            None => {},
        }
        proof {
            assert(out@ + somes_of(rest@) =~= somes_of(orig));
        }
    }
    proof {
        assert(out@ =~= somes_of(orig));
    }
    out
}

/// Assemble a row's neighbor sequence from a listing-page outcome: the
/// page's entities in upstream order, or nothing when the page fetch
/// failed -- the row itself is never failed.
pub fn page_neighbors(outcome: Option<Vec<Vertex>>) -> (r: Vec<Vertex>)
    ensures
        match outcome {
            Some(page) => r == page,
            None => r@ == Seq::<Vertex>::empty(),
        },
{
    match outcome {
        Some(page) => page,
        None => Vec::new(),
    }
}

} // verus!
