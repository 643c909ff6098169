//! The entity model: the closed set of vertex kinds, the per-kind record
//! shapes mirroring the remote service's resources, and the tagged union
//! `Vertex` with its kind discriminant and narrowing accessors.
//!
//! Every optional remote field is an `Option`: absence is kept as absence,
//! never defaulted. The two-decimal statistics that the remote service
//! reports as fractional numbers are carried as their IEEE 754 bit patterns
//! (`u64`), so that the value is preserved exactly; the surrounding
//! application converts to and from a native float at its own boundary.

use vstd::prelude::*;

verus! {

/// The closed set of entity kinds. Every row carries exactly one.
#[derive(Clone, Copy, Debug, PartialEq, Eq, Structural)]
pub enum VertexKind {
    Work,
    Author,
    Concept,
    Source,
    Institution,
    Publisher,
    Funder,
}

/// The display name of a kind, used for the universal type-name meta-field
/// and for naming kinds in starting-vertex requests.
pub open spec fn kind_name(k: VertexKind) -> Seq<char> {
    match k {
        VertexKind::Work => "Work"@,
        VertexKind::Author => "Author"@,
        VertexKind::Concept => "Concept"@,
        VertexKind::Source => "Source"@,
        VertexKind::Institution => "Institution"@,
        VertexKind::Publisher => "Publisher"@,
        VertexKind::Funder => "Funder"@,
    }
}

/// The lowercase role tag that enables coercion to a kind, drawn from the
/// entity's own role list vocabulary.
pub open spec fn role_tag(k: VertexKind) -> Seq<char> {
    match k {
        VertexKind::Work => "work"@,
        VertexKind::Author => "author"@,
        VertexKind::Concept => "concept"@,
        VertexKind::Source => "source"@,
        VertexKind::Institution => "institution"@,
        VertexKind::Publisher => "publisher"@,
        VertexKind::Funder => "funder"@,
    }
}

/// A page of entities as the remote service lists them, together with the
/// pagination metadata the listing envelope carries.
#[derive(Clone, Debug)]
pub struct FilteredVertices<T> {
    pub results: Vec<T>,
    pub meta: MetaData,
}

/// Pagination metadata of a listing response.
#[derive(Clone, Copy, Debug)]
pub struct MetaData {
    pub count: u32,
    pub db_response_time_ms: u32,
    pub page: u32,
    pub per_page: u32,
}

/// The common header shared by all seven kinds: stable identifier, display
/// name, external-identifier bundle, citation count, timestamps, and the
/// yearly citation-count series.
#[derive(Clone, Debug, PartialEq)]
pub struct OpenAlexObject {
    pub cited_by_count: u32,
    pub counts_by_year: Vec<YearCount>,
    pub created_date: String,
    pub display_name: String,
    pub id: String,
    pub ids: IDObject,
    pub updated_date: String,
}

/// The external-identifier bundle of the common header.
#[derive(Clone, Debug, PartialEq)]
pub struct IDObject {
    pub doi: Option<String>,
    pub mag: Option<String>,
    pub openalex: Option<String>,
    pub pmid: Option<String>,
    pub pmcid: Option<String>,
}

/// A fully resolved work (an article, book, dataset...).
#[derive(Clone, Debug, PartialEq)]
pub struct Work {
    pub object: OpenAlexObject,
    pub abstract_inverted_index: Option<String>,
    pub authorships: Vec<Authorship>,
    pub apc_list: Option<Payment>,
    pub apc_paid: Option<Payment>,
    pub best_oa_location: Option<Location>,
    pub biblio: Option<Biblio>,
    pub cited_by_api_url: String,
    pub concepts: Vec<DehydratedConcept>,
    pub corresponding_author_ids: Vec<String>,
    pub corresponding_institution_ids: Vec<String>,
    pub doi: Option<String>,
    pub grants: Vec<Grant>,
    pub institutions_distinct_count: Option<u16>,
    pub is_oa: Option<bool>,
    pub is_paratext: Option<bool>,
    pub is_retracted: Option<bool>,
    pub language: Option<String>,
    pub license: Option<String>,
    pub locations: Vec<Location>,
    pub locations_count: Option<u16>,
    pub mesh: Vec<Mesh>,
    pub ngrams_url: Option<String>,
    pub open_access: Option<OpenAccess>,
    pub primary_location: Option<Location>,
    pub publication_date: Option<String>,
    pub publication_year: Option<u16>,
    pub referenced_works: Vec<String>,
    pub related_works: Vec<String>,
    pub sustainable_development_goals: Vec<SustainableObject>,
    pub title: Option<String>,
    pub ttype: Option<String>,
    pub type_crossref: Option<String>,
}

/// One author entry of a work, seeding the author edge.
#[derive(Clone, Debug, PartialEq)]
pub struct Authorship {
    pub author_position: Option<String>,
    pub author: DehydratedAuthor,
    pub institutions: Vec<DehydratedInstitution>,
    pub countries: Vec<String>,
    pub is_corresponding: Option<bool>,
    pub raw_affiliation_string: Option<String>,
}

/// An article-processing-charge record.
#[derive(Clone, Debug, PartialEq)]
pub struct Payment {
    pub value: Option<u32>,
    pub currency: Option<String>,
    pub provenance: Option<String>,
    pub value_usd: Option<u32>,
}

/// Bibliographic placement of a work within its venue.
#[derive(Clone, Debug, PartialEq)]
pub struct Biblio {
    pub volume: Option<String>,
    pub issue: Option<String>,
    pub first_page: Option<String>,
    pub last_page: Option<String>,
}

/// One entry of the yearly citation-count series.
#[derive(Clone, Debug, PartialEq)]
pub struct YearCount {
    pub year: u16,
    pub works_count: Option<u32>,
    pub cited_by_count: u32,
}

/// A funding record of a work; `funder` is the funder's identifier.
#[derive(Clone, Debug, PartialEq)]
pub struct Grant {
    pub funder: String,
    pub funder_display_name: String,
    pub award_id: Option<String>,
}

/// One place a work can be read, with its open-access details.
#[derive(Clone, Debug, PartialEq)]
pub struct Location {
    pub is_accepted: Option<bool>,
    pub is_oa: Option<bool>,
    pub is_published: Option<bool>,
    pub landing_page_url: Option<String>,
    pub license: Option<String>,
    pub source: Option<DehydratedSource>,
    pub pdf_url: Option<String>,
    pub version: Option<String>,
}

/// A medical-subject-heading tag of a work.
#[derive(Clone, Debug, PartialEq)]
pub struct Mesh {
    pub descriptor_ui: Option<String>,
    pub descriptor_name: Option<String>,
    pub qualifier_ui: Option<String>,
    pub qualifier_name: Option<String>,
    pub is_major_topic: Option<bool>,
}

/// The open-access status block of a work.
#[derive(Clone, Debug, PartialEq)]
pub struct OpenAccess {
    pub is_oa: Option<bool>,
    pub oa_status: Option<String>,
    pub oa_url: Option<String>,
    pub any_repository_has_fulltext: Option<bool>,
}

/// A sustainable-development-goal tag of a work.
#[derive(Clone, Debug, PartialEq)]
pub struct SustainableObject {
    id: Option<String>,
    display_name: Option<String>,
    score: Option<u16>,
}

impl SustainableObject {
    pub fn new(id: Option<String>, display_name: Option<String>, score: Option<u16>)
        -> SustainableObject
    {
        SustainableObject { id, display_name, score }
    }
}

/// A fully resolved author.
#[derive(Clone, Debug, PartialEq)]
pub struct Author {
    pub object: OpenAlexObject,
    pub display_name_alternatives: Vec<String>,
    pub last_known_institution: Option<DehydratedInstitution>,
    pub orcid: Option<String>,
    pub summary_stats: Option<SummaryStats>,
    pub works_api_url: String,
    pub works_count: Option<u32>,
}

/// Citation statistics shared by several kinds. `two_year_mean_citedness`
/// is the IEEE 754 bit pattern of the fractional statistic.
#[derive(Clone, Copy, Debug, PartialEq, Eq, Structural)]
pub struct SummaryStats {
    pub two_year_mean_citedness: Option<u64>,
    pub h_index: Option<u32>,
    pub i10_index: Option<u32>,
}

/// A dehydrated author reference embedded in a work's authorship list.
#[derive(Clone, Debug, PartialEq)]
pub struct DehydratedAuthor {
    pub id: String,
    pub display_name: String,
    pub orcid: Option<String>,
}

/// A fully resolved concept.
#[derive(Clone, Debug, PartialEq)]
pub struct Concept {
    pub ancestors: Vec<DehydratedConcept>,
    pub object: OpenAlexObject,
    pub description: Option<String>,
    pub image_thumbnail_url: Option<String>,
    pub image_url: Option<String>,
    pub level: Option<u16>,
    pub related_concepts: Vec<DehydratedConcept>,
    pub summary_stats: Option<SummaryStats>,
    pub wikidata: Option<String>,
    pub works_api_url: String,
    pub works_count: Option<u32>,
}

/// A dehydrated concept reference. `score` is the IEEE 754 bit pattern of
/// the fractional relevance score.
#[derive(Clone, Debug, PartialEq)]
pub struct DehydratedConcept {
    pub id: String,
    pub wikidata: Option<String>,
    pub display_name: String,
    pub level: u16,
    pub score: u64,
}

/// A fully resolved source (venue).
#[derive(Clone, Debug, PartialEq)]
pub struct Source {
    pub object: OpenAlexObject,
    pub abreviated_title: Option<String>,
    pub alternative_titles: Vec<String>,
    pub apc_payment: Vec<Price>,
    pub apc_usd: Option<u16>,
    pub country_code: Option<String>,
    pub homepage_url: Option<String>,
    pub host_organization: Option<String>,
    pub host_organization_lineage: Vec<String>,
    pub host_organization_name: Option<String>,
    pub is_in_doaj: Option<bool>,
    pub is_oa: Option<bool>,
    pub issn: Vec<String>,
    pub issn_l: Option<String>,
    pub societies: Vec<Society>,
    pub summary_stats: Option<SummaryStats>,
    pub ttype: Option<String>,
    pub works_api_url: String,
    pub works_count: Option<u32>,
}

/// One article-processing-charge price of a source.
#[derive(Clone, Debug, PartialEq)]
pub struct Price {
    pub price: u16,
    pub currency: String,
}

/// A society affiliated with a source.
#[derive(Clone, Debug, PartialEq)]
pub struct Society {
    pub url: String,
    pub organization: String,
}

/// A dehydrated source reference.
#[derive(Clone, Debug, PartialEq)]
pub struct DehydratedSource {
    pub id: String,
    pub display_name: String,
    pub issn_l: Option<String>,
    pub issn: Vec<String>,
    pub host_organization: Option<String>,
    pub ttype: Option<String>,
}

/// A fully resolved institution.
#[derive(Clone, Debug, PartialEq)]
pub struct Institution {
    pub object: OpenAlexObject,
    pub associated_institutions: Vec<DehydratedInstitution>,
    pub display_name_alternatives: Vec<String>,
    pub display_name_acronyms: Vec<String>,
    pub country_code: Option<String>,
    pub geo: Option<Geo>,
    pub homepage_url: String,
    pub image_thumbnail_url: Option<String>,
    pub image_url: Option<String>,
    pub repositories: Vec<DehydratedSource>,
    pub roles: Vec<Role>,
    pub ror: Option<String>,
    pub summary_stats: Option<SummaryStats>,
    pub ttype: Option<String>,
    pub works_api_url: String,
    pub works_count: Option<u32>,
}

/// A dehydrated institution reference.
#[derive(Clone, Debug, PartialEq)]
pub struct DehydratedInstitution {
    pub id: String,
    pub display_name: String,
    pub ror: Option<String>,
    pub country_code: Option<String>,
    pub ttype: Option<String>,
}

/// One entry of an entity's role list: a role tag plus the identifier of
/// the entity that plays the role. The role list drives cross-kind
/// coercion and role-indirected neighbor lookup.
#[derive(Clone, Debug, PartialEq)]
pub struct Role {
    pub role: String,
    pub id: String,
    pub works_count: u32,
}

/// Geographic location of an institution.
#[derive(Clone, Debug, PartialEq)]
pub struct Geo {
    pub city: Option<String>,
    pub geonames_city_id: Option<String>,
    pub region: Option<String>,
    pub country_code: Option<String>,
    pub country: Option<String>,
    pub latitude: Option<i32>,
    pub longitude: Option<i32>,
}

/// A fully resolved publisher.
#[derive(Clone, Debug, PartialEq)]
pub struct Publisher {
    pub object: OpenAlexObject,
    pub alternative_titles: Vec<String>,
    pub country_codes: Vec<String>,
    pub hierarchy_level: Option<u16>,
    pub image_thumbnail_url: Option<String>,
    pub image_url: Option<String>,
    pub lineage: Vec<String>,
    pub parent_publisher: Option<String>,
    pub roles: Vec<Role>,
    pub sources_api_url: String,
    pub summary_stats: Option<SummaryStats>,
    pub works_count: Option<u32>,
}

/// A fully resolved funder.
#[derive(Clone, Debug, PartialEq)]
pub struct Funder {
    pub object: OpenAlexObject,
    pub alternative_titles: Vec<String>,
    pub country_code: Option<String>,
    pub description: Option<String>,
    pub grants_count: Option<u32>,
    pub homepage_url: Option<String>,
    pub image_thumbnail_url: Option<String>,
    pub image_url: Option<String>,
    pub roles: Vec<Role>,
    pub summary_stats: Option<SummaryStats>,
    pub works_count: Option<u32>,
}

/// The tagged union over the seven kinds: every resolved entity is exactly
/// one of these, never partially typed.
#[derive(Clone, Debug, PartialEq)]
pub enum Vertex {
    Work(Work),
    Author(Author),
    Concept(Concept),
    Source(Source),
    Institution(Institution),
    Publisher(Publisher),
    Funder(Funder),
}

/// The kind discriminant of a vertex.
pub open spec fn kind_of(v: Vertex) -> VertexKind {
    match v {
        Vertex::Work(_) => VertexKind::Work,
        Vertex::Author(_) => VertexKind::Author,
        Vertex::Concept(_) => VertexKind::Concept,
        Vertex::Source(_) => VertexKind::Source,
        Vertex::Institution(_) => VertexKind::Institution,
        Vertex::Publisher(_) => VertexKind::Publisher,
        Vertex::Funder(_) => VertexKind::Funder,
    }
}

impl Vertex {
    /// The kind's display name; depends on the discriminant alone, never on
    /// the entity's data content.
    pub fn typename<'a>(&self) -> (r: &'a str)
        ensures
            r@ == kind_name(kind_of(*self)),
    {
        match self {
            Vertex::Work(..) => "Work",
            Vertex::Author(..) => "Author",
            Vertex::Concept(..) => "Concept",
            Vertex::Source(..) => "Source",
            Vertex::Institution(..) => "Institution",
            Vertex::Publisher(..) => "Publisher",
            Vertex::Funder(..) => "Funder",
        }
    }

    /// Narrow to a work view; absent exactly when the vertex is of another
    /// kind.
    pub fn as_work(&self) -> (r: Option<&Work>)
        ensures
            match *self {
                Vertex::Work(w) => r matches Some(rw) && *rw == w,
                _ => r is None,
            },
    {
        match self {
            Vertex::Work(work) => Some(work),
            _ => None,
        }
    }

    /// Narrow to an author view; absent exactly when the vertex is of
    /// another kind.
    pub fn as_author(&self) -> (r: Option<&Author>)
        ensures
            match *self {
                Vertex::Author(a) => r matches Some(ra) && *ra == a,
                _ => r is None,
            },
    {
        match self {
            Vertex::Author(author) => Some(author),
            _ => None,
        }
    }

    /// Narrow to a concept view; absent exactly when the vertex is of
    /// another kind.
    pub fn as_concept(&self) -> (r: Option<&Concept>)
        ensures
            match *self {
                Vertex::Concept(c) => r matches Some(rc) && *rc == c,
                _ => r is None,
            },
    {
        match self {
            Vertex::Concept(concept) => Some(concept),
            _ => None,
        }
    }

    /// Narrow to a source view; absent exactly when the vertex is of
    /// another kind.
    pub fn as_source(&self) -> (r: Option<&Source>)
        ensures
            match *self {
                Vertex::Source(s) => r matches Some(rs) && *rs == s,
                _ => r is None,
            },
    {
        match self {
            Vertex::Source(source) => Some(source),
            _ => None,
        }
    }

    /// Narrow to an institution view; absent exactly when the vertex is of
    /// another kind.
    pub fn as_institution(&self) -> (r: Option<&Institution>)
        ensures
            match *self {
                Vertex::Institution(i) => r matches Some(ri) && *ri == i,
                _ => r is None,
            },
    {
        match self {
            Vertex::Institution(institution) => Some(institution),
            _ => None,
        }
    }

    /// Narrow to a publisher view; absent exactly when the vertex is of
    /// another kind.
    pub fn as_publisher(&self) -> (r: Option<&Publisher>)
        ensures
            match *self {
                Vertex::Publisher(p) => r matches Some(rp) && *rp == p,
                _ => r is None,
            },
    {
        match self {
            Vertex::Publisher(publisher) => Some(publisher),
            _ => None,
        }
    }

    /// Narrow to a funder view; absent exactly when the vertex is of
    /// another kind.
    pub fn as_funder(&self) -> (r: Option<&Funder>)
        ensures
            match *self {
                Vertex::Funder(f) => r matches Some(rf) && *rf == f,
                _ => r is None,
            },
    {
        match self {
            Vertex::Funder(funder) => Some(funder),
            _ => None,
        }
    }
}

/// The type-name meta-field and the role vocabulary depend on the kind
/// discriminant alone: two vertices of one kind always share one type name.
pub proof fn lemma_typename_depends_on_kind_only(v1: Vertex, v2: Vertex)
    requires
        kind_of(v1) == kind_of(v2),
    ensures
        kind_name(kind_of(v1)) == kind_name(kind_of(v2)),
{
}

} // verus!
