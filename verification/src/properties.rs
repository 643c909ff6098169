//! The property resolver: maps (entity kind, field name) to the value
//! extracted from an already-resolved entity.
//!
//! Each kind has a fixed field table; asking for a field outside the table
//! is a dispatch error, distinct from the non-fatal absence of data. A
//! nested optional structure is unwrapped first: when the structure itself
//! is absent, every property derived from it is `Null` (chained absence,
//! never a default). List-shaped fields are rendered entry by entry with a
//! fixed template and returned in upstream order.

use vstd::pervasive::unreached;
use vstd::prelude::*;

use crate::field_value::{
    opt_bool, opt_float_bits, opt_i32, opt_text, opt_u16, opt_u32, text, text_list, FieldValue,
    FieldValueView,
};
use crate::text::{dec_digits, str_eq, u16_to_dec};
use crate::vertex::{
    kind_of, Author, Concept, Funder, Institution, OpenAlexObject, Price, Publisher, Society,
    Source, SummaryStats, Vertex, VertexKind, Work,
};

verus! {

/// The fields of the common header, shared by all seven kinds.
pub open spec fn is_common_field(f: Seq<char>) -> bool {
    ||| f == "cited_by_count"@
    ||| f == "created_date"@
    ||| f == "display_name"@
    ||| f == "id"@
    ||| f == "ids_doi"@
    ||| f == "ids_mag"@
    ||| f == "ids_openalex"@
    ||| f == "ids_pmid"@
    ||| f == "ids_pmcid"@
    ||| f == "updated_date"@
}

/// The value of a common-header field.
pub open spec fn common_property(o: OpenAlexObject, f: Seq<char>) -> FieldValueView {
    if f == "cited_by_count"@ {
        FieldValueView::Uint64(o.cited_by_count as u64)
    } else if f == "created_date"@ {
        text(o.created_date)
    } else if f == "display_name"@ {
        text(o.display_name)
    } else if f == "id"@ {
        text(o.id)
    } else if f == "ids_doi"@ {
        opt_text(o.ids.doi)
    } else if f == "ids_mag"@ {
        opt_text(o.ids.mag)
    } else if f == "ids_openalex"@ {
        opt_text(o.ids.openalex)
    } else if f == "ids_pmid"@ {
        opt_text(o.ids.pmid)
    } else {
        opt_text(o.ids.pmcid)
    }
}

/// Extract a common-header field.
fn get_common_property(o: &OpenAlexObject, field_name: &str) -> (v: FieldValue)
    requires
        is_common_field(field_name@),
    ensures
        v@ == common_property(*o, field_name@),
{
    if str_eq(field_name, "cited_by_count") {
        FieldValue::Uint64(o.cited_by_count as u64)
    } else if str_eq(field_name, "created_date") {
        FieldValue::from_text(&o.created_date)
    } else if str_eq(field_name, "display_name") {
        FieldValue::from_text(&o.display_name)
    } else if str_eq(field_name, "id") {
        FieldValue::from_text(&o.id)
    } else if str_eq(field_name, "ids_doi") {
        FieldValue::from_opt_text(&o.ids.doi)
    } else if str_eq(field_name, "ids_mag") {
        FieldValue::from_opt_text(&o.ids.mag)
    } else if str_eq(field_name, "ids_openalex") {
        FieldValue::from_opt_text(&o.ids.openalex)
    } else if str_eq(field_name, "ids_pmid") {
        FieldValue::from_opt_text(&o.ids.pmid)
    } else {
        FieldValue::from_opt_text(&o.ids.pmcid)
    }
}

/// The value of an optional summary-statistics sub-field: absent statistics
/// make every derived property `Null`.
pub open spec fn stats_mean_citedness(o: Option<SummaryStats>) -> FieldValueView {
    match o {
        Some(s) => opt_float_bits(s.two_year_mean_citedness),
        None => FieldValueView::Null,
    }
}

pub open spec fn stats_h_index(o: Option<SummaryStats>) -> FieldValueView {
    match o {
        Some(s) => opt_u32(s.h_index),
        None => FieldValueView::Null,
    }
}

pub open spec fn stats_i10_index(o: Option<SummaryStats>) -> FieldValueView {
    match o {
        Some(s) => opt_u32(s.i10_index),
        None => FieldValueView::Null,
    }
}

fn get_stats_mean_citedness(o: &Option<SummaryStats>) -> (v: FieldValue)
    ensures
        v@ == stats_mean_citedness(*o),
{
    match o {
        Some(s) => FieldValue::from_opt_float_bits(&s.two_year_mean_citedness),
        None => FieldValue::Null,
    }
}

fn get_stats_h_index(o: &Option<SummaryStats>) -> (v: FieldValue)
    ensures
        v@ == stats_h_index(*o),
{
    match o {
        Some(s) => FieldValue::from_opt_u32(&s.h_index),
        None => FieldValue::Null,
    }
}

fn get_stats_i10_index(o: &Option<SummaryStats>) -> (v: FieldValue)
    ensures
        v@ == stats_i10_index(*o),
{
    match o {
        Some(s) => FieldValue::from_opt_u32(&s.i10_index),
        None => FieldValue::Null,
    }
}

/// The fields of the work table, the common header included.
pub open spec fn is_work_field(f: Seq<char>) -> bool {
    ||| is_common_field(f)
    ||| f == "abstract_text"@
    ||| f == "apc_list_value"@
    ||| f == "apc_list_currency"@
    ||| f == "apc_list_provenance"@
    ||| f == "apc_list_value_usd"@
    ||| f == "apc_payment_value"@
    ||| f == "apc_payment_currency"@
    ||| f == "apc_payment_provenance"@
    ||| f == "apc_payment_value_usd"@
    ||| f == "best_oa_location_is_oa"@
    ||| f == "best_oa_location_landing_page_url"@
    ||| f == "best_oa_location_license"@
    ||| f == "best_oa_location_pdf_url"@
    ||| f == "best_oa_location_version"@
    ||| f == "biblio_volume"@
    ||| f == "biblio_issue"@
    ||| f == "biblio_first_page"@
    ||| f == "biblio_last_page"@
    ||| f == "doi"@
    ||| f == "is_paratext"@
    ||| f == "is_retracted"@
    ||| f == "language"@
    ||| f == "open_access_is_oa"@
    ||| f == "open_access_oa_status"@
    ||| f == "open_access_oa_url"@
    ||| f == "open_access_fulltext"@
    ||| f == "publication_date"@
    ||| f == "publication_year"@
    ||| f == "referenced_works"@
    ||| f == "related_works"@
    ||| f == "title"@
    ||| f == "ttype"@
    ||| f == "is_oa"@
    ||| f == "license"@
}

/// The value of a work field.
pub open spec fn work_property(w: Work, f: Seq<char>) -> FieldValueView {
    if is_common_field(f) {
        common_property(w.object, f)
    } else if f == "abstract_text"@ {
        opt_text(w.abstract_inverted_index)
    } else if f == "apc_list_value"@ {
        match w.apc_list {
            Some(p) => opt_u32(p.value),
            None => FieldValueView::Null,
        }
    } else if f == "apc_list_currency"@ {
        match w.apc_list {
            Some(p) => opt_text(p.currency),
            None => FieldValueView::Null,
        }
    } else if f == "apc_list_provenance"@ {
        match w.apc_list {
            Some(p) => opt_text(p.provenance),
            None => FieldValueView::Null,
        }
    } else if f == "apc_list_value_usd"@ {
        match w.apc_list {
            Some(p) => opt_u32(p.value_usd),
            None => FieldValueView::Null,
        }
    } else if f == "apc_payment_value"@ {
        match w.apc_paid {
            Some(p) => opt_u32(p.value),
            None => FieldValueView::Null,
        }
    } else if f == "apc_payment_currency"@ {
        match w.apc_paid {
            Some(p) => opt_text(p.currency),
            None => FieldValueView::Null,
        }
    } else if f == "apc_payment_provenance"@ {
        match w.apc_paid {
            Some(p) => opt_text(p.provenance),
            None => FieldValueView::Null,
        }
    } else if f == "apc_payment_value_usd"@ {
        match w.apc_paid {
            Some(p) => opt_u32(p.value_usd),
            None => FieldValueView::Null,
        }
    } else if f == "best_oa_location_is_oa"@ {
        match w.best_oa_location {
            Some(l) => opt_bool(l.is_oa),
            None => FieldValueView::Null,
        }
    } else if f == "best_oa_location_landing_page_url"@ {
        match w.best_oa_location {
            Some(l) => opt_text(l.landing_page_url),
            None => FieldValueView::Null,
        }
    } else if f == "best_oa_location_license"@ {
        match w.best_oa_location {
            Some(l) => opt_text(l.license),
            None => FieldValueView::Null,
        }
    } else if f == "best_oa_location_pdf_url"@ {
        match w.best_oa_location {
            Some(l) => opt_text(l.pdf_url),
            None => FieldValueView::Null,
        }
    } else if f == "best_oa_location_version"@ {
        match w.best_oa_location {
            Some(l) => opt_text(l.version),
            None => FieldValueView::Null,
        }
    } else if f == "biblio_volume"@ {
        match w.biblio {
            Some(b) => opt_text(b.volume),
            None => FieldValueView::Null,
        }
    } else if f == "biblio_issue"@ {
        match w.biblio {
            Some(b) => opt_text(b.issue),
            None => FieldValueView::Null,
        }
    } else if f == "biblio_first_page"@ {
        match w.biblio {
            Some(b) => opt_text(b.first_page),
            None => FieldValueView::Null,
        }
    } else if f == "biblio_last_page"@ {
        match w.biblio {
            Some(b) => opt_text(b.last_page),
            None => FieldValueView::Null,
        }
    } else if f == "doi"@ {
        opt_text(w.doi)
    } else if f == "is_paratext"@ {
        opt_bool(w.is_paratext)
    } else if f == "is_retracted"@ {
        opt_bool(w.is_retracted)
    } else if f == "language"@ {
        opt_text(w.language)
    } else if f == "open_access_is_oa"@ {
        match w.open_access {
            Some(oa) => opt_bool(oa.is_oa),
            None => FieldValueView::Null,
        }
    } else if f == "open_access_oa_status"@ {
        match w.open_access {
            Some(oa) => opt_text(oa.oa_status),
            None => FieldValueView::Null,
        }
    } else if f == "open_access_oa_url"@ {
        match w.open_access {
            Some(oa) => opt_text(oa.oa_url),
            None => FieldValueView::Null,
        }
    } else if f == "open_access_fulltext"@ {
        match w.open_access {
            Some(oa) => opt_bool(oa.any_repository_has_fulltext),
            None => FieldValueView::Null,
        }
    } else if f == "publication_date"@ {
        opt_text(w.publication_date)
    } else if f == "publication_year"@ {
        opt_u16(w.publication_year)
    } else if f == "referenced_works"@ {
        text_list(w.referenced_works)
    } else if f == "related_works"@ {
        text_list(w.related_works)
    } else if f == "title"@ {
        opt_text(w.title)
    } else if f == "ttype"@ {
        opt_text(w.ttype)
    } else if f == "is_oa"@ {
        opt_bool(w.is_oa)
    } else {
        opt_text(w.license)
    }
}

/// Extract a work property. The caller has already dispatched on kind:
/// another kind here is a dispatch bug, as is a field outside the table.
pub fn get_work_property(vertex: &Vertex, field_name: &str) -> (v: FieldValue)
    requires
        kind_of(*vertex) == VertexKind::Work,
        is_work_field(field_name@),
    ensures
        v@ == work_property(vertex->Work_0, field_name@),
{
    let work = match vertex {
        Vertex::Work(w) => w,
        _ => unreached(),
    };
    if str_eq(field_name, "cited_by_count") || str_eq(field_name, "created_date")
        || str_eq(field_name, "display_name") || str_eq(field_name, "id")
        || str_eq(field_name, "ids_doi") || str_eq(field_name, "ids_mag")
        || str_eq(field_name, "ids_openalex") || str_eq(field_name, "ids_pmid")
        || str_eq(field_name, "ids_pmcid") || str_eq(field_name, "updated_date") {
        get_common_property(&work.object, field_name)
    } else if str_eq(field_name, "abstract_text") {
        FieldValue::from_opt_text(&work.abstract_inverted_index)
    } else if str_eq(field_name, "apc_list_value") {
        match &work.apc_list {
            Some(p) => FieldValue::from_opt_u32(&p.value),
            None => FieldValue::Null,
        }
    } else if str_eq(field_name, "apc_list_currency") {
        match &work.apc_list {
            Some(p) => FieldValue::from_opt_text(&p.currency),
            None => FieldValue::Null,
        }
    } else if str_eq(field_name, "apc_list_provenance") {
        match &work.apc_list {
            Some(p) => FieldValue::from_opt_text(&p.provenance),
            None => FieldValue::Null,
        }
    } else if str_eq(field_name, "apc_list_value_usd") {
        match &work.apc_list {
            Some(p) => FieldValue::from_opt_u32(&p.value_usd),
            None => FieldValue::Null,
        }
    } else if str_eq(field_name, "apc_payment_value") {
        match &work.apc_paid {
            Some(p) => FieldValue::from_opt_u32(&p.value),
            None => FieldValue::Null,
        }
    } else if str_eq(field_name, "apc_payment_currency") {
        match &work.apc_paid {
            Some(p) => FieldValue::from_opt_text(&p.currency),
            None => FieldValue::Null,
        }
    } else if str_eq(field_name, "apc_payment_provenance") {
        match &work.apc_paid {
            Some(p) => FieldValue::from_opt_text(&p.provenance),
            None => FieldValue::Null,
        }
    } else if str_eq(field_name, "apc_payment_value_usd") {
        match &work.apc_paid {
            Some(p) => FieldValue::from_opt_u32(&p.value_usd),
            None => FieldValue::Null,
        }
    } else if str_eq(field_name, "best_oa_location_is_oa") {
        match &work.best_oa_location {
            Some(l) => FieldValue::from_opt_bool(&l.is_oa),
            None => FieldValue::Null,
        }
    } else if str_eq(field_name, "best_oa_location_landing_page_url") {
        match &work.best_oa_location {
            Some(l) => FieldValue::from_opt_text(&l.landing_page_url),
            None => FieldValue::Null,
        }
    } else if str_eq(field_name, "best_oa_location_license") {
        match &work.best_oa_location {
            Some(l) => FieldValue::from_opt_text(&l.license),
            None => FieldValue::Null,
        }
    } else if str_eq(field_name, "best_oa_location_pdf_url") {
        match &work.best_oa_location {
            Some(l) => FieldValue::from_opt_text(&l.pdf_url),
            None => FieldValue::Null,
        }
    } else if str_eq(field_name, "best_oa_location_version") {
        match &work.best_oa_location {
            Some(l) => FieldValue::from_opt_text(&l.version),
            None => FieldValue::Null,
        }
    } else if str_eq(field_name, "biblio_volume") {
        match &work.biblio {
            Some(b) => FieldValue::from_opt_text(&b.volume),
            None => FieldValue::Null,
        }
    } else if str_eq(field_name, "biblio_issue") {
        match &work.biblio {
            Some(b) => FieldValue::from_opt_text(&b.issue),
            None => FieldValue::Null,
        }
    } else if str_eq(field_name, "biblio_first_page") {
        match &work.biblio {
            Some(b) => FieldValue::from_opt_text(&b.first_page),
            None => FieldValue::Null,
        }
    } else if str_eq(field_name, "biblio_last_page") {
        match &work.biblio {
            Some(b) => FieldValue::from_opt_text(&b.last_page),
            None => FieldValue::Null,
        }
    } else if str_eq(field_name, "doi") {
        FieldValue::from_opt_text(&work.doi)
    } else if str_eq(field_name, "is_paratext") {
        FieldValue::from_opt_bool(&work.is_paratext)
    } else if str_eq(field_name, "is_retracted") {
        FieldValue::from_opt_bool(&work.is_retracted)
    } else if str_eq(field_name, "language") {
        FieldValue::from_opt_text(&work.language)
    } else if str_eq(field_name, "open_access_is_oa") {
        match &work.open_access {
            Some(oa) => FieldValue::from_opt_bool(&oa.is_oa),
            None => FieldValue::Null,
        }
    } else if str_eq(field_name, "open_access_oa_status") {
        match &work.open_access {
            Some(oa) => FieldValue::from_opt_text(&oa.oa_status),
            None => FieldValue::Null,
        }
    } else if str_eq(field_name, "open_access_oa_url") {
        match &work.open_access {
            Some(oa) => FieldValue::from_opt_text(&oa.oa_url),
            None => FieldValue::Null,
        }
    } else if str_eq(field_name, "open_access_fulltext") {
        match &work.open_access {
            Some(oa) => FieldValue::from_opt_bool(&oa.any_repository_has_fulltext),
            None => FieldValue::Null,
        }
    } else if str_eq(field_name, "publication_date") {
        FieldValue::from_opt_text(&work.publication_date)
    } else if str_eq(field_name, "publication_year") {
        FieldValue::from_opt_u16(&work.publication_year)
    } else if str_eq(field_name, "referenced_works") {
        FieldValue::from_text_list(&work.referenced_works)
    } else if str_eq(field_name, "related_works") {
        FieldValue::from_text_list(&work.related_works)
    } else if str_eq(field_name, "title") {
        FieldValue::from_opt_text(&work.title)
    } else if str_eq(field_name, "ttype") {
        FieldValue::from_opt_text(&work.ttype)
    } else if str_eq(field_name, "is_oa") {
        FieldValue::from_opt_bool(&work.is_oa)
    } else {
        FieldValue::from_opt_text(&work.license)
    }
}

/// Whether the field is in the common header.
fn common_field_in_table(field_name: &str) -> (r: bool)
    ensures
        r == is_common_field(field_name@),
{
    str_eq(field_name, "cited_by_count") || str_eq(field_name, "created_date")
        || str_eq(field_name, "display_name") || str_eq(field_name, "id")
        || str_eq(field_name, "ids_doi") || str_eq(field_name, "ids_mag")
        || str_eq(field_name, "ids_openalex") || str_eq(field_name, "ids_pmid")
        || str_eq(field_name, "ids_pmcid") || str_eq(field_name, "updated_date")
}

/// Whether the field is in the kind's fixed table. Asking for a field
/// outside the table is a dispatch error, never a data condition.
pub open spec fn is_kind_field(k: VertexKind, f: Seq<char>) -> bool {
    match k {
        VertexKind::Work => is_work_field(f),
        VertexKind::Author => is_author_field(f),
        VertexKind::Concept => is_concept_field(f),
        VertexKind::Source => is_source_field(f),
        VertexKind::Institution => is_institution_field(f),
        VertexKind::Publisher => is_publisher_field(f),
        VertexKind::Funder => is_funder_field(f),
    }
}

/// Check a field name against the kind's fixed table.
pub fn field_in_table(k: VertexKind, field_name: &str) -> (r: bool)
    ensures
        r == is_kind_field(k, field_name@),
{
    if common_field_in_table(field_name) {
        return true;
    }
    match k {
        VertexKind::Work => {
            str_eq(field_name, "abstract_text") || str_eq(field_name, "apc_list_value")
                || str_eq(field_name, "apc_list_currency")
                || str_eq(field_name, "apc_list_provenance")
                || str_eq(field_name, "apc_list_value_usd")
                || str_eq(field_name, "apc_payment_value")
                || str_eq(field_name, "apc_payment_currency")
                || str_eq(field_name, "apc_payment_provenance")
                || str_eq(field_name, "apc_payment_value_usd")
                || str_eq(field_name, "best_oa_location_is_oa")
                || str_eq(field_name, "best_oa_location_landing_page_url")
                || str_eq(field_name, "best_oa_location_license")
                || str_eq(field_name, "best_oa_location_pdf_url")
                || str_eq(field_name, "best_oa_location_version")
                || str_eq(field_name, "biblio_volume") || str_eq(field_name, "biblio_issue")
                || str_eq(field_name, "biblio_first_page")
                || str_eq(field_name, "biblio_last_page") || str_eq(field_name, "doi")
                || str_eq(field_name, "is_paratext") || str_eq(field_name, "is_retracted")
                || str_eq(field_name, "language") || str_eq(field_name, "open_access_is_oa")
                || str_eq(field_name, "open_access_oa_status")
                || str_eq(field_name, "open_access_oa_url")
                || str_eq(field_name, "open_access_fulltext")
                || str_eq(field_name, "publication_date")
                || str_eq(field_name, "publication_year")
                || str_eq(field_name, "referenced_works") || str_eq(field_name, "related_works")
                || str_eq(field_name, "title") || str_eq(field_name, "ttype")
                || str_eq(field_name, "is_oa") || str_eq(field_name, "license")
        },
        VertexKind::Author => {
            str_eq(field_name, "display_name_alternatives") || str_eq(field_name, "orcid")
                || str_eq(field_name, "summary_stats_mean_citeness")
                || str_eq(field_name, "summary_stats_h_index")
                || str_eq(field_name, "summary_stats_i10_index")
                || str_eq(field_name, "works_count")
        },
        VertexKind::Concept => {
            str_eq(field_name, "description") || str_eq(field_name, "image_thumbnail_url")
                || str_eq(field_name, "image_url") || str_eq(field_name, "level")
                || str_eq(field_name, "summary_stats_mean_citeness")
                || str_eq(field_name, "summary_stats_h_index")
                || str_eq(field_name, "summary_stats_i10_index")
                || str_eq(field_name, "wikidata") || str_eq(field_name, "works_count")
        },
        VertexKind::Source => {
            str_eq(field_name, "abreviated_title") || str_eq(field_name, "alternative_titles")
                || str_eq(field_name, "apc_payment") || str_eq(field_name, "apc_usd")
                || str_eq(field_name, "country_code") || str_eq(field_name, "homepage_url")
                || str_eq(field_name, "host_organization_name")
                || str_eq(field_name, "is_in_doaj") || str_eq(field_name, "is_oa")
                || str_eq(field_name, "issn") || str_eq(field_name, "issn_l")
                || str_eq(field_name, "societies")
                || str_eq(field_name, "summary_stats_mean_citeness")
                || str_eq(field_name, "summary_stats_h_index")
                || str_eq(field_name, "summary_stats_i10_index") || str_eq(field_name, "ttype")
                || str_eq(field_name, "works_api_url") || str_eq(field_name, "works_count")
        },
        VertexKind::Institution => {
            str_eq(field_name, "country_codes") || str_eq(field_name, "display_name_alternatives")
                || str_eq(field_name, "geo_city") || str_eq(field_name, "geo_geonames_city_id")
                || str_eq(field_name, "geo_region") || str_eq(field_name, "geo_country_code")
                || str_eq(field_name, "geo_country") || str_eq(field_name, "geo_latitude")
                || str_eq(field_name, "geo_longitude") || str_eq(field_name, "homepage_url")
                || str_eq(field_name, "ror") || str_eq(field_name, "ttype")
                || str_eq(field_name, "summary_stats_mean_citeness")
                || str_eq(field_name, "summary_stats_h_index")
                || str_eq(field_name, "summary_stats_i10_index")
                || str_eq(field_name, "works_count")
        },
        VertexKind::Publisher => {
            str_eq(field_name, "alternative_titles") || str_eq(field_name, "country_codes")
                || str_eq(field_name, "hierarchy_level")
                || str_eq(field_name, "image_thumbnail_url") || str_eq(field_name, "image_url")
                || str_eq(field_name, "summary_stats_mean_citeness")
                || str_eq(field_name, "summary_stats_h_index")
                || str_eq(field_name, "summary_stats_i10_index")
                || str_eq(field_name, "works_count")
        },
        VertexKind::Funder => {
            str_eq(field_name, "alternative_titles") || str_eq(field_name, "country_code")
                || str_eq(field_name, "description") || str_eq(field_name, "grants_count")
                || str_eq(field_name, "homepage_url") || str_eq(field_name, "image_thumbnail_url")
                || str_eq(field_name, "image_url")
                || str_eq(field_name, "summary_stats_mean_citeness")
                || str_eq(field_name, "summary_stats_h_index")
                || str_eq(field_name, "summary_stats_i10_index")
                || str_eq(field_name, "works_count")
        },
    }
}

/// The value of a field out of the kind's table, for an entity of that
/// kind.
pub open spec fn property_value(k: VertexKind, v: Vertex, f: Seq<char>) -> FieldValueView {
    match k {
        VertexKind::Work => work_property(v->Work_0, f),
        VertexKind::Author => author_property(v->Author_0, f),
        VertexKind::Concept => concept_property(v->Concept_0, f),
        VertexKind::Source => source_property(v->Source_0, f),
        VertexKind::Institution => institution_property(v->Institution_0, f),
        VertexKind::Publisher => publisher_property(v->Publisher_0, f),
        VertexKind::Funder => funder_property(v->Funder_0, f),
    }
}

/// Extract a property from an entity of the given kind.
pub fn get_property(k: VertexKind, vertex: &Vertex, field_name: &str) -> (v: FieldValue)
    requires
        kind_of(*vertex) == k,
        is_kind_field(k, field_name@),
    ensures
        v@ == property_value(k, *vertex, field_name@),
{
    match k {
        VertexKind::Work => get_work_property(vertex, field_name),
        VertexKind::Author => get_author_property(vertex, field_name),
        VertexKind::Concept => get_concept_property(vertex, field_name),
        VertexKind::Source => get_source_property(vertex, field_name),
        VertexKind::Institution => get_institution_property(vertex, field_name),
        VertexKind::Publisher => get_publisher_property(vertex, field_name),
        VertexKind::Funder => get_funder_property(vertex, field_name),
    }
}

/// The fixed display template for one price entry: the amount in decimal
/// digits, then ` - `, then the currency.
pub open spec fn price_text(p: Price) -> Seq<char> {
    dec_digits(p.price as nat) + " - "@ + p.currency@
}

/// The fixed display template for one society entry: the URL, then ` - `,
/// then the organization.
pub open spec fn society_text(s: Society) -> Seq<char> {
    s.url@ + " - "@ + s.organization@
}

/// Render one price entry with the fixed template.
fn render_price(p: &Price) -> (r: String)
    ensures
        r@ == price_text(*p),
{
    u16_to_dec(p.price).concat(" - ").concat(p.currency.as_str())
}

/// Render one society entry with the fixed template.
fn render_society(s: &Society) -> (r: String)
    ensures
        r@ == society_text(*s),
{
    s.url.clone().concat(" - ").concat(s.organization.as_str())
}

/// Render every price entry, in upstream order: no reordering, no
/// deduplication.
fn render_prices(prices: &Vec<Price>) -> (r: FieldValue)
    ensures
        r@ == FieldValueView::TextList(Seq::new(prices@.len(), |i: int| price_text(prices@[i]))),
{
    let mut out: Vec<String> = Vec::new();
    let mut i: usize = 0;
    while i < prices.len()
        invariant
            i <= prices.len(),
            out@.len() == i,
            forall|j: int| 0 <= j < i ==> out@[j]@ == price_text(prices@[j]),
        decreases prices.len() - i,
    {
        out.push(render_price(&prices[i]));
        i = i + 1;
    }
    proof {
        assert(out.deep_view() =~= Seq::new(prices@.len(), |i: int| price_text(prices@[i])));
    }
    FieldValue::TextList(out)
}

/// Render every society entry, in upstream order.
fn render_societies(societies: &Vec<Society>) -> (r: FieldValue)
    ensures
        r@ == FieldValueView::TextList(
            Seq::new(societies@.len(), |i: int| society_text(societies@[i])),
        ),
{
    let mut out: Vec<String> = Vec::new();
    let mut i: usize = 0;
    while i < societies.len()
        invariant
            i <= societies.len(),
            out@.len() == i,
            forall|j: int| 0 <= j < i ==> out@[j]@ == society_text(societies@[j]),
        decreases societies.len() - i,
    {
        out.push(render_society(&societies[i]));
        i = i + 1;
    }
    proof {
        assert(out.deep_view() =~= Seq::new(societies@.len(), |i: int| society_text(societies@[i])));
    }
    FieldValue::TextList(out)
}

/// The fields of the author table.
pub open spec fn is_author_field(f: Seq<char>) -> bool {
    ||| is_common_field(f)
    ||| f == "display_name_alternatives"@
    ||| f == "orcid"@
    ||| f == "summary_stats_mean_citeness"@
    ||| f == "summary_stats_h_index"@
    ||| f == "summary_stats_i10_index"@
    ||| f == "works_count"@
}

/// The value of an author field.
pub open spec fn author_property(a: Author, f: Seq<char>) -> FieldValueView {
    if is_common_field(f) {
        common_property(a.object, f)
    } else if f == "display_name_alternatives"@ {
        text_list(a.display_name_alternatives)
    } else if f == "orcid"@ {
        opt_text(a.orcid)
    } else if f == "summary_stats_mean_citeness"@ {
        stats_mean_citedness(a.summary_stats)
    } else if f == "summary_stats_h_index"@ {
        stats_h_index(a.summary_stats)
    } else if f == "summary_stats_i10_index"@ {
        stats_i10_index(a.summary_stats)
    } else {
        opt_u32(a.works_count)
    }
}

/// Extract an author property.
pub fn get_author_property(vertex: &Vertex, field_name: &str) -> (v: FieldValue)
    requires
        kind_of(*vertex) == VertexKind::Author,
        is_author_field(field_name@),
    ensures
        v@ == author_property(vertex->Author_0, field_name@),
{
    let author = match vertex {
        Vertex::Author(a) => a,
        _ => unreached(),
    };
    if str_eq(field_name, "cited_by_count") || str_eq(field_name, "created_date")
        || str_eq(field_name, "display_name") || str_eq(field_name, "id")
        || str_eq(field_name, "ids_doi") || str_eq(field_name, "ids_mag")
        || str_eq(field_name, "ids_openalex") || str_eq(field_name, "ids_pmid")
        || str_eq(field_name, "ids_pmcid") || str_eq(field_name, "updated_date") {
        get_common_property(&author.object, field_name)
    } else if str_eq(field_name, "display_name_alternatives") {
        FieldValue::from_text_list(&author.display_name_alternatives)
    } else if str_eq(field_name, "orcid") {
        FieldValue::from_opt_text(&author.orcid)
    } else if str_eq(field_name, "summary_stats_mean_citeness") {
        get_stats_mean_citedness(&author.summary_stats)
    } else if str_eq(field_name, "summary_stats_h_index") {
        get_stats_h_index(&author.summary_stats)
    } else if str_eq(field_name, "summary_stats_i10_index") {
        get_stats_i10_index(&author.summary_stats)
    } else {
        FieldValue::from_opt_u32(&author.works_count)
    }
}

/// The fields of the source table.
pub open spec fn is_source_field(f: Seq<char>) -> bool {
    ||| is_common_field(f)
    ||| f == "abreviated_title"@
    ||| f == "alternative_titles"@
    ||| f == "apc_payment"@
    ||| f == "apc_usd"@
    ||| f == "country_code"@
    ||| f == "homepage_url"@
    ||| f == "host_organization_name"@
    ||| f == "is_in_doaj"@
    ||| f == "is_oa"@
    ||| f == "issn"@
    ||| f == "issn_l"@
    ||| f == "societies"@
    ||| f == "summary_stats_mean_citeness"@
    ||| f == "summary_stats_h_index"@
    ||| f == "summary_stats_i10_index"@
    ||| f == "ttype"@
    ||| f == "works_api_url"@
    ||| f == "works_count"@
}

/// The value of a source field.
pub open spec fn source_property(s: Source, f: Seq<char>) -> FieldValueView {
    if is_common_field(f) {
        common_property(s.object, f)
    } else if f == "abreviated_title"@ {
        opt_text(s.abreviated_title)
    } else if f == "alternative_titles"@ {
        text_list(s.alternative_titles)
    } else if f == "apc_payment"@ {
        FieldValueView::TextList(Seq::new(s.apc_payment@.len(), |i: int| price_text(s.apc_payment@[i])))
    } else if f == "apc_usd"@ {
        opt_u16(s.apc_usd)
    } else if f == "country_code"@ {
        opt_text(s.country_code)
    } else if f == "homepage_url"@ {
        opt_text(s.homepage_url)
    } else if f == "host_organization_name"@ {
        opt_text(s.host_organization_name)
    } else if f == "is_in_doaj"@ {
        opt_bool(s.is_in_doaj)
    } else if f == "is_oa"@ {
        opt_bool(s.is_oa)
    } else if f == "issn"@ {
        text_list(s.issn)
    } else if f == "issn_l"@ {
        opt_text(s.issn_l)
    } else if f == "societies"@ {
        FieldValueView::TextList(Seq::new(s.societies@.len(), |i: int| society_text(s.societies@[i])))
    } else if f == "summary_stats_mean_citeness"@ {
        stats_mean_citedness(s.summary_stats)
    } else if f == "summary_stats_h_index"@ {
        stats_h_index(s.summary_stats)
    } else if f == "summary_stats_i10_index"@ {
        stats_i10_index(s.summary_stats)
    } else if f == "ttype"@ {
        opt_text(s.ttype)
    } else if f == "works_api_url"@ {
        text(s.works_api_url)
    } else {
        opt_u32(s.works_count)
    }
}

/// Extract a source property.
pub fn get_source_property(vertex: &Vertex, field_name: &str) -> (v: FieldValue)
    requires
        kind_of(*vertex) == VertexKind::Source,
        is_source_field(field_name@),
    ensures
        v@ == source_property(vertex->Source_0, field_name@),
{
    let source = match vertex {
        Vertex::Source(s) => s,
        _ => unreached(),
    };
    if str_eq(field_name, "cited_by_count") || str_eq(field_name, "created_date")
        || str_eq(field_name, "display_name") || str_eq(field_name, "id")
        || str_eq(field_name, "ids_doi") || str_eq(field_name, "ids_mag")
        || str_eq(field_name, "ids_openalex") || str_eq(field_name, "ids_pmid")
        || str_eq(field_name, "ids_pmcid") || str_eq(field_name, "updated_date") {
        get_common_property(&source.object, field_name)
    } else if str_eq(field_name, "abreviated_title") {
        FieldValue::from_opt_text(&source.abreviated_title)
    } else if str_eq(field_name, "alternative_titles") {
        FieldValue::from_text_list(&source.alternative_titles)
    } else if str_eq(field_name, "apc_payment") {
        render_prices(&source.apc_payment)
    } else if str_eq(field_name, "apc_usd") {
        FieldValue::from_opt_u16(&source.apc_usd)
    } else if str_eq(field_name, "country_code") {
        FieldValue::from_opt_text(&source.country_code)
    } else if str_eq(field_name, "homepage_url") {
        FieldValue::from_opt_text(&source.homepage_url)
    } else if str_eq(field_name, "host_organization_name") {
        FieldValue::from_opt_text(&source.host_organization_name)
    } else if str_eq(field_name, "is_in_doaj") {
        FieldValue::from_opt_bool(&source.is_in_doaj)
    } else if str_eq(field_name, "is_oa") {
        FieldValue::from_opt_bool(&source.is_oa)
    } else if str_eq(field_name, "issn") {
        FieldValue::from_text_list(&source.issn)
    } else if str_eq(field_name, "issn_l") {
        FieldValue::from_opt_text(&source.issn_l)
    } else if str_eq(field_name, "societies") {
        render_societies(&source.societies)
    } else if str_eq(field_name, "summary_stats_mean_citeness") {
        get_stats_mean_citedness(&source.summary_stats)
    } else if str_eq(field_name, "summary_stats_h_index") {
        get_stats_h_index(&source.summary_stats)
    } else if str_eq(field_name, "summary_stats_i10_index") {
        get_stats_i10_index(&source.summary_stats)
    } else if str_eq(field_name, "ttype") {
        FieldValue::from_opt_text(&source.ttype)
    } else if str_eq(field_name, "works_api_url") {
        FieldValue::from_text(&source.works_api_url)
    } else {
        FieldValue::from_opt_u32(&source.works_count)
    }
}

/// The fields of the concept table.
pub open spec fn is_concept_field(f: Seq<char>) -> bool {
    ||| is_common_field(f)
    ||| f == "description"@
    ||| f == "image_thumbnail_url"@
    ||| f == "image_url"@
    ||| f == "level"@
    ||| f == "summary_stats_mean_citeness"@
    ||| f == "summary_stats_h_index"@
    ||| f == "summary_stats_i10_index"@
    ||| f == "wikidata"@
    ||| f == "works_count"@
}

/// The value of a concept field.
pub open spec fn concept_property(c: Concept, f: Seq<char>) -> FieldValueView {
    if is_common_field(f) {
        common_property(c.object, f)
    } else if f == "description"@ {
        opt_text(c.description)
    } else if f == "image_thumbnail_url"@ {
        opt_text(c.image_thumbnail_url)
    } else if f == "image_url"@ {
        opt_text(c.image_url)
    } else if f == "level"@ {
        opt_u16(c.level)
    } else if f == "summary_stats_mean_citeness"@ {
        stats_mean_citedness(c.summary_stats)
    } else if f == "summary_stats_h_index"@ {
        stats_h_index(c.summary_stats)
    } else if f == "summary_stats_i10_index"@ {
        stats_i10_index(c.summary_stats)
    } else if f == "wikidata"@ {
        opt_text(c.wikidata)
    } else {
        opt_u32(c.works_count)
    }
}

/// Extract a concept property.
pub fn get_concept_property(vertex: &Vertex, field_name: &str) -> (v: FieldValue)
    requires
        kind_of(*vertex) == VertexKind::Concept,
        is_concept_field(field_name@),
    ensures
        v@ == concept_property(vertex->Concept_0, field_name@),
{
    let concept = match vertex {
        Vertex::Concept(c) => c,
        _ => unreached(),
    };
    if str_eq(field_name, "cited_by_count") || str_eq(field_name, "created_date")
        || str_eq(field_name, "display_name") || str_eq(field_name, "id")
        || str_eq(field_name, "ids_doi") || str_eq(field_name, "ids_mag")
        || str_eq(field_name, "ids_openalex") || str_eq(field_name, "ids_pmid")
        || str_eq(field_name, "ids_pmcid") || str_eq(field_name, "updated_date") {
        get_common_property(&concept.object, field_name)
    } else if str_eq(field_name, "description") {
        FieldValue::from_opt_text(&concept.description)
    } else if str_eq(field_name, "image_thumbnail_url") {
        FieldValue::from_opt_text(&concept.image_thumbnail_url)
    } else if str_eq(field_name, "image_url") {
        FieldValue::from_opt_text(&concept.image_url)
    } else if str_eq(field_name, "level") {
        FieldValue::from_opt_u16(&concept.level)
    } else if str_eq(field_name, "summary_stats_mean_citeness") {
        get_stats_mean_citedness(&concept.summary_stats)
    } else if str_eq(field_name, "summary_stats_h_index") {
        get_stats_h_index(&concept.summary_stats)
    } else if str_eq(field_name, "summary_stats_i10_index") {
        get_stats_i10_index(&concept.summary_stats)
    } else if str_eq(field_name, "wikidata") {
        FieldValue::from_opt_text(&concept.wikidata)
    } else {
        FieldValue::from_opt_u32(&concept.works_count)
    }
}

/// The fields of the institution table.
pub open spec fn is_institution_field(f: Seq<char>) -> bool {
    ||| is_common_field(f)
    ||| f == "country_codes"@
    ||| f == "display_name_alternatives"@
    ||| f == "geo_city"@
    ||| f == "geo_geonames_city_id"@
    ||| f == "geo_region"@
    ||| f == "geo_country_code"@
    ||| f == "geo_country"@
    ||| f == "geo_latitude"@
    ||| f == "geo_longitude"@
    ||| f == "homepage_url"@
    ||| f == "ror"@
    ||| f == "ttype"@
    ||| f == "summary_stats_mean_citeness"@
    ||| f == "summary_stats_h_index"@
    ||| f == "summary_stats_i10_index"@
    ||| f == "works_count"@
}

/// The value of an institution field.
pub open spec fn institution_property(i: Institution, f: Seq<char>) -> FieldValueView {
    if is_common_field(f) {
        common_property(i.object, f)
    } else if f == "country_codes"@ {
        opt_text(i.country_code)
    } else if f == "display_name_alternatives"@ {
        text_list(i.display_name_alternatives)
    } else if f == "geo_city"@ {
        match i.geo {
            Some(g) => opt_text(g.city),
            None => FieldValueView::Null,
        }
    } else if f == "geo_geonames_city_id"@ {
        match i.geo {
            Some(g) => opt_text(g.geonames_city_id),
            None => FieldValueView::Null,
        }
    } else if f == "geo_region"@ {
        match i.geo {
            Some(g) => opt_text(g.region),
            None => FieldValueView::Null,
        }
    } else if f == "geo_country_code"@ {
        match i.geo {
            Some(g) => opt_text(g.country_code),
            None => FieldValueView::Null,
        }
    } else if f == "geo_country"@ {
        match i.geo {
            Some(g) => opt_text(g.country),
            None => FieldValueView::Null,
        }
    } else if f == "geo_latitude"@ {
        match i.geo {
            Some(g) => opt_i32(g.latitude),
            None => FieldValueView::Null,
        }
    } else if f == "geo_longitude"@ {
        match i.geo {
            Some(g) => opt_i32(g.longitude),
            None => FieldValueView::Null,
        }
    } else if f == "homepage_url"@ {
        text(i.homepage_url)
    } else if f == "ror"@ {
        opt_text(i.ror)
    } else if f == "ttype"@ {
        opt_text(i.ttype)
    } else if f == "summary_stats_mean_citeness"@ {
        stats_mean_citedness(i.summary_stats)
    } else if f == "summary_stats_h_index"@ {
        stats_h_index(i.summary_stats)
    } else if f == "summary_stats_i10_index"@ {
        stats_i10_index(i.summary_stats)
    } else {
        opt_u32(i.works_count)
    }
}

/// Extract an institution property.
pub fn get_institution_property(vertex: &Vertex, field_name: &str) -> (v: FieldValue)
    requires
        kind_of(*vertex) == VertexKind::Institution,
        is_institution_field(field_name@),
    ensures
        v@ == institution_property(vertex->Institution_0, field_name@),
{
    let institution = match vertex {
        Vertex::Institution(i) => i,
        _ => unreached(),
    };
    if str_eq(field_name, "cited_by_count") || str_eq(field_name, "created_date")
        || str_eq(field_name, "display_name") || str_eq(field_name, "id")
        || str_eq(field_name, "ids_doi") || str_eq(field_name, "ids_mag")
        || str_eq(field_name, "ids_openalex") || str_eq(field_name, "ids_pmid")
        || str_eq(field_name, "ids_pmcid") || str_eq(field_name, "updated_date") {
        get_common_property(&institution.object, field_name)
    } else if str_eq(field_name, "country_codes") {
        FieldValue::from_opt_text(&institution.country_code)
    } else if str_eq(field_name, "display_name_alternatives") {
        FieldValue::from_text_list(&institution.display_name_alternatives)
    } else if str_eq(field_name, "geo_city") {
        match &institution.geo {
            Some(g) => FieldValue::from_opt_text(&g.city),
            None => FieldValue::Null,
        }
    } else if str_eq(field_name, "geo_geonames_city_id") {
        match &institution.geo {
            Some(g) => FieldValue::from_opt_text(&g.geonames_city_id),
            None => FieldValue::Null,
        }
    } else if str_eq(field_name, "geo_region") {
        match &institution.geo {
            Some(g) => FieldValue::from_opt_text(&g.region),
            None => FieldValue::Null,
        }
    } else if str_eq(field_name, "geo_country_code") {
        match &institution.geo {
            Some(g) => FieldValue::from_opt_text(&g.country_code),
            None => FieldValue::Null,
        }
    } else if str_eq(field_name, "geo_country") {
        match &institution.geo {
            Some(g) => FieldValue::from_opt_text(&g.country),
            None => FieldValue::Null,
        }
    } else if str_eq(field_name, "geo_latitude") {
        match &institution.geo {
            Some(g) => FieldValue::from_opt_i32(&g.latitude),
            None => FieldValue::Null,
        }
    } else if str_eq(field_name, "geo_longitude") {
        match &institution.geo {
            Some(g) => FieldValue::from_opt_i32(&g.longitude),
            None => FieldValue::Null,
        }
    } else if str_eq(field_name, "homepage_url") {
        FieldValue::from_text(&institution.homepage_url)
    } else if str_eq(field_name, "ror") {
        FieldValue::from_opt_text(&institution.ror)
    } else if str_eq(field_name, "ttype") {
        FieldValue::from_opt_text(&institution.ttype)
    } else if str_eq(field_name, "summary_stats_mean_citeness") {
        get_stats_mean_citedness(&institution.summary_stats)
    } else if str_eq(field_name, "summary_stats_h_index") {
        get_stats_h_index(&institution.summary_stats)
    } else if str_eq(field_name, "summary_stats_i10_index") {
        get_stats_i10_index(&institution.summary_stats)
    } else {
        FieldValue::from_opt_u32(&institution.works_count)
    }
}

/// The fields of the publisher table.
pub open spec fn is_publisher_field(f: Seq<char>) -> bool {
    ||| is_common_field(f)
    ||| f == "alternative_titles"@
    ||| f == "country_codes"@
    ||| f == "hierarchy_level"@
    ||| f == "image_thumbnail_url"@
    ||| f == "image_url"@
    ||| f == "summary_stats_mean_citeness"@
    ||| f == "summary_stats_h_index"@
    ||| f == "summary_stats_i10_index"@
    ||| f == "works_count"@
}

/// The value of a publisher field.
pub open spec fn publisher_property(p: Publisher, f: Seq<char>) -> FieldValueView {
    if is_common_field(f) {
        common_property(p.object, f)
    } else if f == "alternative_titles"@ {
        text_list(p.alternative_titles)
    } else if f == "country_codes"@ {
        text_list(p.country_codes)
    } else if f == "hierarchy_level"@ {
        opt_u16(p.hierarchy_level)
    } else if f == "image_thumbnail_url"@ {
        opt_text(p.image_thumbnail_url)
    } else if f == "image_url"@ {
        opt_text(p.image_url)
    } else if f == "summary_stats_mean_citeness"@ {
        stats_mean_citedness(p.summary_stats)
    } else if f == "summary_stats_h_index"@ {
        stats_h_index(p.summary_stats)
    } else if f == "summary_stats_i10_index"@ {
        stats_i10_index(p.summary_stats)
    } else {
        opt_u32(p.works_count)
    }
}

/// Extract a publisher property.
pub fn get_publisher_property(vertex: &Vertex, field_name: &str) -> (v: FieldValue)
    requires
        kind_of(*vertex) == VertexKind::Publisher,
        is_publisher_field(field_name@),
    ensures
        v@ == publisher_property(vertex->Publisher_0, field_name@),
{
    let publisher = match vertex {
        Vertex::Publisher(p) => p,
        _ => unreached(),
    };
    if str_eq(field_name, "cited_by_count") || str_eq(field_name, "created_date")
        || str_eq(field_name, "display_name") || str_eq(field_name, "id")
        || str_eq(field_name, "ids_doi") || str_eq(field_name, "ids_mag")
        || str_eq(field_name, "ids_openalex") || str_eq(field_name, "ids_pmid")
        || str_eq(field_name, "ids_pmcid") || str_eq(field_name, "updated_date") {
        get_common_property(&publisher.object, field_name)
    } else if str_eq(field_name, "alternative_titles") {
        FieldValue::from_text_list(&publisher.alternative_titles)
    } else if str_eq(field_name, "country_codes") {
        FieldValue::from_text_list(&publisher.country_codes)
    } else if str_eq(field_name, "hierarchy_level") {
        FieldValue::from_opt_u16(&publisher.hierarchy_level)
    } else if str_eq(field_name, "image_thumbnail_url") {
        FieldValue::from_opt_text(&publisher.image_thumbnail_url)
    } else if str_eq(field_name, "image_url") {
        FieldValue::from_opt_text(&publisher.image_url)
    } else if str_eq(field_name, "summary_stats_mean_citeness") {
        get_stats_mean_citedness(&publisher.summary_stats)
    } else if str_eq(field_name, "summary_stats_h_index") {
        get_stats_h_index(&publisher.summary_stats)
    } else if str_eq(field_name, "summary_stats_i10_index") {
        get_stats_i10_index(&publisher.summary_stats)
    } else {
        FieldValue::from_opt_u32(&publisher.works_count)
    }
}

/// The fields of the funder table.
pub open spec fn is_funder_field(f: Seq<char>) -> bool {
    ||| is_common_field(f)
    ||| f == "alternative_titles"@
    ||| f == "country_code"@
    ||| f == "description"@
    ||| f == "grants_count"@
    ||| f == "homepage_url"@
    ||| f == "image_thumbnail_url"@
    ||| f == "image_url"@
    ||| f == "summary_stats_mean_citeness"@
    ||| f == "summary_stats_h_index"@
    ||| f == "summary_stats_i10_index"@
    ||| f == "works_count"@
}

/// The value of a funder field.
pub open spec fn funder_property(fu: Funder, f: Seq<char>) -> FieldValueView {
    if is_common_field(f) {
        common_property(fu.object, f)
    } else if f == "alternative_titles"@ {
        text_list(fu.alternative_titles)
    } else if f == "country_code"@ {
        opt_text(fu.country_code)
    } else if f == "description"@ {
        opt_text(fu.description)
    } else if f == "grants_count"@ {
        opt_u32(fu.grants_count)
    } else if f == "homepage_url"@ {
        opt_text(fu.homepage_url)
    } else if f == "image_thumbnail_url"@ {
        opt_text(fu.image_thumbnail_url)
    } else if f == "image_url"@ {
        opt_text(fu.image_url)
    } else if f == "summary_stats_mean_citeness"@ {
        stats_mean_citedness(fu.summary_stats)
    } else if f == "summary_stats_h_index"@ {
        stats_h_index(fu.summary_stats)
    } else if f == "summary_stats_i10_index"@ {
        stats_i10_index(fu.summary_stats)
    } else {
        opt_u32(fu.works_count)
    }
}

/// Extract a funder property.
pub fn get_funder_property(vertex: &Vertex, field_name: &str) -> (v: FieldValue)
    requires
        kind_of(*vertex) == VertexKind::Funder,
        is_funder_field(field_name@),
    ensures
        v@ == funder_property(vertex->Funder_0, field_name@),
{
    let funder = match vertex {
        Vertex::Funder(f) => f,
        _ => unreached(),
    };
    if str_eq(field_name, "cited_by_count") || str_eq(field_name, "created_date")
        || str_eq(field_name, "display_name") || str_eq(field_name, "id")
        || str_eq(field_name, "ids_doi") || str_eq(field_name, "ids_mag")
        || str_eq(field_name, "ids_openalex") || str_eq(field_name, "ids_pmid")
        || str_eq(field_name, "ids_pmcid") || str_eq(field_name, "updated_date") {
        get_common_property(&funder.object, field_name)
    } else if str_eq(field_name, "alternative_titles") {
        FieldValue::from_text_list(&funder.alternative_titles)
    } else if str_eq(field_name, "country_code") {
        FieldValue::from_opt_text(&funder.country_code)
    } else if str_eq(field_name, "description") {
        FieldValue::from_opt_text(&funder.description)
    } else if str_eq(field_name, "grants_count") {
        FieldValue::from_opt_u32(&funder.grants_count)
    } else if str_eq(field_name, "homepage_url") {
        FieldValue::from_opt_text(&funder.homepage_url)
    } else if str_eq(field_name, "image_thumbnail_url") {
        FieldValue::from_opt_text(&funder.image_thumbnail_url)
    } else if str_eq(field_name, "image_url") {
        FieldValue::from_opt_text(&funder.image_url)
    } else if str_eq(field_name, "summary_stats_mean_citeness") {
        get_stats_mean_citedness(&funder.summary_stats)
    } else if str_eq(field_name, "summary_stats_h_index") {
        get_stats_h_index(&funder.summary_stats)
    } else if str_eq(field_name, "summary_stats_i10_index") {
        get_stats_i10_index(&funder.summary_stats)
    } else {
        FieldValue::from_opt_u32(&funder.works_count)
    }
}

} // verus!
