//! The adapter facade: the single stateless entry surface the query
//! interpreter calls. It dispatches a (kind, field) pair to the property
//! resolver, a (kind, edge) pair to the neighbor resolver, a (source
//! kind, target kind) pair to the coercion resolver, and a starting-edge
//! request to a one-shot fetch request.
//!
//! Every resolver preserves strict positional correspondence: an input of
//! N rows yields exactly N outputs, each paired with its originating row,
//! in the input order. A row with no active entity resolves to the
//! absence value -- `Null`, an empty plan, `false` -- and never causes a
//! fetch. A name outside the closed dispatch tables is a dispatch error,
//! surfaced to the caller, never silently swallowed.

use vstd::prelude::*;
use vstd::string::StringExecFns;

use crate::coercion::{can_coerce, coercion_allowed, is_coercion_pair};
use crate::context::DataContext;
use crate::field_value::{FieldValue, FieldValueView};
use crate::neighbors::{edge_plan, is_edge, plan_edge, FetchRequest, NeighborPlan, NeighborPlanView};
use crate::properties::{field_in_table, get_property, is_kind_field, property_value};
use crate::text::str_eq;
use crate::vertex::{kind_name, kind_of, Vertex, VertexKind};

verus! {

/// A violation of the closed dispatch tables: the schema and the resolver
/// tables have drifted apart. Fatal for the whole call, unlike a per-row
/// data absence or a per-element fetch failure.
#[derive(Clone, Copy, Debug, PartialEq, Eq, Structural)]
pub enum DispatchError {
    /// The type name names no entity kind.
    UnknownKind,
    /// The field is outside the kind's property table.
    UnknownProperty,
    /// The edge is outside the kind's edge table.
    UnknownEdge,
    /// The (source kind, target kind) pair is outside the coercion table.
    UnknownCoercion,
    /// The starting edge is not one this adapter serves.
    UnknownStartingEdge,
}

/// The kind a type name denotes, if any.
pub open spec fn parse_kind(s: Seq<char>) -> Option<VertexKind> {
    if s == "Work"@ {
        Some(VertexKind::Work)
    } else if s == "Author"@ {
        Some(VertexKind::Author)
    } else if s == "Concept"@ {
        Some(VertexKind::Concept)
    } else if s == "Source"@ {
        Some(VertexKind::Source)
    } else if s == "Institution"@ {
        Some(VertexKind::Institution)
    } else if s == "Publisher"@ {
        Some(VertexKind::Publisher)
    } else if s == "Funder"@ {
        Some(VertexKind::Funder)
    } else {
        None
    }
}

/// Parse a type name into a kind.
pub fn kind_from_name(s: &str) -> (r: Option<VertexKind>)
    ensures
        r == parse_kind(s@),
{
    if str_eq(s, "Work") {
        Some(VertexKind::Work)
    } else if str_eq(s, "Author") {
        Some(VertexKind::Author)
    } else if str_eq(s, "Concept") {
        Some(VertexKind::Concept)
    } else if str_eq(s, "Source") {
        Some(VertexKind::Source)
    } else if str_eq(s, "Institution") {
        Some(VertexKind::Institution)
    } else if str_eq(s, "Publisher") {
        Some(VertexKind::Publisher)
    } else if str_eq(s, "Funder") {
        Some(VertexKind::Funder)
    } else {
        None
    }
}

/// The remote path segment listing all entities of a kind.
pub open spec fn kind_plural(k: VertexKind) -> Seq<char> {
    match k {
        VertexKind::Work => "works"@,
        VertexKind::Author => "authors"@,
        VertexKind::Concept => "concepts"@,
        VertexKind::Source => "sources"@,
        VertexKind::Institution => "institutions"@,
        VertexKind::Publisher => "publishers"@,
        VertexKind::Funder => "funders"@,
    }
}

fn kind_plural_str(k: VertexKind) -> (r: &'static str)
    ensures
        r@ == kind_plural(k),
{
    match k {
        VertexKind::Work => "works",
        VertexKind::Author => "authors",
        VertexKind::Concept => "concepts",
        VertexKind::Source => "sources",
        VertexKind::Institution => "institutions",
        VertexKind::Publisher => "publishers",
        VertexKind::Funder => "funders",
    }
}

/// The locator of a random entity of a kind.
pub open spec fn random_url(k: VertexKind) -> Seq<char> {
    "https://api.openalex.org/"@ + kind_plural(k) + "/random"@
}

/// Every row whose active entity exists is of the given kind: the
/// interpreter has already dispatched the stream on kind, and a mismatch
/// is an internal dispatch bug, not a data condition.
pub open spec fn rows_of_kind<T>(rows: Seq<DataContext<T>>, k: VertexKind) -> bool {
    forall|i: int|
        0 <= i < rows.len() ==> ((#[trigger] rows[i]).active_vertex matches Some(v) ==> kind_of(v)
            == k)
}

/// Whether a property request hits the dispatch tables: the universal
/// type-name meta-field is valid for every kind, any other field must sit
/// in the named kind's own table.
pub open spec fn property_request_ok(t: Seq<char>, f: Seq<char>) -> bool {
    f == "__typename"@ || (parse_kind(t) matches Some(k) && is_kind_field(k, f))
}

/// The value one row resolves to: the kind's name for the meta-field, the
/// table entry otherwise.
pub open spec fn row_property_value(v: Vertex, t: Seq<char>, f: Seq<char>) -> FieldValueView {
    if f == "__typename"@ {
        FieldValueView::Text(kind_name(kind_of(v)))
    } else {
        property_value(parse_kind(t)->Some_0, v, f)
    }
}

/// Whether an edge request hits the dispatch tables.
pub open spec fn edge_request_ok(t: Seq<char>, e: Seq<char>) -> bool {
    parse_kind(t) matches Some(k) && is_edge(k, e)
}

/// Whether a coercion request hits the closed coercion table.
pub open spec fn coercion_request_ok(t: Seq<char>, to: Seq<char>) -> bool {
    &&& parse_kind(t) matches Some(k1)
    &&& parse_kind(to) matches Some(k2)
    &&& is_coercion_pair(parse_kind(t)->Some_0, parse_kind(to)->Some_0)
}

/// The stateless adapter facade.
pub struct OpenAlexAdapter;

impl OpenAlexAdapter {
    pub fn new() -> OpenAlexAdapter {
        OpenAlexAdapter
    }

    /// Resolve one property over a stream of rows.
    ///
    /// The output is in one-to-one positional correspondence with the
    /// input: exactly one output per row, carrying the row unchanged, in
    /// the input order. A row with no active entity resolves to `Null`.
    /// The type-name meta-field resolves to the kind's name for every
    /// kind uniformly; any other field resolves to its entry in the
    /// kind's fixed table, and a field outside the table is a dispatch
    /// error.
    pub fn resolve_property<T>(
        &self,
        contexts: Vec<DataContext<T>>,
        typename: &str,
        property_name: &str,
    ) -> (r: Result<Vec<(DataContext<T>, FieldValue)>, DispatchError>)
        requires
            (property_name@ != "__typename"@ && property_request_ok(typename@, property_name@))
                ==> rows_of_kind(contexts@, parse_kind(typename@)->Some_0),
        ensures
            r is Ok <==> property_request_ok(typename@, property_name@),
            r matches Ok(out) ==> {
                &&& out@.len() == contexts@.len()
                &&& forall|i: int| 0 <= i < out@.len() ==> (#[trigger] out@[i]).0 == contexts@[i]
                &&& forall|i: int|
                    0 <= i < out@.len() ==> match (#[trigger] out@[i]).0.active_vertex {
                        Some(v) => out@[i].1@ == row_property_value(
                            v,
                            typename@,
                            property_name@,
                        ),
                        None => out@[i].1@ == FieldValueView::Null,
                    }
            },
            r matches Err(e) ==> e == (if parse_kind(typename@) is None {
                DispatchError::UnknownKind
            } else {
                DispatchError::UnknownProperty
            }),
    {
        let ghost orig: Seq<DataContext<T>> = contexts@;
        if str_eq(property_name, "__typename") {
            let mut rest = contexts;
            let mut out: Vec<(DataContext<T>, FieldValue)> = Vec::new();
            while rest.len() > 0
                invariant
                    property_name@ == "__typename"@,
                    out@.len() + rest@.len() == orig.len(),
                    rest@ =~= orig.skip(out@.len() as int),
                    forall|i: int| 0 <= i < out@.len() ==> (#[trigger] out@[i]).0 == orig[i],
                    forall|i: int|
                        0 <= i < out@.len() ==> match (#[trigger] out@[i]).0.active_vertex {
                            Some(v) => out@[i].1@ == FieldValueView::Text(kind_name(kind_of(v))),
                            None => out@[i].1@ == FieldValueView::Null,
                        },
                decreases rest.len(),
            {
                let ctx = rest.remove(0);
                proof {
                    assert(rest@ =~= orig.skip(out@.len() as int + 1));
                }
                let value = match &ctx.active_vertex {
                    Some(v) => FieldValue::Text(v.typename().to_owned()),
                    None => FieldValue::Null,
                };
                out.push((ctx, value));
            }
            Ok(out)
        } else {
            let kind = match kind_from_name(typename) {
                Some(k) => k,
                None => {
                    return Err(DispatchError::UnknownKind);
                },
            };
            if !field_in_table(kind, property_name) {
                return Err(DispatchError::UnknownProperty);
            }
            let mut rest = contexts;
            let mut out: Vec<(DataContext<T>, FieldValue)> = Vec::new();
            while rest.len() > 0
                invariant
                    property_name@ != "__typename"@,
                    parse_kind(typename@) == Some(kind),
                    is_kind_field(kind, property_name@),
                    rows_of_kind(orig, kind),
                    out@.len() + rest@.len() == orig.len(),
                    rest@ =~= orig.skip(out@.len() as int),
                    forall|i: int| 0 <= i < out@.len() ==> (#[trigger] out@[i]).0 == orig[i],
                    forall|i: int|
                        0 <= i < out@.len() ==> match (#[trigger] out@[i]).0.active_vertex {
                            Some(v) => out@[i].1@ == property_value(kind, v, property_name@),
                            None => out@[i].1@ == FieldValueView::Null,
                        },
                decreases rest.len(),
            {
                let ctx = rest.remove(0);
                proof {
                    assert(rest@ =~= orig.skip(out@.len() as int + 1));
                    assert(ctx == orig[out@.len() as int]);
                }
                let value = match &ctx.active_vertex {
                    Some(v) => get_property(kind, v, property_name),
                    None => FieldValue::Null,
                };
                out.push((ctx, value));
            }
            Ok(out)
        }
    }

    /// Resolve one edge over a stream of rows into per-row fetch plans.
    ///
    /// One plan per row, in input order, each paired with its row
    /// unchanged. A row with no active entity gets the empty plan --
    /// nothing will ever be fetched for it. Any other row gets the
    /// (kind, edge) table's plan built from its own entity: identifiers
    /// in upstream order, or the listing URL. An edge outside the table
    /// is a dispatch error.
    pub fn resolve_neighbors<T>(
        &self,
        contexts: Vec<DataContext<T>>,
        typename: &str,
        edge_name: &str,
    ) -> (r: Result<Vec<(DataContext<T>, NeighborPlan)>, DispatchError>)
        requires
            edge_request_ok(typename@, edge_name@) ==> rows_of_kind(
                contexts@,
                parse_kind(typename@)->Some_0,
            ),
        ensures
            r is Ok <==> edge_request_ok(typename@, edge_name@),
            r matches Ok(out) ==> {
                &&& out@.len() == contexts@.len()
                &&& forall|i: int| 0 <= i < out@.len() ==> (#[trigger] out@[i]).0 == contexts@[i]
                &&& forall|i: int|
                    0 <= i < out@.len() ==> match (#[trigger] out@[i]).0.active_vertex {
                        Some(v) => out@[i].1@ == edge_plan(v, edge_name@),
                        None => out@[i].1@ == NeighborPlanView::Empty,
                    }
            },
            r matches Err(e) ==> e == (if parse_kind(typename@) is None {
                DispatchError::UnknownKind
            } else {
                DispatchError::UnknownEdge
            }),
    {
        let ghost orig: Seq<DataContext<T>> = contexts@;
        let kind = match kind_from_name(typename) {
            Some(k) => k,
            None => {
                return Err(DispatchError::UnknownKind);
            },
        };
        if !edge_in_table(kind, edge_name) {
            return Err(DispatchError::UnknownEdge);
        }
        let mut rest = contexts;
        let mut out: Vec<(DataContext<T>, NeighborPlan)> = Vec::new();
        while rest.len() > 0
            invariant
                parse_kind(typename@) == Some(kind),
                is_edge(kind, edge_name@),
                rows_of_kind(orig, kind),
                out@.len() + rest@.len() == orig.len(),
                rest@ =~= orig.skip(out@.len() as int),
                forall|i: int| 0 <= i < out@.len() ==> (#[trigger] out@[i]).0 == orig[i],
                forall|i: int|
                    0 <= i < out@.len() ==> match (#[trigger] out@[i]).0.active_vertex {
                        Some(v) => out@[i].1@ == edge_plan(v, edge_name@),
                        None => out@[i].1@ == NeighborPlanView::Empty,
                    },
            decreases rest.len(),
        {
            let ctx = rest.remove(0);
            proof {
                assert(rest@ =~= orig.skip(out@.len() as int + 1));
                assert(ctx == orig[out@.len() as int]);
            }
            let plan = match &ctx.active_vertex {
                Some(v) => plan_edge(v, edge_name),
                None => NeighborPlan::Empty,
            };
            out.push((ctx, plan));
        }
        Ok(out)
    }

    /// Resolve one coercion over a stream of rows.
    ///
    /// One boolean per row, in input order, each paired with its row
    /// unchanged. A row with no active entity coerces to `false`. Any
    /// other row is decided from its entity's live role list on this very
    /// call: the entity must be of the source kind and carry the target
    /// kind's tag. A kind pair outside the closed trio table is a
    /// dispatch error.
    pub fn resolve_coercion<T>(
        &self,
        contexts: Vec<DataContext<T>>,
        typename: &str,
        coerce_to_type: &str,
    ) -> (r: Result<Vec<(DataContext<T>, bool)>, DispatchError>)
        ensures
            r is Ok <==> coercion_request_ok(typename@, coerce_to_type@),
            r matches Ok(out) ==> {
                &&& out@.len() == contexts@.len()
                &&& forall|i: int| 0 <= i < out@.len() ==> (#[trigger] out@[i]).0 == contexts@[i]
                &&& forall|i: int|
                    0 <= i < out@.len() ==> match (#[trigger] out@[i]).0.active_vertex {
                        Some(v) => out@[i].1 == coercion_allowed(
                            v,
                            parse_kind(typename@)->Some_0,
                            parse_kind(coerce_to_type@)->Some_0,
                        ),
                        None => out@[i].1 == false,
                    }
            },
            r matches Err(e) ==> e == DispatchError::UnknownCoercion,
    {
        let ghost orig: Seq<DataContext<T>> = contexts@;
        let from = match kind_from_name(typename) {
            Some(k) => k,
            None => {
                return Err(DispatchError::UnknownCoercion);
            },
        };
        let to = match kind_from_name(coerce_to_type) {
            Some(k) => k,
            None => {
                return Err(DispatchError::UnknownCoercion);
            },
        };
        let pair_ok = match (from, to) {
            (VertexKind::Institution, VertexKind::Funder) => true,
            (VertexKind::Institution, VertexKind::Publisher) => true,
            (VertexKind::Funder, VertexKind::Institution) => true,
            (VertexKind::Funder, VertexKind::Publisher) => true,
            (VertexKind::Publisher, VertexKind::Institution) => true,
            (VertexKind::Publisher, VertexKind::Funder) => true,
            _ => false,
        };
        if !pair_ok {
            return Err(DispatchError::UnknownCoercion);
        }
        let mut rest = contexts;
        let mut out: Vec<(DataContext<T>, bool)> = Vec::new();
        while rest.len() > 0
            invariant
                parse_kind(typename@) == Some(from),
                parse_kind(coerce_to_type@) == Some(to),
                is_coercion_pair(from, to),
                out@.len() + rest@.len() == orig.len(),
                rest@ =~= orig.skip(out@.len() as int),
                forall|i: int| 0 <= i < out@.len() ==> (#[trigger] out@[i]).0 == orig[i],
                forall|i: int|
                    0 <= i < out@.len() ==> match (#[trigger] out@[i]).0.active_vertex {
                        Some(v) => out@[i].1 == coercion_allowed(v, from, to),
                        None => out@[i].1 == false,
                    },
            decreases rest.len(),
        {
            let ctx = rest.remove(0);
            proof {
                assert(rest@ =~= orig.skip(out@.len() as int + 1));
                assert(ctx == orig[out@.len() as int]);
            }
            let decision = match &ctx.active_vertex {
                Some(v) => can_coerce(v, from, to),
                None => false,
            };
            out.push((ctx, decision));
        }
        Ok(out)
    }

    /// Build the one-shot fetch request of an identifier lookup: the
    /// identifier (or identifier-bearing URL) is the locator, decoded as
    /// the named kind.
    pub fn search_id(&self, url: String, vertex_kind: String) -> (r: Result<
        FetchRequest,
        DispatchError,
    >)
        ensures
            r is Ok <==> parse_kind(vertex_kind@) is Some,
            r matches Ok(req) ==> {
                &&& req.url@ == url@
                &&& Some(req.kind) == parse_kind(vertex_kind@)
            },
            r matches Err(e) ==> e == DispatchError::UnknownKind,
    {
        match kind_from_name(vertex_kind.as_str()) {
            Some(k) => Ok(FetchRequest { url, kind: k }),
            None => Err(DispatchError::UnknownKind),
        }
    }

    /// Build the one-shot fetch request for a random entity of the named
    /// kind.
    pub fn random(&self, vertex_kind: String) -> (r: Result<FetchRequest, DispatchError>)
        ensures
            r is Ok <==> parse_kind(vertex_kind@) is Some,
            r matches Ok(req) ==> {
                &&& req.url@ == random_url(parse_kind(vertex_kind@)->Some_0)
                &&& Some(req.kind) == parse_kind(vertex_kind@)
            },
            r matches Err(e) ==> e == DispatchError::UnknownKind,
    {
        match kind_from_name(vertex_kind.as_str()) {
            Some(k) => {
                let base: String = "https://api.openalex.org/".to_owned();
                let url = base.concat(kind_plural_str(k)).concat("/random");
                Ok(FetchRequest { url, kind: k })
            },
            None => Err(DispatchError::UnknownKind),
        }
    }

    /// Translate a starting-edge request into its one-shot fetch request:
    /// an identifier lookup of a work, or a random work. The identifier
    /// parameter is required for the lookup edge.
    pub fn resolve_starting_vertices(&self, edge_name: &str, id: Option<&str>) -> (r: Result<
        FetchRequest,
        DispatchError,
    >)
        requires
            edge_name@ == "OpenAlexIDSearchWork"@ ==> id is Some,
        ensures
            r is Ok <==> (edge_name@ == "OpenAlexIDSearchWork"@ || edge_name@
                == "OpenAlexRandomWork"@),
            r matches Ok(req) ==> req.kind == VertexKind::Work,
            edge_name@ == "OpenAlexIDSearchWork"@ ==> (r matches Ok(req) && req.url@
                == id->Some_0@),
            edge_name@ != "OpenAlexIDSearchWork"@ && edge_name@ == "OpenAlexRandomWork"@ ==> (
            r matches Ok(req) && req.url@ == random_url(VertexKind::Work)),
            r matches Err(e) ==> e == DispatchError::UnknownStartingEdge,
    {
        if str_eq(edge_name, "OpenAlexIDSearchWork") {
            let url: String = match id {
                Some(s) => s.to_owned(),
                None => {
                    return Err(DispatchError::UnknownStartingEdge);
                },
            };
            match self.search_id(url, "Work".to_owned()) {
                Ok(req) => Ok(req),
                Err(_) => Err(DispatchError::UnknownStartingEdge),
            }
        } else if str_eq(edge_name, "OpenAlexRandomWork") {
            match self.random("Work".to_owned()) {
                Ok(req) => Ok(req),
                Err(_) => Err(DispatchError::UnknownStartingEdge),
            }
        } else {
            Err(DispatchError::UnknownStartingEdge)
        }
    }
}

/// Check an edge name against the kind's fixed table.
pub fn edge_in_table(k: VertexKind, edge_name: &str) -> (r: bool)
    ensures
        r == is_edge(k, edge_name@),
{
    match k {
        VertexKind::Work => {
            str_eq(edge_name, "Authors") || str_eq(edge_name, "Cited_by")
                || str_eq(edge_name, "Concepts") || str_eq(edge_name, "Funders")
                || str_eq(edge_name, "References") || str_eq(edge_name, "Related")
        },
        VertexKind::Author => {
            str_eq(edge_name, "Institution") || str_eq(edge_name, "Works")
        },
        VertexKind::Concept => {
            str_eq(edge_name, "Ancestors") || str_eq(edge_name, "Related")
                || str_eq(edge_name, "Works")
        },
        VertexKind::Source => {
            str_eq(edge_name, "Host") || str_eq(edge_name, "Lineage")
                || str_eq(edge_name, "Works")
        },
        VertexKind::Institution => {
            str_eq(edge_name, "Associated") || str_eq(edge_name, "Repositories")
                || str_eq(edge_name, "Publisher") || str_eq(edge_name, "Funder")
                || str_eq(edge_name, "Works")
        },
        VertexKind::Publisher => {
            str_eq(edge_name, "Lineage") || str_eq(edge_name, "Institution")
                || str_eq(edge_name, "Funder") || str_eq(edge_name, "Sources")
        },
        VertexKind::Funder => {
            str_eq(edge_name, "Institution") || str_eq(edge_name, "Publisher")
        },
    }
}

/// The starting sequence out of a one-shot fetch outcome: exactly the
/// fetched entity on success, empty on failure -- a failed or unknown
/// identifier yields an empty sequence, not an error.
pub fn starting_vertices(outcome: Option<Vertex>) -> (r: Vec<Vertex>)
    ensures
        match outcome {
            Some(v) => r@ == seq![v],
            None => r@ == Seq::<Vertex>::empty(),
        },
{
    let mut out: Vec<Vertex> = Vec::new();
    match outcome {
        Some(v) => {
            out.push(v);
            proof {
                assert(out@ =~= seq![outcome->Some_0]);
            }
        },
        None => {},
    }
    out
}

} // verus!
