//! The coercion resolver: decides whether an entity instance may also be
//! viewed as another kind. Only the three kinds that carry a role list
//! (Institution, Publisher, Funder) take part. The decision is a dynamic,
//! per-instance capability check over the live role list -- never a static
//! type relationship and never cached.

use vstd::prelude::*;

use crate::text::str_eq;
use crate::vertex::{kind_of, role_tag, Role, Vertex, VertexKind};

verus! {

/// Whether a role list carries an entry with the given tag.
pub open spec fn roles_contain(roles: Seq<Role>, tag: Seq<char>) -> bool {
    exists|i: int| 0 <= i < roles.len() && roles[i].role@ == tag
}

/// Whether (source kind, target kind) is one of the closed set of valid
/// coercion pairs: the ordered pairs of distinct role-carrying kinds.
pub open spec fn is_coercion_pair(from: VertexKind, to: VertexKind) -> bool {
    match (from, to) {
        (VertexKind::Institution, VertexKind::Funder) => true,
        (VertexKind::Institution, VertexKind::Publisher) => true,
        (VertexKind::Funder, VertexKind::Institution) => true,
        (VertexKind::Funder, VertexKind::Publisher) => true,
        (VertexKind::Publisher, VertexKind::Institution) => true,
        (VertexKind::Publisher, VertexKind::Funder) => true,
        _ => false,
    }
}

/// The role list of an entity; empty for the kinds that carry none.
pub open spec fn entity_roles(v: Vertex) -> Seq<Role> {
    match v {
        Vertex::Institution(i) => i.roles@,
        Vertex::Publisher(p) => p.roles@,
        Vertex::Funder(f) => f.roles@,
        _ => Seq::empty(),
    }
}

/// Whether an entity may be viewed as the target kind: it must actually be
/// of the claimed source kind, and its live role list must carry the
/// target kind's own lowercase name as a tag.
pub open spec fn coercion_allowed(v: Vertex, from: VertexKind, to: VertexKind) -> bool {
    kind_of(v) == from && roles_contain(entity_roles(v), role_tag(to))
}

/// Scan a role list for the given tag.
fn roles_contain_exec(roles: &Vec<Role>, tag: &str) -> (r: bool)
    ensures
        r == roles_contain(roles@, tag@),
{
    let mut i: usize = 0;
    while i < roles.len()
        invariant
            i <= roles.len(),
            forall|j: int| 0 <= j < i ==> roles@[j].role@ != tag@,
        decreases roles.len() - i,
    {
        if str_eq(roles[i].role.as_str(), tag) {
            return true;
        }
        i = i + 1;
    }
    false
}

/// The lowercase role tag of a kind.
pub fn role_tag_str(k: VertexKind) -> (r: &'static str)
    ensures
        r@ == role_tag(k),
{
    match k {
        VertexKind::Work => "work",
        VertexKind::Author => "author",
        VertexKind::Concept => "concept",
        VertexKind::Source => "source",
        VertexKind::Institution => "institution",
        VertexKind::Publisher => "publisher",
        VertexKind::Funder => "funder",
    }
}

/// Decide one row's coercion: re-evaluates the live role list on every
/// call. An entity that is not of the claimed source kind coerces to
/// `false`; it is never an error here.
pub fn can_coerce(vertex: &Vertex, from: VertexKind, to: VertexKind) -> (r: bool)
    requires
        is_coercion_pair(from, to),
    ensures
        r == coercion_allowed(*vertex, from, to),
{
    let tag = role_tag_str(to);
    match (from, vertex) {
        (VertexKind::Institution, Vertex::Institution(i)) => roles_contain_exec(&i.roles, tag),
        (VertexKind::Publisher, Vertex::Publisher(p)) => roles_contain_exec(&p.roles, tag),
        (VertexKind::Funder, Vertex::Funder(f)) => roles_contain_exec(&f.roles, tag),
        _ => false,
    }
}

/// The coercion decision is a function of the entity and the kind pair
/// alone: evaluating it any number of times on the same unchanged entity
/// yields the same boolean.
pub proof fn lemma_coercion_idempotent(
    v: Vertex,
    from: VertexKind,
    to: VertexKind,
    r1: bool,
    r2: bool,
)
    requires
        r1 == coercion_allowed(v, from, to),
        r2 == coercion_allowed(v, from, to),
    ensures
        r1 == r2,
{
}

} // verus!
