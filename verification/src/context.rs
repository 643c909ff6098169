//! The interpreter-owned row. The core reads exactly one capability of it,
//! the optionally-present active entity, and never mutates a row: resolvers
//! hand every row back unchanged, paired with an output value, in the input
//! order. The payload is the interpreter's own plumbing, opaque here.

use vstd::prelude::*;

use crate::vertex::Vertex;

verus! {

/// One row of a query evaluation: zero-or-one active entity plus the
/// interpreter's opaque payload.
#[derive(Clone, Debug, PartialEq)]
pub struct DataContext<T> {
    pub active_vertex: Option<Vertex>,
    pub payload: T,
}

impl<T> DataContext<T> {
    pub fn new(active_vertex: Option<Vertex>, payload: T) -> (r: DataContext<T>)
        ensures
            r.active_vertex == active_vertex,
            r.payload == payload,
    {
        DataContext { active_vertex, payload }
    }

    /// The row's active entity, if any.
    pub fn active_vertex(&self) -> (r: Option<&Vertex>)
        ensures
            match self.active_vertex {
                Some(v) => r matches Some(rv) && *rv == v,
                None => r is None,
            },
    {
        match &self.active_vertex {
            Some(v) => Some(v),
            None => None,
        }
    }
}

} // verus!
