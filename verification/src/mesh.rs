//! Vertex collections shared by reference counting.

use vstd::prelude::*;
use std::rc::Rc;

verus! {

/// An immutable list of vertices, shared between render data owners.
pub struct Mesh<T> {
    vertices: Vec<T>,
}

impl<T> Mesh<T> {
    /// The vertices in order.
    pub closed spec fn spec_vertices(&self) -> Seq<T> {
        self.vertices@
    }

    pub fn new(vertices: Vec<T>) -> (r: Rc<Self>)
        ensures
            r.spec_vertices() == vertices@,
    {
        Rc::new(Mesh { vertices })
    }

    pub fn vertices(&self) -> (r: &Vec<T>)
        ensures
            r@ == self.spec_vertices(),
    {
        &self.vertices
    }
}

} // verus!
