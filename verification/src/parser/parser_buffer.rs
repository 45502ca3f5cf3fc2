use vstd::prelude::*;
use crate::common::syntax_error::SyntaxError;
use crate::parser::ast_node::AstNode;

verus! {

/// The arena of a parse: nodes and errors, both only ever appended, each
/// node known by its index.
#[derive(Debug)]
pub struct ParserBuffer {
    pub nodes: Vec<AstNode>,
    pub errors: Vec<SyntaxError>,
}

impl ParserBuffer {
    /// An arena without nodes and without errors.
    pub fn new() -> (buffer: Self)
        ensures
            buffer.nodes@.len() == 0,
            buffer.errors@.len() == 0,
    {
        ParserBuffer { nodes: Vec::new(), errors: Vec::new() }
    }

    /// Appends `node` and returns its index.
    pub fn push_node(&mut self, node: AstNode) -> (index: usize)
        ensures
            final(self).nodes@ == old(self).nodes@.push(node),
            final(self).errors == old(self).errors,
            index == old(self).nodes@.len(),
    {
        self.nodes.push(node);
        self.nodes.len() - 1
    }

    /// Appends `error`.
    pub fn push_error(&mut self, error: SyntaxError)
        ensures
            final(self).errors@ == old(self).errors@.push(error),
            final(self).nodes == old(self).nodes,
    {
        self.errors.push(error)
    }

    /// The node with the index `id`.
    pub fn get(&self, id: usize) -> (node: &AstNode)
        requires
            id < self.nodes@.len(),
        ensures
            *node == self.nodes@[id as int],
    {
        &self.nodes[id]
    }

    /// The index under which the node at `index` is known: `index` itself.
    pub fn get_node_id(&self, index: usize) -> (id: usize)
        ensures
            id == index,
    {
        index
    }

    /// The number of nodes.
    pub fn len(&self) -> (count: usize)
        ensures
            count == self.nodes@.len(),
    {
        self.nodes.len()
    }
}

} // verus!
