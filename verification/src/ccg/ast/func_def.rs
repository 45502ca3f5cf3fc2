use vstd::prelude::*;
use crate::ccg::ast::node::AstNode;
use crate::ccg::file::file_writer::{new_line, FileWriter};
use crate::common::text::{joined, lemma_joined_next};

verus! {

/// The definition of a function: the type of its result, its name, its
/// parameters and the statements of its body.
#[derive(Debug)]
pub struct Data {
    pub type_identifier: String,
    pub identifier: String,
    pub params: Vec<FuncParam>,
    pub body: Vec<AstNode>,
}

/// A parameter of a function: its type and its name.
#[derive(Debug)]
pub struct FuncParam {
    pub type_identifier: String,
    pub identifier: String,
}

impl FuncParam {
    /// The parameter as it is written: the type and the name.
    pub open spec fn text(&self) -> Seq<char> {
        self.type_identifier@.push(' ') + self.identifier@
    }

    /// Writes the parameter.
    pub fn emit<'a>(&self, writer: &'a mut FileWriter) -> (written: &'a mut FileWriter)
        ensures
            written.content@ == old(writer).content@ + self.text(),
            written.indentation_lvl == old(writer).indentation_lvl,
            *final(writer) == *final(written),
    {
        let written = writer.append_str(self.type_identifier.as_str()).append_space().append_str(
            self.identifier.as_str(),
        );
        assert(written.content@ =~= old(writer).content@ + self.text());
        written
    }
}

/// Whether the statements can be written as a body at the depth `level`:
/// the body stands one level deeper, and every statement can be written
/// there.
pub open spec fn body_fits(nodes: &Vec<AstNode>, level: nat) -> bool
    decreases nodes, 0nat,
{
    &&& level < u8::MAX
    &&& forall|i: int| 0 <= i < nodes@.len() ==> (#[trigger] nodes@[i]).fits(level + 1)
}

/// The statements, each as it is written at the depth `level`.
pub open spec fn node_texts(nodes: &Vec<AstNode>, level: nat) -> Seq<Seq<char>>
    decreases nodes, 0nat,
{
    Seq::new(
        nodes@.len(),
        |i: int|
            if 0 <= i < nodes@.len() {
                nodes@[i].text(level)
            } else {
                Seq::empty()
            },
    )
}

/// The body as it is written at the depth `level`: `{`, the statements on
/// a line each, one level deeper, and `}` on a line of its own.
pub open spec fn body_text(nodes: &Vec<AstNode>, level: nat) -> Seq<char>
    decreases nodes, 1nat,
{
    seq!['{'] + new_line(level + 1) + joined(node_texts(nodes, level + 1), new_line(level + 1))
        + new_line(level) + seq!['}']
}

impl Data {
    /// Whether the definition can be written at the depth `level`.
    pub open spec fn fits(&self, level: nat) -> bool
        decreases self, 0nat,
    {
        body_fits(&self.body, level)
    }

    /// Whether the definition can be written at the depth `level`.
    pub fn can_emit(&self, level: u8) -> (fits: bool)
        ensures
            fits == self.fits(level as nat),
        decreases self,
    {
        can_emit_body(&self.body, level)
    }

    /// The parameters, each as it is written.
    pub open spec fn param_texts(&self) -> Seq<Seq<char>> {
        Seq::new(self.params@.len(), |i: int| self.params@[i].text())
    }

    /// The definition as it is written at the depth `level`: the type, the
    /// name, the parameters in parentheses with `, ` between each two, and
    /// the body on a new line.
    pub open spec fn text(&self, level: nat) -> Seq<char>
        decreases self, 0nat,
    {
        self.type_identifier@.push(' ') + self.identifier@.push('(') + joined(
            self.param_texts(),
            ", "@,
        ) + seq![')'] + new_line(level) + body_text(&self.body, level)
    }

    /// Writes the definition.
    pub fn emit<'a>(&self, writer: &'a mut FileWriter) -> (written: &'a mut FileWriter)
        requires
            self.fits(old(writer).indentation_lvl as nat),
        ensures
            written.content@ == old(writer).content@ + self.text(
                old(writer).indentation_lvl as nat,
            ),
            written.indentation_lvl == old(writer).indentation_lvl,
            *final(writer) == *final(written),
        decreases self,
    {
        writer.append_str(self.type_identifier.as_str()).append_space().append_str(
            self.identifier.as_str(),
        ).append(&'(');
        let ghost start = writer.content@;
        let ghost texts = self.param_texts();
        let mut i: usize = 0;
        assert(texts.take(0) =~= Seq::empty());
        while i < self.params.len()
            invariant
                i <= self.params.len(),
                texts == self.param_texts(),
                writer.indentation_lvl == old(writer).indentation_lvl,
                writer.content@ == start + joined(texts.take(i as int), ", "@),
            decreases self.params.len() - i,
        {
            proof {
                lemma_joined_next(texts, ", "@, i as int);
            }
            if i > 0 {
                writer.append_str(", ");
            }
            self.params[i].emit(writer);
            assert(writer.content@ =~= start + joined(texts.take(i + 1), ", "@));
            i += 1;
        }
        assert(texts.take(i as int) =~= texts);
        writer.append(&')').append_line();
        let written = emit_body(&self.body, writer);
        assert(written.content@ =~= old(writer).content@ + self.text(
            old(writer).indentation_lvl as nat,
        ));
        written
    }
}

/// Whether the statements can be written as a body at the depth `level`.
pub fn can_emit_body(nodes: &Vec<AstNode>, level: u8) -> (fits: bool)
    ensures
        fits == body_fits(nodes, level as nat),
    decreases nodes,
{
    if level == u8::MAX {
        return false;
    }
    let mut i: usize = 0;
    while i < nodes.len()
        invariant
            i <= nodes.len(),
            level < u8::MAX,
            forall|k: int| 0 <= k < i ==> (#[trigger] nodes@[k]).fits(level as nat + 1),
        decreases nodes.len() - i,
    {
        if !nodes[i].can_emit(level + 1) {
            return false;
        }
        i += 1;
    }
    true
}

/// Writes the statements as a body: `{`, the statements on a line each,
/// one level deeper, and `}` on a line of its own.
pub fn emit_body<'a>(nodes: &Vec<AstNode>, writer: &'a mut FileWriter) -> (written: &'a mut FileWriter)
    requires
        body_fits(nodes, old(writer).indentation_lvl as nat),
    ensures
        written.content@ == old(writer).content@ + body_text(
            nodes,
            old(writer).indentation_lvl as nat,
        ),
        written.indentation_lvl == old(writer).indentation_lvl,
        *final(writer) == *final(written),
    decreases nodes,
{
    let ghost level = writer.indentation_lvl as nat;
    writer.append(&'{').indent_right().append_line();
    let ghost start = writer.content@;
    let ghost texts = node_texts(nodes, level + 1);
    let mut i: usize = 0;
    assert(texts.take(0) =~= Seq::empty());
    while i < nodes.len()
        invariant
            i <= nodes.len(),
            level == old(writer).indentation_lvl,
            body_fits(nodes, level),
            texts == node_texts(nodes, level + 1),
            writer.indentation_lvl == level + 1,
            writer.content@ == start + joined(texts.take(i as int), new_line(level + 1)),
        decreases nodes.len() - i,
    {
        proof {
            lemma_joined_next(texts, new_line(level + 1), i as int);
        }
        if i > 0 {
            writer.append_line();
        }
        nodes[i].emit(writer);
        assert(writer.content@ =~= start + joined(texts.take(i + 1), new_line(level + 1)));
        i += 1;
    }
    assert(texts.take(i as int) =~= texts);
    let written = writer.indent_left().append_line().append(&'}');
    assert(written.content@ =~= old(writer).content@ + body_text(nodes, level));
    written
}

} // verus!
