use vstd::prelude::*;
use crate::ccg::ast::node::Expression;
use crate::ccg::file::file_writer::FileWriter;
use crate::common::text::{joined, lemma_joined_next};

verus! {

/// The call of a function: its name and its arguments.
#[derive(Debug)]
pub struct Data {
    pub identifier: String,
    pub params: Vec<Expression>,
}

impl Data {
    /// The arguments, each as it is written.
    pub open spec fn param_texts(&self) -> Seq<Seq<char>>
        decreases self, 0nat,
    {
        Seq::new(
            self.params@.len(),
            |i: int|
                if 0 <= i < self.params@.len() {
                    self.params@[i].text()
                } else {
                    Seq::empty()
                },
        )
    }

    /// The call as it is written: the name, `(`, the arguments with `, `
    /// between each two, and `)`.
    pub open spec fn text(&self) -> Seq<char>
        decreases self, 1nat,
    {
        self.identifier@.push('(') + joined(self.param_texts(), ", "@) + seq![')']
    }

    /// Writes the call.
    pub fn emit<'a>(&self, writer: &'a mut FileWriter) -> (written: &'a mut FileWriter)
        ensures
            written.content@ == old(writer).content@ + self.text(),
            written.indentation_lvl == old(writer).indentation_lvl,
            *final(writer) == *final(written),
        decreases self,
    {
        writer.append_str(self.identifier.as_str()).append(&'(');
        let ghost start = writer.content@;
        let ghost texts = self.param_texts();
        let mut i: usize = 0;
        assert(texts.take(0) =~= Seq::empty());
        while i < self.params.len()
            invariant
                i <= self.params.len(),
                texts == self.param_texts(),
                writer.indentation_lvl == old(writer).indentation_lvl,
                writer.content@ == start + joined(texts.take(i as int), ", "@),
            decreases self.params.len() - i,
        {
            proof {
                lemma_joined_next(texts, ", "@, i as int);
            }
            if i > 0 {
                writer.append_str(", ");
            }
            self.params[i].emit(writer);
            assert(writer.content@ =~= start + joined(texts.take(i + 1), ", "@));
            i += 1;
        }
        assert(texts.take(i as int) =~= texts);
        let written = writer.append(&')');
        assert(written.content@ =~= old(writer).content@ + self.text());
        written
    }
}

} // verus!
