use vstd::prelude::*;
use crate::ccg::ast::node::Expression;
use crate::ccg::file::file_writer::FileWriter;

verus! {

/// The assignment of a value to a variable.
#[derive(Debug)]
pub struct Data {
    pub identifier: String,
    pub value: Expression,
}

impl Data {
    /// The assignment as it is written: the name, ` = `, the value and
    /// `;`.
    pub open spec fn text(&self) -> Seq<char> {
        self.identifier@ + " = "@ + self.value.text() + seq![';']
    }

    /// Writes the assignment.
    pub fn emit<'a>(&self, writer: &'a mut FileWriter) -> (written: &'a mut FileWriter)
        ensures
            written.content@ == old(writer).content@ + self.text(),
            written.indentation_lvl == old(writer).indentation_lvl,
            *final(writer) == *final(written),
    {
        writer.append_str(self.identifier.as_str()).append_str(" = ");
        self.value.emit(writer);
        let written = writer.append(&';');
        assert(written.content@ =~= old(writer).content@ + self.text());
        written
    }
}

} // verus!
