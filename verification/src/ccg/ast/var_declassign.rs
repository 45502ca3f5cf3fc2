use vstd::prelude::*;
use crate::ccg::ast::node::Expression;
use crate::ccg::file::file_writer::FileWriter;

verus! {

/// The declaration of a variable with its first value.
#[derive(Debug)]
pub struct Data {
    pub type_identifier: String,
    pub identifier: String,
    pub value: Expression,
}

impl Data {
    /// The declaration as it is written: the type, the name, ` = `, the
    /// value and `;`.
    pub open spec fn text(&self) -> Seq<char> {
        self.type_identifier@.push(' ') + self.identifier@ + " = "@ + self.value.text() + seq![';']
    }

    /// Writes the declaration.
    pub fn emit<'a>(&self, writer: &'a mut FileWriter) -> (written: &'a mut FileWriter)
        ensures
            written.content@ == old(writer).content@ + self.text(),
            written.indentation_lvl == old(writer).indentation_lvl,
            *final(writer) == *final(written),
    {
        writer.append_str(self.type_identifier.as_str()).append_space().append_str(
            self.identifier.as_str(),
        ).append_str(" = ");
        self.value.emit(writer);
        let written = writer.append(&';');
        assert(written.content@ =~= old(writer).content@ + self.text());
        written
    }
}

} // verus!
