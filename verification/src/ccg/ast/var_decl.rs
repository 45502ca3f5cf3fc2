use vstd::prelude::*;
use crate::ccg::file::file_writer::FileWriter;

verus! {

/// The declaration of a variable: its type and its name.
#[derive(Debug)]
pub struct Data {
    pub type_identifier: String,
    pub identifier: String,
}

impl Data {
    /// The declaration as it is written: the type, the name and `;`.
    pub open spec fn text(&self) -> Seq<char> {
        self.type_identifier@.push(' ') + self.identifier@ + seq![';']
    }

    /// Writes the declaration.
    pub fn emit<'a>(&self, writer: &'a mut FileWriter) -> (written: &'a mut FileWriter)
        ensures
            written.content@ == old(writer).content@ + self.text(),
            written.indentation_lvl == old(writer).indentation_lvl,
            *final(writer) == *final(written),
    {
        let written = writer.append_str(self.type_identifier.as_str()).append(&' ').append_str(
            self.identifier.as_str(),
        ).append(&';');
        assert(written.content@ =~= old(writer).content@ + self.text());
        written
    }
}

} // verus!
