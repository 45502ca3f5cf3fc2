use vstd::prelude::*;
use crate::ccg::ast::node::AstNode;
use crate::ccg::file::file_writer::FileWriter;

verus! {

/// A file of the target language: its statements, from first to last.
#[derive(Debug)]
pub struct CFile {
    pub nodes: Vec<AstNode>,
}

impl CFile {
    /// Whether every statement of the file can be written at depth zero.
    pub open spec fn fits(&self) -> bool {
        forall|i: int| 0 <= i < self.nodes@.len() ==> (#[trigger] self.nodes@[i]).fits(0)
    }

    /// The first `count` statements as they are written, each followed by
    /// a line break.
    pub open spec fn text_of(&self, count: nat) -> Seq<char>
        decreases count,
    {
        if count == 0 || count > self.nodes@.len() {
            Seq::empty()
        } else {
            self.text_of((count - 1) as nat) + self.nodes@[count - 1].text(0) + seq!['\n']
        }
    }

    /// The file as it is written: every statement, followed by a line
    /// break.
    pub open spec fn text(&self) -> Seq<char> {
        self.text_of(self.nodes@.len())
    }

    /// Whether every statement of the file can be written at depth zero.
    pub fn can_render(&self) -> (fits: bool)
        ensures
            fits == self.fits(),
    {
        let mut i: usize = 0;
        while i < self.nodes.len()
            invariant
                i <= self.nodes.len(),
                forall|k: int| 0 <= k < i ==> (#[trigger] self.nodes@[k]).fits(0),
            decreases self.nodes.len() - i,
        {
            if !self.nodes[i].can_emit(0) {
                return false;
            }
            i += 1;
        }
        true
    }

    /// Writes the file into a text of its own, where it can be written,
    /// and gives nothing where a function definition stands too deep.
    pub fn try_render(&self) -> (content: Option<String>)
        ensures
            content is Some <==> self.fits(),
            content matches Some(text) ==> text@ == self.text(),
    {
        if self.can_render() {
            Some(self.render())
        } else {
            None
        }
    }

    /// Writes the file into a text of its own.
    pub fn render(&self) -> (content: String)
        requires
            self.fits(),
        ensures
            content@ == self.text(),
    {
        let mut writer = FileWriter::new();
        let mut i: usize = 0;
        while i < self.nodes.len()
            invariant
                i <= self.nodes.len(),
                self.fits(),
                writer.indentation_lvl == 0,
                writer.content@ == self.text_of(i as nat),
            decreases self.nodes.len() - i,
        {
            self.nodes[i].emit(&mut writer);
            writer.append_line();
            i += 1;
            assert(writer.content@ =~= self.text_of(i as nat));
        }
        writer.content
    }
}

} // verus!
