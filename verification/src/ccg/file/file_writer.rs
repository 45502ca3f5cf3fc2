use vstd::prelude::*;
use vstd::string::StringExecFns;
use crate::common::text::push_char;

verus! {

/// A text under construction, with the depth at which new lines are
/// indented.
#[derive(Debug)]
pub struct FileWriter {
    pub content: String,
    pub indentation_lvl: u8,
}

/// `count` tabs.
pub open spec fn tabs(count: nat) -> Seq<char> {
    Seq::new(count, |i: int| '\t')
}

/// A line break and the indentation of the new line at depth `level`.
pub open spec fn new_line(level: nat) -> Seq<char> {
    seq!['\n'] + tabs(level)
}

impl FileWriter {
    /// An empty text at depth zero.
    pub fn new() -> (writer: Self)
        ensures
            writer.content@ == Seq::<char>::empty(),
            writer.indentation_lvl == 0,
    {
        FileWriter { content: String::new(), indentation_lvl: 0 }
    }

    /// Appends `value`.
    pub fn append_str(&mut self, value: &str) -> (writer: &mut Self)
        ensures
            writer.content@ == old(self).content@ + value@,
            writer.indentation_lvl == old(self).indentation_lvl,
            *final(self) == *final(writer),
    {
        self.content.append(value);
        self
    }

    /// Appends the character `value`.
    pub fn append(&mut self, value: &char) -> (writer: &mut Self)
        ensures
            writer.content@ == old(self).content@.push(*value),
            writer.indentation_lvl == old(self).indentation_lvl,
            *final(self) == *final(writer),
    {
        push_char(&mut self.content, *value);
        self
    }

    /// Appends a space.
    pub fn append_space(&mut self) -> (writer: &mut Self)
        ensures
            writer.content@ == old(self).content@.push(' '),
            writer.indentation_lvl == old(self).indentation_lvl,
            *final(self) == *final(writer),
    {
        self.append(&' ')
    }

    /// Starts a new line: appends a line break and one tab for each level
    /// of indentation.
    pub fn append_line(&mut self) -> (writer: &mut Self)
        ensures
            writer.content@ == old(self).content@ + new_line(old(self).indentation_lvl as nat),
            writer.indentation_lvl == old(self).indentation_lvl,
            *final(self) == *final(writer),
    {
        self.append(&'\n');
        let mut done: u8 = 0;
        assert(self.content@ =~= old(self).content@ + seq!['\n'] + tabs(0));
        while done < self.indentation_lvl
            invariant
                done <= self.indentation_lvl,
                self.indentation_lvl == old(self).indentation_lvl,
                self.content@ == old(self).content@ + seq!['\n'] + tabs(done as nat),
            decreases self.indentation_lvl - done,
        {
            self.append(&'\t');
            done += 1;
            assert(self.content@ =~= old(self).content@ + seq!['\n'] + tabs(done as nat));
        }
        assert(self.content@ =~= old(self).content@ + new_line(old(self).indentation_lvl as nat));
        self
    }

    /// The text so far.
    pub fn get_content(&self) -> (content: &String)
        ensures
            *content == self.content,
    {
        &self.content
    }

    /// Indents the lines to come by one level more.
    pub fn indent_right(&mut self) -> (writer: &mut Self)
        requires
            old(self).indentation_lvl < u8::MAX,
        ensures
            writer.content == old(self).content,
            writer.indentation_lvl == old(self).indentation_lvl + 1,
            *final(self) == *final(writer),
    {
        self.indentation_lvl += 1;
        self
    }

    /// Indents the lines to come by one level less, and by none less than
    /// none.
    pub fn indent_left(&mut self) -> (writer: &mut Self)
        ensures
            writer.content == old(self).content,
            writer.indentation_lvl == if old(self).indentation_lvl == 0 {
                0
            } else {
                old(self).indentation_lvl - 1
            },
            *final(self) == *final(writer),
    {
        if self.indentation_lvl != 0 {
            self.indentation_lvl -= 1;
        }
        self
    }
}

} // verus!
