use vstd::prelude::*;

verus! {

/// The lines of `text`: what stands between its line breaks. A text of
/// `n` line breaks has `n + 1` lines, so the empty text has one empty line.
pub open spec fn split_lines(text: Seq<char>) -> Seq<Seq<char>>
    decreases text.len(),
{
    if text.len() == 0 {
        seq![Seq::<char>::empty()]
    } else {
        let before = split_lines(text.drop_last());
        if text.last() == '\n' {
            before.push(Seq::<char>::empty())
        } else {
            before.update(before.len() - 1, before.last().push(text.last()))
        }
    }
}

/// A source file as a sequence of lines, with the index of the line that
/// is handed out next.
#[derive(Debug)]
pub struct FileStream {
    lines: Vec<FileLine>,
    current_index: usize,
}

/// One line of a source file, with a cursor: the index of the character
/// that is read next.
#[derive(Debug)]
pub struct FileLine {
    pub number: usize,
    pub content: Vec<char>,
    pub current_index: usize,
}

impl FileLine {
    /// The cursor stands within the line or at its end, and the line is
    /// short enough for every column, and its number low enough for every
    /// row, to be a `usize`.
    pub open spec fn wf(&self) -> bool {
        &&& self.current_index <= self.content.len()
        &&& self.content.len() < usize::MAX
        &&& self.number < usize::MAX
    }

    /// The line `number` with the characters of `content`, its cursor at
    /// the start.
    pub fn new(content: &str, number: usize) -> (line: FileLine)
        ensures
            line.number == number,
            line.content@ == content@,
            line.current_index == 0,
    {
        let mut chars: Vec<char> = Vec::new();
        let it = content.chars();
        for c in iter: it
            invariant
                iter.seq() == content@,
                chars@ == content@.take(iter.index()),
        {
            chars.push(c);
            assert(content@.take(iter.index() + 1) =~= content@.take(iter.index()).push(c));
        }
        assert(content@.take(content@.len() as int) =~= content@);
        FileLine { number, content: chars, current_index: 0 }
    }

    /// Reads the character under the cursor and moves the cursor past it.
    /// At the end of the line nothing is read and nothing moves.
    pub fn get_next(&mut self) -> (next: Option<char>)
        ensures
            final(self).number == old(self).number,
            final(self).content == old(self).content,
            old(self).current_index < old(self).content.len() ==> next == Some(
                old(self).content@[old(self).current_index as int],
            ) && final(self).current_index == old(self).current_index + 1,
            old(self).current_index >= old(self).content.len() ==> next is None && final(self).current_index == old(self).current_index,
    {
        if self.current_index < self.content.len() {
            let c = self.content[self.current_index];
            self.current_index += 1;
            Some(c)
        } else {
            None
        }
    }

    /// Whether a character is left to read.
    pub fn can_read(&self) -> (b: bool)
        ensures
            b == (self.current_index < self.content.len()),
    {
        self.current_index < self.content.len()
    }

    /// Moves the cursor back by `steps` characters, and no further than
    /// the start of the line.
    pub fn backtrack(&mut self, steps: usize)
        ensures
            final(self).number == old(self).number,
            final(self).content == old(self).content,
            final(self).current_index == if steps > old(self).current_index {
                0
            } else {
                old(self).current_index - steps
            },
    {
        self.current_index = self.current_index.saturating_sub(steps);
    }
}

/// The characters of each line of a sequence of lines.
pub open spec fn line_texts(lines: Seq<FileLine>) -> Seq<Seq<char>> {
    lines.map_values(|line: FileLine| line.content@)
}

impl FileStream {
    /// The lines of the file, in order.
    pub closed spec fn lines(&self) -> Seq<FileLine> {
        self.lines@
    }

    /// The index of the line that `get_next` hands out next.
    pub closed spec fn cursor(&self) -> nat {
        self.current_index as nat
    }

    /// Every line is well formed and carries its own index as its number.
    pub open spec fn wf(&self) -> bool {
        forall|i: int|
            0 <= i < self.lines().len() ==> (#[trigger] self.lines()[i]).wf()
                && self.lines()[i].number == i
    }

    /// Splits `content` at its line breaks. Each line gets its index as
    /// its number and its cursor at its start; the first line is the one
    /// handed out first.
    pub fn new(content: &str) -> (stream: FileStream)
        requires
            content@.len() < usize::MAX,
        ensures
            stream.wf(),
            stream.cursor() == 0,
            line_texts(stream.lines()) == split_lines(content@),
            forall|i: int|
                0 <= i < stream.lines().len() ==> (#[trigger] stream.lines()[i]).current_index
                    == 0,
    {
        let mut lines: Vec<FileLine> = Vec::new();
        let mut current: Vec<char> = Vec::new();
        let it = content.chars();
        for c in iter: it
            invariant
                iter.seq() == content@,
                content@.len() < usize::MAX,
                line_texts(lines@).push(current@) == split_lines(content@.take(iter.index())),
                lines.len() + current.len() <= iter.index(),
                forall|i: int|
                    0 <= i < lines.len() ==> (#[trigger] lines@[i]).wf() && lines@[i].number == i
                        && lines@[i].current_index == 0,
        {
            let ghost before = content@.take(iter.index());
            let ghost after = content@.take(iter.index() + 1);
            assert(after.drop_last() =~= before);
            assert(after.last() == c);
            if c == '\n' {
                let number = lines.len();
                let ghost done = lines@;
                let line = FileLine { number, content: current, current_index: 0 };
                lines.push(line);
                current = Vec::new();
                assert(line_texts(lines@).push(current@) =~= line_texts(done).push(
                    line.content@,
                ).push(Seq::<char>::empty()));
            } else {
                let ghost text = current@;
                current.push(c);
                assert(line_texts(lines@).push(current@) =~= line_texts(lines@).push(text).update(
                    lines.len() as int,
                    text.push(c),
                ));
            }
        }
        assert(content@.take(content@.len() as int) =~= content@);
        let number = lines.len();
        let ghost done = lines@;
        let line = FileLine { number, content: current, current_index: 0 };
        lines.push(line);
        assert(line_texts(lines@) =~= line_texts(done).push(line.content@));
        FileStream { lines, current_index: 0 }
    }

    /// Hands out the line under the cursor, for reading and for moving its
    /// own cursor, and moves on to the next line. After the last line
    /// there is nothing to hand out.
    pub fn get_next(&mut self) -> (line: Option<&mut FileLine>)
        ensures
            match line {
                Some(l) => {
                    &&& old(self).cursor() < old(self).lines().len()
                    &&& *l == old(self).lines()[old(self).cursor() as int]
                    &&& final(self).cursor() == old(self).cursor() + 1
                    &&& final(self).lines() == old(self).lines().update(
                        old(self).cursor() as int,
                        *final(l),
                    )
                },
                None => old(self).cursor() >= old(self).lines().len() && *final(self) == *old(self),
            },
    {
        if self.current_index < self.lines.len() {
            let i = self.current_index;
            self.current_index += 1;
            Some(&mut self.lines[i])
        } else {
            None
        }
    }
}

} // verus!
