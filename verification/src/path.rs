//! The immutable path that a builder yields.

use vstd::prelude::*;
use crate::command::{cursor_of, lemma_push, lemma_take_next, segment_count, start_of, vertices_of, Command};
use crate::geometry::Point;

verus! {

/// A finished path: a fixed sequence of primitive commands. It offers no way
/// to change them.
#[derive(Clone, Debug)]
pub struct Path {
    commands: Vec<Command>,
}

impl View for Path {
    type V = Seq<Command>;

    closed spec fn view(&self) -> Seq<Command> {
        self.commands@
    }
}

impl Path {
    /// A path of the given commands.
    pub(crate) fn from_commands(commands: Vec<Command>) -> (path: Path)
        ensures
            path@ == commands@,
    {
        Path { commands }
    }

    /// The number of commands.
    pub fn len(&self) -> (n: usize)
        ensures
            n == self@.len(),
    {
        self.commands.len()
    }

    /// Whether the path holds no command.
    pub fn is_empty(&self) -> (r: bool)
        ensures
            r == (self@.len() == 0),
    {
        self.commands.len() == 0
    }

    /// The command at `index`, if there is one.
    pub fn command(&self, index: usize) -> (c: Option<Command>)
        ensures
            c == (if index < self@.len() { Some(self@[index as int]) } else { None }),
    {
        if index < self.commands.len() {
            Some(self.commands[index])
        } else {
            None
        }
    }

    /// The commands, in the order in which they were given.
    pub fn commands(&self) -> (out: Vec<Command>)
        ensures
            out@ == self@,
    {
        let mut out: Vec<Command> = Vec::new();
        let mut i: usize = 0;
        while i < self.commands.len()
            invariant
                i <= self.commands.len(),
                out@ == self.commands@.take(i as int),
            decreases self.commands.len() - i,
        {
            proof {
                lemma_take_next(self.commands@, i as int);
            }
            out.push(self.commands[i]);
            i += 1;
        }
        assert(self.commands@.take(i as int) =~= self.commands@);
        out
    }

    /// Whether the path ends by closing its last sub-path.
    pub fn is_closed(&self) -> (r: bool)
        ensures
            r == crate::command::ends_closed(self@),
    {
        let n: usize = self.commands.len();
        n > 0 && self.commands[n - 1] == Command::Close
    }

    /// The points that the path visits, one for each command.
    pub fn vertices(&self) -> (out: Vec<Point>)
        ensures
            out@ == vertices_of(self@),
    {
        let mut out: Vec<Point> = Vec::new();
        let mut start: Point = Point::origin();
        let mut i: usize = 0;
        while i < self.commands.len()
            invariant
                i <= self.commands.len(),
                start == start_of(self.commands@.take(i as int)),
                out@.len() == i,
                forall|k: int| 0 <= k < i ==> out@[k] == cursor_of(#[trigger] self.commands@.take(k + 1)),
            decreases self.commands.len() - i,
        {
            let command: Command = self.commands[i];
            proof {
                lemma_take_next(self.commands@, i as int);
                lemma_push(self.commands@.take(i as int), command);
            }
            out.push(command.cursor_after(start));
            start = command.start_after(start);
            i += 1;
        }
        assert(out@ =~= vertices_of(self@));
        out
    }

    /// How many segments the path draws.
    pub fn segments(&self) -> (n: usize)
        ensures
            n == segment_count(self@),
    {
        let mut n: usize = 0;
        let mut i: usize = 0;
        while i < self.commands.len()
            invariant
                i <= self.commands.len(),
                n == segment_count(self.commands@.take(i as int)),
                n <= i,
            decreases self.commands.len() - i,
        {
            let command: Command = self.commands[i];
            proof {
                lemma_take_next(self.commands@, i as int);
                lemma_push(self.commands@.take(i as int), command);
            }
            if command.draws() {
                n += 1;
            }
            i += 1;
        }
        assert(self.commands@.take(i as int) =~= self.commands@);
        n
    }
}

} // verus!
