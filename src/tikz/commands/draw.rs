//! The draw command and the empty path that every drawn path starts from.
use vstd::prelude::*;
use vstd::string::*;

use crate::tikz::{Command, ExtendPath, PathCommand};

verus! {

/// A `\draw` statement that strokes its path.
pub struct Draw<T: PathCommand> {
    pub(crate) current: T,
}

impl<T: PathCommand> Draw<T> {
    /// The path drawn.
    pub open(crate) spec fn path(&self) -> T {
        self.current
    }

    /// The text of the path drawn.
    pub open spec fn path_text(&self) -> Seq<char> {
        self.path().path_text()
    }
}

impl Draw<Noop> {
    /// A draw command whose path is still empty.
    pub fn new() -> (r: Self)
        ensures
            r.path_text() == Seq::<char>::empty(),
    {
        Draw { current: Noop }
    }
}

impl Default for Draw<Noop> {
    fn default() -> (r: Self)
        ensures
            r.path_text() == Seq::<char>::empty(),
    {
        Self::new()
    }
}

/// The statement that draws a path with the given text.
pub open spec fn draw_text(path: Seq<char>) -> Seq<char> {
    "\\draw"@ + path + ";"@
}

impl<T: PathCommand> Command for Draw<T> {
    open spec fn command_text(&self) -> Seq<char> {
        draw_text(self.path_text())
    }

    fn text(&self) -> (r: String) {
        let mut r = String::from_str("\\draw");
        let path = self.current.text();
        r.append(path.as_str());
        r.append(";");
        r
    }
}

/// The empty path: the start of every path, rendered as nothing.
pub struct Noop;

impl PathCommand for Noop {
    open spec fn path_text(&self) -> Seq<char> {
        Seq::empty()
    }

    proof fn lemma_empty_or_anchored(&self) {
    }

    fn text(&self) -> (r: String) {
        String::new()
    }
}

} // verus!
