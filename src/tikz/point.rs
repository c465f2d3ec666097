//! Points: the elements that anchor a path at a coordinate.
use vstd::prelude::*;
use vstd::string::*;

use crate::tikz::commands::draw::Draw;
use crate::tikz::numeric::Numeric;
use crate::tikz::{anchored, ExtendPath, PathCommand};

verus! {

/// A coordinate as it is written: `(x, y)`, after a space.
pub open spec fn coordinate(x: Seq<char>, y: Seq<char>) -> Seq<char> {
    " ("@ + x + ", "@ + y + ")"@
}

/// Writes `coordinate(x, y)` after `r`.
pub(crate) fn append_coordinate(r: &mut String, x: &String, y: &String)
    ensures
        final(r)@ == old(r)@ + coordinate(x@, y@),
{
    r.append(" (");
    r.append(x.as_str());
    r.append(", ");
    r.append(y.as_str());
    r.append(")");
    assert(final(r)@ =~= old(r)@ + coordinate(x@, y@));
}

/// A path that ends at a point.
pub struct Point<T: PathCommand> {
    pub(crate) parent: T,
    pub(crate) x: String,
    pub(crate) y: String,
}

impl<T: PathCommand> Point<T> {
    /// The path before the point.
    pub open(crate) spec fn parent(&self) -> T {
        self.parent
    }

    /// The point's first coordinate as written.
    pub open(crate) spec fn x_text(&self) -> Seq<char> {
        self.x@
    }

    /// The point's second coordinate as written.
    pub open(crate) spec fn y_text(&self) -> Seq<char> {
        self.y@
    }

    fn new<X: Numeric, Y: Numeric>(parent: T, x: X, y: Y) -> (r: Self)
        ensures
            r.parent() == parent,
            r.x_text() == x.spec_literal(),
            r.y_text() == y.spec_literal(),
    {
        Point { parent, x: x.literal(), y: y.literal() }
    }
}

impl<T: PathCommand> PathCommand for Point<T> {
    open spec fn path_text(&self) -> Seq<char> {
        self.parent().path_text() + coordinate(self.x_text(), self.y_text())
    }

    proof fn lemma_empty_or_anchored(&self) {
        self.lemma_anchored();
    }

    fn text(&self) -> (r: String) {
        let mut r = self.parent.text();
        append_coordinate(&mut r, &self.x, &self.y);
        r
    }
}

impl<T: PathCommand> ExtendPath for Point<T> {
    proof fn lemma_anchored(&self) {
        let p = self.parent().path_text();
        let c = coordinate(self.x_text(), self.y_text());
        self.parent().lemma_empty_or_anchored();
        reveal_strlit(" (");
        assert(c[0] == ' ' && c[1] == '(');
        assert(self.path_text() == p + c);
        if p.len() == 0 {
            assert(self.path_text() =~= c);
        } else {
            assert(self.path_text()[0] == p[0]);
            assert(self.path_text()[1] == p[1]);
        }
    }
}

impl<T: PathCommand> Draw<T> {
    /// Continues the path with the point `(x, y)`.
    pub fn point<X: Numeric, Y: Numeric>(self, x: X, y: Y) -> (r: Draw<Point<T>>)
        ensures
            r.path().parent() == self.path(),
            r.path().x_text() == x.spec_literal(),
            r.path().y_text() == y.spec_literal(),
            r.path_text() == self.path_text() + coordinate(x.spec_literal(), y.spec_literal()),
    {
        Draw { current: Point::new(self.current, x, y) }
    }
}

} // verus!
