//! Rectangles: from the path's last point to the opposite corner.
use vstd::prelude::*;
use vstd::string::*;

use crate::tikz::commands::draw::Draw;
use crate::tikz::format::{bracketed, options_text, thick_options, views};
use crate::tikz::numeric::Numeric;
use crate::tikz::point::{append_coordinate, coordinate, Point};
use crate::tikz::{ExtendPath, PathCommand};

verus! {

/// A path that ends with a rectangle whose opposite corner is a coordinate.
pub struct Rectangle<T: ExtendPath> {
    pub(crate) parent: T,
    pub(crate) x: String,
    pub(crate) y: String,
    pub(crate) thick: bool,
}

impl<T: ExtendPath> Rectangle<T> {
    /// The path before the rectangle.
    pub open(crate) spec fn parent(&self) -> T {
        self.parent
    }

    /// The first coordinate of the opposite corner as written.
    pub open(crate) spec fn x_text(&self) -> Seq<char> {
        self.x@
    }

    /// The second coordinate of the opposite corner as written.
    pub open(crate) spec fn y_text(&self) -> Seq<char> {
        self.y@
    }

    /// Whether the rectangle is drawn thick.
    pub open(crate) spec fn is_thick(&self) -> bool {
        self.thick
    }

    fn new<X: Numeric, Y: Numeric>(parent: T, x: X, y: Y) -> (r: Self)
        ensures
            r.parent() == parent,
            r.x_text() == x.spec_literal(),
            r.y_text() == y.spec_literal(),
            !r.is_thick(),
    {
        Rectangle { parent, x: x.literal(), y: y.literal(), thick: false }
    }

    /// The same rectangle, drawn thick or not.
    pub fn thick(self, thick: bool) -> (r: Self)
        ensures
            r.is_thick() == thick,
            r.parent() == self.parent(),
            r.x_text() == self.x_text(),
            r.y_text() == self.y_text(),
    {
        Rectangle { thick, ..self }
    }

    /// The option group of the rectangle.
    fn options(&self) -> (r: String)
        ensures
            r@ == bracketed(thick_options(self.is_thick())),
    {
        let mut options: Vec<String> = Vec::new();
        if self.thick {
            options.push(String::from_str("thick"));
        }
        assert(views(options@) =~= thick_options(self.thick));
        options_text(&options)
    }
}

impl<T: ExtendPath> PathCommand for Rectangle<T> {
    open spec fn path_text(&self) -> Seq<char> {
        self.parent().path_text() + bracketed(thick_options(self.is_thick())) + " rectangle"@
            + coordinate(self.x_text(), self.y_text())
    }

    proof fn lemma_empty_or_anchored(&self) {
        self.lemma_anchored();
    }

    fn text(&self) -> (r: String) {
        let mut r = self.parent.text();
        let options = self.options();
        r.append(options.as_str());
        r.append(" rectangle");
        append_coordinate(&mut r, &self.x, &self.y);
        r
    }
}

impl<T: ExtendPath> ExtendPath for Rectangle<T> {
    proof fn lemma_anchored(&self) {
        let p = self.parent().path_text();
        self.parent().lemma_anchored();
        assert(self.path_text()[0] == p[0]);
        assert(self.path_text()[1] == p[1]);
    }
}

impl<T: ExtendPath> Draw<T> {
    /// Continues the path with a rectangle from its last point to the
    /// opposite corner `(x, y)`, with no options.
    pub fn extend_rectangle<X: Numeric, Y: Numeric>(self, x: X, y: Y) -> (r: Draw<Rectangle<T>>)
        ensures
            r.path().parent() == self.path(),
            r.path().x_text() == x.spec_literal(),
            r.path().y_text() == y.spec_literal(),
            !r.path().is_thick(),
            r.path_text() == self.path_text() + " rectangle"@ + coordinate(
                x.spec_literal(),
                y.spec_literal(),
            ),
    {
        let r = Draw { current: Rectangle::new(self.current, x, y) };
        assert(thick_options(false) =~= Seq::empty());
        r
    }
}

impl<T: PathCommand> Draw<T> {
    /// Continues the path with the point `(x1, y1)` and a rectangle from it
    /// to the opposite corner `(x2, y2)`.
    pub fn rectangle<X1: Numeric, Y1: Numeric, X2: Numeric, Y2: Numeric>(
        self,
        x1: X1,
        y1: Y1,
        x2: X2,
        y2: Y2,
    ) -> (r: Draw<Rectangle<Point<T>>>)
        ensures
            r.path().parent().parent() == self.path(),
            r.path().parent().x_text() == x1.spec_literal(),
            r.path().parent().y_text() == y1.spec_literal(),
            r.path().x_text() == x2.spec_literal(),
            r.path().y_text() == y2.spec_literal(),
            !r.path().is_thick(),
            r.path_text() == self.path_text() + coordinate(x1.spec_literal(), y1.spec_literal())
                + " rectangle"@ + coordinate(x2.spec_literal(), y2.spec_literal()),
    {
        self.point(x1, y1).extend_rectangle(x2, y2)
    }
}

impl<T: ExtendPath> Draw<Rectangle<T>> {
    /// Draws the last rectangle thick or not.
    pub fn thick(self, thick: bool) -> (r: Self)
        ensures
            r.path().is_thick() == thick,
            r.path().parent() == self.path().parent(),
            r.path().x_text() == self.path().x_text(),
            r.path().y_text() == self.path().y_text(),
    {
        Draw { current: self.current.thick(thick) }
    }
}

} // verus!
