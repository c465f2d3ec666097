//! Circles: around the path's last point, with a radius.
use vstd::prelude::*;
use vstd::string::*;

use crate::tikz::commands::draw::Draw;
use crate::tikz::format::{bracketed, options_text, thick_options, views};
use crate::tikz::numeric::Numeric;
use crate::tikz::point::{coordinate, Point};
use crate::tikz::{ExtendPath, PathCommand};

verus! {

/// A radius as it is written: ` circle (r)`.
pub open spec fn radius_text(radius: Seq<char>) -> Seq<char> {
    " circle ("@ + radius + ")"@
}

/// A path that ends with a circle around its last point.
pub struct Circle<T: ExtendPath> {
    pub(crate) parent: T,
    pub(crate) radius: String,
    pub(crate) thick: bool,
}

impl<T: ExtendPath> Circle<T> {
    /// The path before the circle.
    pub open(crate) spec fn parent(&self) -> T {
        self.parent
    }

    /// The radius as written.
    pub open(crate) spec fn radius_text(&self) -> Seq<char> {
        self.radius@
    }

    /// Whether the circle is drawn thick.
    pub open(crate) spec fn is_thick(&self) -> bool {
        self.thick
    }

    fn new<R: Numeric>(parent: T, radius: R) -> (r: Self)
        ensures
            r.parent() == parent,
            r.radius_text() == radius.spec_literal(),
            !r.is_thick(),
    {
        Circle { parent, radius: radius.literal(), thick: false }
    }

    /// The same circle, drawn thick or not.
    pub fn thick(self, thick: bool) -> (r: Self)
        ensures
            r.is_thick() == thick,
            r.parent() == self.parent(),
            r.radius_text() == self.radius_text(),
    {
        Circle { thick, ..self }
    }

    /// The option group of the circle.
    fn options(&self) -> (r: String)
        ensures
            r@ == bracketed(thick_options(self.is_thick())),
    {
        let mut options: Vec<String> = Vec::new();
        if self.thick {
            options.push(String::from_str("thick"));
        }
        assert(views(options@) =~= thick_options(self.thick));
        options_text(&options)
    }
}

impl<T: ExtendPath> PathCommand for Circle<T> {
    open spec fn path_text(&self) -> Seq<char> {
        self.parent().path_text() + bracketed(thick_options(self.is_thick())) + radius_text(
            self.radius_text(),
        )
    }

    proof fn lemma_empty_or_anchored(&self) {
        self.lemma_anchored();
    }

    fn text(&self) -> (r: String) {
        let mut r = self.parent.text();
        let options = self.options();
        r.append(options.as_str());
        r.append(" circle (");
        r.append(self.radius.as_str());
        r.append(")");
        assert(r@ =~= self.path_text());
        r
    }
}

impl<T: ExtendPath> ExtendPath for Circle<T> {
    proof fn lemma_anchored(&self) {
        let p = self.parent().path_text();
        self.parent().lemma_anchored();
        assert(self.path_text()[0] == p[0]);
        assert(self.path_text()[1] == p[1]);
    }
}

impl<T: ExtendPath> Draw<T> {
    /// Continues the path with a circle of the given radius around its last
    /// point, with no options.
    pub fn extend_circle<R: Numeric>(self, radius: R) -> (r: Draw<Circle<T>>)
        ensures
            r.path().parent() == self.path(),
            r.path().radius_text() == radius.spec_literal(),
            !r.path().is_thick(),
            r.path_text() == self.path_text() + radius_text(radius.spec_literal()),
    {
        let r = Draw { current: Circle::new(self.current, radius) };
        assert(thick_options(false) =~= Seq::empty());
        r
    }
}

impl<T: PathCommand> Draw<T> {
    /// Continues the path with the point `(x1, y1)` and a circle of the given
    /// radius around it.
    pub fn circle<X1: Numeric, Y1: Numeric, R: Numeric>(self, x1: X1, y1: Y1, radius: R) -> (r:
        Draw<Circle<Point<T>>>)
        ensures
            r.path().parent().parent() == self.path(),
            r.path().parent().x_text() == x1.spec_literal(),
            r.path().parent().y_text() == y1.spec_literal(),
            r.path().radius_text() == radius.spec_literal(),
            !r.path().is_thick(),
            r.path_text() == self.path_text() + coordinate(x1.spec_literal(), y1.spec_literal())
                + radius_text(radius.spec_literal()),
    {
        self.point(x1, y1).extend_circle(radius)
    }
}

impl<T: ExtendPath> Draw<Circle<T>> {
    /// Draws the last circle thick or not.
    pub fn thick(self, thick: bool) -> (r: Self)
        ensures
            r.path().is_thick() == thick,
            r.path().parent() == self.path().parent(),
            r.path().radius_text() == self.path().radius_text(),
    {
        Draw { current: self.current.thick(thick) }
    }
}

} // verus!
