//! Line segments: `--` to a coordinate, with a thickness and arrow tips.
use vstd::prelude::*;
use vstd::string::*;

use crate::tikz::commands::draw::Draw;
use crate::tikz::format::{bracketed, options_text, views};
use crate::tikz::numeric::Numeric;
use crate::tikz::point::{append_coordinate, coordinate, Point};
use crate::tikz::{ArrowType, ExtendPath, PathCommand};

verus! {

/// The options of a segment, in order: `thick` when set, then the arrow tips
/// `start-end` unless both are the default tip.
pub open spec fn line_options(thick: bool, start: ArrowType, end: ArrowType) -> Seq<Seq<char>> {
    (if thick {
        seq!["thick"@]
    } else {
        Seq::empty()
    }) + (if start == ArrowType::Default && end == ArrowType::Default {
        Seq::empty()
    } else {
        seq![start.spec_text() + "-"@ + end.spec_text()]
    })
}

/// A path that ends with a line segment to a coordinate.
pub struct Line<T: ExtendPath> {
    pub(crate) parent: T,
    pub(crate) x: String,
    pub(crate) y: String,
    pub(crate) thick: bool,
    pub(crate) start: ArrowType,
    pub(crate) end: ArrowType,
}

impl<T: ExtendPath> Line<T> {
    /// The path before the segment.
    pub open(crate) spec fn parent(&self) -> T {
        self.parent
    }

    /// The first coordinate of the segment's end as written.
    pub open(crate) spec fn x_text(&self) -> Seq<char> {
        self.x@
    }

    /// The second coordinate of the segment's end as written.
    pub open(crate) spec fn y_text(&self) -> Seq<char> {
        self.y@
    }

    /// Whether the segment is drawn thick.
    pub open(crate) spec fn is_thick(&self) -> bool {
        self.thick
    }

    /// The tip at the segment's start.
    pub open(crate) spec fn start_arrow(&self) -> ArrowType {
        self.start
    }

    /// The tip at the segment's end.
    pub open(crate) spec fn end_arrow(&self) -> ArrowType {
        self.end
    }

    fn new<X: Numeric, Y: Numeric>(parent: T, x: X, y: Y) -> (r: Self)
        ensures
            r.parent() == parent,
            r.x_text() == x.spec_literal(),
            r.y_text() == y.spec_literal(),
            !r.is_thick(),
            r.start_arrow() == ArrowType::Default,
            r.end_arrow() == ArrowType::Default,
    {
        Line {
            parent,
            x: x.literal(),
            y: y.literal(),
            thick: false,
            start: ArrowType::Default,
            end: ArrowType::Default,
        }
    }

    /// The same segment with the tip `start` at its start.
    pub fn start(self, start: ArrowType) -> (r: Self)
        ensures
            r.start_arrow() == start,
            r.parent() == self.parent(),
            r.x_text() == self.x_text(),
            r.y_text() == self.y_text(),
            r.is_thick() == self.is_thick(),
            r.end_arrow() == self.end_arrow(),
    {
        Line { start, ..self }
    }

    /// The same segment with the tip `end` at its end.
    pub fn end(self, end: ArrowType) -> (r: Self)
        ensures
            r.end_arrow() == end,
            r.parent() == self.parent(),
            r.x_text() == self.x_text(),
            r.y_text() == self.y_text(),
            r.is_thick() == self.is_thick(),
            r.start_arrow() == self.start_arrow(),
    {
        Line { end, ..self }
    }

    /// The same segment, drawn thick or not.
    pub fn thick(self, thick: bool) -> (r: Self)
        ensures
            r.is_thick() == thick,
            r.parent() == self.parent(),
            r.x_text() == self.x_text(),
            r.y_text() == self.y_text(),
            r.start_arrow() == self.start_arrow(),
            r.end_arrow() == self.end_arrow(),
    {
        Line { thick, ..self }
    }

    /// The option group of the segment.
    fn options(&self) -> (r: String)
        ensures
            r@ == bracketed(line_options(self.is_thick(), self.start_arrow(), self.end_arrow())),
    {
        let mut options: Vec<String> = Vec::new();
        if self.thick {
            options.push(String::from_str("thick"));
        }
        match (self.start, self.end) {
            (ArrowType::Default, ArrowType::Default) => {},
            (start, end) => {
                let mut arrows = String::from_str(start.text());
                arrows.append("-");
                arrows.append(end.text());
                options.push(arrows);
            },
        }
        assert(views(options@) =~= line_options(self.thick, self.start, self.end));
        options_text(&options)
    }
}

impl<T: ExtendPath> PathCommand for Line<T> {
    open spec fn path_text(&self) -> Seq<char> {
        self.parent().path_text() + bracketed(
            line_options(self.is_thick(), self.start_arrow(), self.end_arrow()),
        ) + " --"@ + coordinate(self.x_text(), self.y_text())
    }

    proof fn lemma_empty_or_anchored(&self) {
        self.lemma_anchored();
    }

    fn text(&self) -> (r: String) {
        let mut r = self.parent.text();
        let options = self.options();
        r.append(options.as_str());
        r.append(" --");
        append_coordinate(&mut r, &self.x, &self.y);
        r
    }
}

impl<T: ExtendPath> ExtendPath for Line<T> {
    proof fn lemma_anchored(&self) {
        let p = self.parent().path_text();
        self.parent().lemma_anchored();
        assert(self.path_text()[0] == p[0]);
        assert(self.path_text()[1] == p[1]);
    }
}

impl<T: ExtendPath> Draw<T> {
    /// Continues the path with a segment to `(x, y)`, with no options.
    pub fn extend_line<X: Numeric, Y: Numeric>(self, x: X, y: Y) -> (r: Draw<Line<T>>)
        ensures
            r.path().parent() == self.path(),
            r.path().x_text() == x.spec_literal(),
            r.path().y_text() == y.spec_literal(),
            !r.path().is_thick(),
            r.path().start_arrow() == ArrowType::Default,
            r.path().end_arrow() == ArrowType::Default,
            r.path_text() == self.path_text() + " --"@ + coordinate(
                x.spec_literal(),
                y.spec_literal(),
            ),
    {
        let r = Draw { current: Line::new(self.current, x, y) };
        assert(line_options(false, ArrowType::Default, ArrowType::Default) =~= Seq::empty());
        r
    }
}

impl<T: PathCommand> Draw<T> {
    /// Continues the path with the point `(x1, y1)` and a segment from it to
    /// `(x2, y2)`.
    pub fn line<X1: Numeric, Y1: Numeric, X2: Numeric, Y2: Numeric>(
        self,
        x1: X1,
        y1: Y1,
        x2: X2,
        y2: Y2,
    ) -> (r: Draw<Line<Point<T>>>)
        ensures
            r.path().parent().parent() == self.path(),
            r.path().parent().x_text() == x1.spec_literal(),
            r.path().parent().y_text() == y1.spec_literal(),
            r.path().x_text() == x2.spec_literal(),
            r.path().y_text() == y2.spec_literal(),
            !r.path().is_thick(),
            r.path().start_arrow() == ArrowType::Default,
            r.path().end_arrow() == ArrowType::Default,
            r.path_text() == self.path_text() + coordinate(x1.spec_literal(), y1.spec_literal())
                + " --"@ + coordinate(x2.spec_literal(), y2.spec_literal()),
    {
        self.point(x1, y1).extend_line(x2, y2)
    }
}

impl<T: ExtendPath> Draw<Line<T>> {
    /// Sets the tip at the start of the last segment.
    pub fn arrow_start(self, style: ArrowType) -> (r: Self)
        ensures
            r.path().start_arrow() == style,
            r.path().parent() == self.path().parent(),
            r.path().x_text() == self.path().x_text(),
            r.path().y_text() == self.path().y_text(),
            r.path().is_thick() == self.path().is_thick(),
            r.path().end_arrow() == self.path().end_arrow(),
    {
        Draw { current: self.current.start(style) }
    }

    /// Sets the tip at the end of the last segment.
    pub fn arrow_end(self, style: ArrowType) -> (r: Self)
        ensures
            r.path().end_arrow() == style,
            r.path().parent() == self.path().parent(),
            r.path().x_text() == self.path().x_text(),
            r.path().y_text() == self.path().y_text(),
            r.path().is_thick() == self.path().is_thick(),
            r.path().start_arrow() == self.path().start_arrow(),
    {
        Draw { current: self.current.end(style) }
    }

    /// Draws the last segment thick or not.
    pub fn thick(self, thick: bool) -> (r: Self)
        ensures
            r.path().is_thick() == thick,
            r.path().parent() == self.path().parent(),
            r.path().x_text() == self.path().x_text(),
            r.path().y_text() == self.path().y_text(),
            r.path().start_arrow() == self.path().start_arrow(),
            r.path().end_arrow() == self.path().end_arrow(),
    {
        Draw { current: self.current.thick(thick) }
    }
}

} // verus!
