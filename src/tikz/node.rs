//! Text nodes placed on a path.
use vstd::prelude::*;
use vstd::string::*;

use crate::tikz::commands::draw::Draw;
use crate::tikz::format::{bracketed, options_text, views};
use crate::tikz::numeric::Numeric;
use crate::tikz::point::{coordinate, Point};
use crate::tikz::{ExtendPath, PathCommand};

verus! {

/// Where a node's text stands relative to its place on the path.
#[derive(Clone, Copy, Debug, PartialEq, Eq)]
pub enum NodePosition {
    Left,
    Right,
    Above,
    Below,
    AboveLeft,
    AboveRight,
    BelowLeft,
    BelowRight,
    Origin,
}

impl NodePosition {
    /// The position's option; `Origin` leaves the position unspecified and has
    /// none.
    pub open spec fn spec_text(self) -> Seq<char> {
        match self {
            NodePosition::Left => "left"@,
            NodePosition::Right => "right"@,
            NodePosition::Above => "above"@,
            NodePosition::Below => "below"@,
            NodePosition::AboveLeft => "above left"@,
            NodePosition::AboveRight => "above right"@,
            NodePosition::BelowLeft => "below left"@,
            NodePosition::BelowRight => "below right"@,
            NodePosition::Origin => Seq::empty(),
        }
    }

    pub fn text(&self) -> (r: &'static str)
        ensures
            r@ == self.spec_text(),
    {
        match self {
            NodePosition::Left => "left",
            NodePosition::Right => "right",
            NodePosition::Above => "above",
            NodePosition::Below => "below",
            NodePosition::AboveLeft => "above left",
            NodePosition::AboveRight => "above right",
            NodePosition::BelowLeft => "below left",
            NodePosition::BelowRight => "below right",
            NodePosition::Origin => {
                proof {
                    reveal_strlit("");
                }
                ""
            },
        }
    }
}

/// The options of a node, in order: its position unless it is `Origin`, then
/// `midway` when set.
pub open spec fn node_options(position: NodePosition, midway: bool) -> Seq<Seq<char>> {
    (if position == NodePosition::Origin {
        Seq::empty()
    } else {
        seq![position.spec_text()]
    }) + (if midway {
        seq!["midway"@]
    } else {
        Seq::empty()
    })
}

/// A node as it is written: ` node`, its option group, and its content
/// between braces, as it is.
pub open spec fn node_text(options: Seq<char>, content: Seq<char>) -> Seq<char> {
    " node"@ + options + " {"@ + content + "}"@
}

/// A path that ends with a text node.
pub struct Node<T: ExtendPath> {
    pub(crate) parent: T,
    pub(crate) content: String,
    pub(crate) position: NodePosition,
    pub(crate) midway: bool,
}

impl<T: ExtendPath> Node<T> {
    /// The path before the node.
    pub open(crate) spec fn parent(&self) -> T {
        self.parent
    }

    /// The node's text.
    pub open(crate) spec fn content(&self) -> Seq<char> {
        self.content@
    }

    /// Where the node's text stands.
    pub open(crate) spec fn spec_position(&self) -> NodePosition {
        self.position
    }

    /// Whether the node stands halfway along the path's last part.
    pub open(crate) spec fn is_midway(&self) -> bool {
        self.midway
    }

    fn new(parent: T, content: &str) -> (r: Self)
        ensures
            r.parent() == parent,
            r.content() == content@,
            r.spec_position() == NodePosition::Origin,
            !r.is_midway(),
    {
        Node {
            parent,
            content: String::from_str(content),
            position: NodePosition::Origin,
            midway: false,
        }
    }

    /// The same node at another position.
    pub fn position(self, horizontal_position: NodePosition) -> (r: Self)
        ensures
            r.spec_position() == horizontal_position,
            r.parent() == self.parent(),
            r.content() == self.content(),
            r.is_midway() == self.is_midway(),
    {
        Node { position: horizontal_position, ..self }
    }

    /// The same node, halfway along the path's last part or not.
    pub fn midway(self, midway: bool) -> (r: Self)
        ensures
            r.is_midway() == midway,
            r.parent() == self.parent(),
            r.content() == self.content(),
            r.spec_position() == self.spec_position(),
    {
        Node { midway, ..self }
    }

    /// The option group of the node.
    fn options(&self) -> (r: String)
        ensures
            r@ == bracketed(node_options(self.spec_position(), self.is_midway())),
    {
        let mut options: Vec<String> = Vec::new();
        match self.position {
            NodePosition::Origin => {},
            position => {
                options.push(String::from_str(position.text()));
            },
        }
        if self.midway {
            options.push(String::from_str("midway"));
        }
        assert(views(options@) =~= node_options(self.position, self.midway));
        options_text(&options)
    }
}

impl<T: ExtendPath> PathCommand for Node<T> {
    open spec fn path_text(&self) -> Seq<char> {
        self.parent().path_text() + node_text(
            bracketed(node_options(self.spec_position(), self.is_midway())),
            self.content(),
        )
    }

    proof fn lemma_empty_or_anchored(&self) {
        self.lemma_anchored();
    }

    fn text(&self) -> (r: String) {
        let mut r = self.parent.text();
        let options = self.options();
        r.append(" node");
        r.append(options.as_str());
        r.append(" {");
        r.append(self.content.as_str());
        r.append("}");
        assert(r@ =~= self.path_text());
        r
    }
}

impl<T: ExtendPath> ExtendPath for Node<T> {
    proof fn lemma_anchored(&self) {
        let p = self.parent().path_text();
        self.parent().lemma_anchored();
        assert(self.path_text()[0] == p[0]);
        assert(self.path_text()[1] == p[1]);
    }
}

impl<T: ExtendPath> Draw<T> {
    /// Continues the path with a node holding `content`, with no options.
    pub fn node(self, content: &str) -> (r: Draw<Node<T>>)
        ensures
            r.path().parent() == self.path(),
            r.path().content() == content@,
            r.path().spec_position() == NodePosition::Origin,
            !r.path().is_midway(),
            r.path_text() == self.path_text() + node_text(Seq::empty(), content@),
    {
        let r = Draw { current: Node::new(self.current, content) };
        assert(node_options(NodePosition::Origin, false) =~= Seq::empty());
        r
    }
}

impl<T: PathCommand> Draw<T> {
    /// Continues the path with the point `(x1, y1)` and a node holding
    /// `content` there.
    pub fn node_at<X1: Numeric, Y1: Numeric>(self, x1: X1, y1: Y1, content: &str) -> (r: Draw<
        Node<Point<T>>,
    >)
        ensures
            r.path().parent().parent() == self.path(),
            r.path().parent().x_text() == x1.spec_literal(),
            r.path().parent().y_text() == y1.spec_literal(),
            r.path().content() == content@,
            r.path().spec_position() == NodePosition::Origin,
            !r.path().is_midway(),
            r.path_text() == self.path_text() + coordinate(x1.spec_literal(), y1.spec_literal())
                + node_text(Seq::empty(), content@),
    {
        self.point(x1, y1).node(content)
    }
}

impl<T: ExtendPath> Draw<Node<T>> {
    /// Places the last node's text.
    pub fn position(self, horizontal_position: NodePosition) -> (r: Self)
        ensures
            r.path().spec_position() == horizontal_position,
            r.path().parent() == self.path().parent(),
            r.path().content() == self.path().content(),
            r.path().is_midway() == self.path().is_midway(),
    {
        Draw { current: self.current.position(horizontal_position) }
    }

    /// Places the last node halfway along the path's last part, or not.
    pub fn midway(self, midway: bool) -> (r: Self)
        ensures
            r.path().is_midway() == midway,
            r.path().parent() == self.path().parent(),
            r.path().content() == self.path().content(),
            r.path().spec_position() == self.path().spec_position(),
    {
        Draw { current: self.current.midway(midway) }
    }
}

} // verus!
