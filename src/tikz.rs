//! Pictures, the command and path traits, and arrow tips.
use vstd::prelude::*;
use vstd::string::*;

pub mod circle;
pub mod commands;
pub mod format;
pub mod line;
pub mod node;
pub mod numeric;
pub mod point;
pub mod rectangle;

use crate::tikz::format::{
    bracketed, join, joined, lemma_part_position, lemma_parts_in_order, part_offset, thick_options,
    views,
};
use crate::tikz::line::line_options;
use crate::tikz::node::{node_options, NodePosition};

verus! {

/// A picture: the rendered commands in the order they were added.
pub struct TikzPicture {
    commands: Vec<String>,
}

impl View for TikzPicture {
    type V = Seq<Seq<char>>;

    closed spec fn view(&self) -> Seq<Seq<char>> {
        views(self.commands@)
    }
}

/// The separator between two commands of a picture: a line break and a tab.
pub open spec fn command_separator() -> Seq<char> {
    "\n\t"@
}

/// A whole picture: the opening line, the commands each on a line of its own
/// after a tab, and the closing line.
pub open spec fn picture_text(commands: Seq<Seq<char>>) -> Seq<char> {
    "\\begin{tikzpicture}\n\t"@ + joined(commands, command_separator())
        + "\n\\end{tikzpicture}"@
}

impl TikzPicture {
    /// An empty picture.
    pub fn begin() -> (r: TikzPicture)
        ensures
            r@ == Seq::<Seq<char>>::empty(),
    {
        let r = TikzPicture { commands: Vec::new() };
        assert(r@ =~= Seq::<Seq<char>>::empty());
        r
    }

    /// The picture with `command` added after the others.
    pub fn and<U: Command>(self, command: U) -> (r: TikzPicture)
        ensures
            r@ == self@.push(command.command_text()),
    {
        let mut r = self;
        r.push_command(command);
        r
    }

    /// Adds `command` after the others.
    pub fn push_command<U: Command>(&mut self, command: U)
        ensures
            final(self)@ == old(self)@.push(command.command_text()),
    {
        let text = command.text();
        self.commands.push(text);
        assert(self@ =~= old(self)@.push(command.command_text()));
    }

    /// The picture's text.
    pub fn end(self) -> (r: String)
        ensures
            r@ == picture_text(self@),
    {
        let mut r = String::from_str("\\begin{tikzpicture}\n\t");
        let body = join(&self.commands, "\n\t");
        r.append(body.as_str());
        r.append("\n\\end{tikzpicture}");
        r
    }
}

/// A statement of a picture.
pub trait Command {
    /// The statement's text.
    spec fn command_text(&self) -> Seq<char>;

    fn text(&self) -> (r: String)
        ensures
            r@ == self.command_text(),
    ;
}

/// A text that starts with a coordinate: a space and an opening parenthesis.
pub open spec fn anchored(text: Seq<char>) -> bool {
    text.len() >= 2 && text[0] == ' ' && text[1] == '('
}

/// A path, built from the left.
pub trait PathCommand {
    /// The path's text.
    spec fn path_text(&self) -> Seq<char>;

    /// A path is either the empty path, which renders as nothing, or starts
    /// with the coordinate of a point.
    proof fn lemma_empty_or_anchored(&self)
        ensures
            self.path_text().len() == 0 || anchored(self.path_text()),
    ;

    fn text(&self) -> (r: String)
        ensures
            r@ == self.path_text(),
    ;
}

/// A path that an extending element (a segment, a rectangle, a circle, a
/// node) may follow.
pub trait ExtendPath: PathCommand {
    /// Such a path is never empty: it starts with the coordinate of a point.
    proof fn lemma_anchored(&self)
        ensures
            anchored(self.path_text()),
    ;
}

/// The tip drawn at one end of a line segment.
#[derive(Clone, Copy, Debug, PartialEq, Eq)]
pub enum ArrowType {
    Default,
    Stealth,
}

impl ArrowType {
    /// The tip's name in an arrow option; the default tip has none.
    pub open spec fn spec_text(self) -> Seq<char> {
        match self {
            ArrowType::Default => Seq::empty(),
            ArrowType::Stealth => "stealth"@,
        }
    }

    pub fn text(&self) -> (r: &'static str)
        ensures
            r@ == self.spec_text(),
    {
        match self {
            ArrowType::Default => {
                proof {
                    reveal_strlit("");
                }
                ""
            },
            ArrowType::Stealth => "stealth",
        }
    }
}

/// Where the command at `k` starts in `picture_text(commands)`.
pub open spec fn command_offset(commands: Seq<Seq<char>>, k: int) -> int {
    "\\begin{tikzpicture}\n\t"@.len() + part_offset(commands, command_separator(), k)
}

/// Rendering is deterministic: two pictures that hold the same commands
/// render as the same text.
pub proof fn lemma_deterministic(a: TikzPicture, b: TikzPicture)
    requires
        a@ == b@,
    ensures
        picture_text(a@) == picture_text(b@),
{
}

/// Commands keep their order: each command stands in the picture's text, at
/// `command_offset`, and a command ends strictly before each command added
/// after it begins.
pub proof fn lemma_order_preserved(picture: TikzPicture, i: int, j: int)
    requires
        0 <= i < j < picture@.len(),
    ensures
        command_offset(picture@, i) + picture@[i].len() < command_offset(picture@, j),
        command_offset(picture@, j) + picture@[j].len() <= picture_text(picture@).len(),
        picture_text(picture@).subrange(
            command_offset(picture@, i),
            command_offset(picture@, i) + picture@[i].len(),
        ) == picture@[i],
        picture_text(picture@).subrange(
            command_offset(picture@, j),
            command_offset(picture@, j) + picture@[j].len(),
        ) == picture@[j],
{
    let cmds = picture@;
    let sep = command_separator();
    let head = "\\begin{tikzpicture}\n\t"@;
    let body = joined(cmds, sep);
    let tail = "\n\\end{tikzpicture}"@;
    reveal_strlit("\n\t");
    assert(sep.len() == 2);
    lemma_parts_in_order(cmds, sep, i, j);
    lemma_part_position(cmds, sep, i);
    lemma_part_position(cmds, sep, j);
    let text = picture_text(cmds);
    assert(text == head + body + tail);
    assert(text.subrange(command_offset(cmds, i), command_offset(cmds, i) + cmds[i].len())
        =~= body.subrange(
        part_offset(cmds, sep, i),
        part_offset(cmds, sep, i) + cmds[i].len(),
    ));
    assert(text.subrange(command_offset(cmds, j), command_offset(cmds, j) + cmds[j].len())
        =~= body.subrange(
        part_offset(cmds, sep, j),
        part_offset(cmds, sep, j) + cmds[j].len(),
    ));
}

/// A picture without commands renders as its frame around one line that holds
/// only a tab.
pub proof fn lemma_empty_picture(picture: TikzPicture)
    requires
        picture@.len() == 0,
    ensures
        picture_text(picture@) == "\\begin{tikzpicture}\n\t\n\\end{tikzpicture}"@,
{
    reveal_strlit("\\begin{tikzpicture}\n\t");
    reveal_strlit("\n\\end{tikzpicture}");
    reveal_strlit("\\begin{tikzpicture}\n\t\n\\end{tikzpicture}");
    assert(picture_text(picture@) =~= "\\begin{tikzpicture}\n\t\n\\end{tikzpicture}"@);
}

/// An element with no option set renders no option group: a segment that is
/// not thick and has default tips at both ends, a rectangle or a circle that is
/// not thick, a node at `Origin` that is not midway.
pub proof fn lemma_no_options_no_group()
    ensures
        bracketed(line_options(false, ArrowType::Default, ArrowType::Default)) == Seq::<
            char,
        >::empty(),
        bracketed(thick_options(false)) == Seq::<char>::empty(),
        bracketed(node_options(NodePosition::Origin, false)) == Seq::<char>::empty(),
{
    assert(line_options(false, ArrowType::Default, ArrowType::Default) =~= Seq::empty());
    assert(node_options(NodePosition::Origin, false) =~= Seq::empty());
}

/// Options that are set together render in a fixed order: on a segment
/// `thick` before the arrow tips, on a node the position before `midway`.
pub proof fn lemma_option_order(start: ArrowType, end: ArrowType, position: NodePosition)
    requires
        start != ArrowType::Default || end != ArrowType::Default,
        position != NodePosition::Origin,
    ensures
        bracketed(line_options(true, start, end)) == " ["@ + "thick"@ + ","@ + (start.spec_text()
            + "-"@ + end.spec_text()) + "]"@,
        bracketed(node_options(position, true)) == " ["@ + position.spec_text() + ","@
            + "midway"@ + "]"@,
{
    let arrows = start.spec_text() + "-"@ + end.spec_text();
    let segment = line_options(true, start, end);
    let node = node_options(position, true);
    assert(segment =~= seq!["thick"@, arrows]);
    assert(node =~= seq![position.spec_text(), "midway"@]);
    assert(segment.drop_last() =~= seq!["thick"@]);
    assert(node.drop_last() =~= seq![position.spec_text()]);
    assert(joined(segment.drop_last(), ","@) == "thick"@);
    assert(joined(segment, ","@) == joined(segment.drop_last(), ","@) + ","@ + segment.last());
    assert(joined(node.drop_last(), ","@) == position.spec_text());
    assert(joined(node, ","@) == joined(node.drop_last(), ","@) + ","@ + node.last());
}

/// No extending element can follow the empty path: every path that a segment,
/// a rectangle, a circle or a node may extend starts with the coordinate of a
/// point.
pub proof fn lemma_extension_anchored<T: ExtendPath>(path: T)
    ensures
        anchored(path.path_text()),
{
    path.lemma_anchored();
}

} // verus!
