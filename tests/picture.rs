use tikz_builder::tikz::commands::draw::Draw;
use tikz_builder::tikz::format::{join, options_text};
use tikz_builder::tikz::node::NodePosition;
use tikz_builder::tikz::{ArrowType, Command, PathCommand, TikzPicture};

#[test]
fn empty_picture_has_frame_and_tab_line() {
    assert_eq!(
        TikzPicture::begin().end(),
        "\\begin{tikzpicture}\n\t\n\\end{tikzpicture}"
    );
}

#[test]
fn same_construction_renders_same_text() {
    let build = || {
        TikzPicture::begin()
            .and(Draw::new().line(0, 0, 2, 3).thick(true))
            .and(Draw::new().node_at(1, 1, "x"))
            .end()
    };
    assert_eq!(build(), build());
}

#[test]
fn commands_keep_their_order() {
    let text = TikzPicture::begin()
        .and(Draw::new().point(1, 1))
        .and(Draw::new().circle(2, 2, 3))
        .and(Draw::new().point(4, 4))
        .end();
    assert_eq!(
        text,
        "\\begin{tikzpicture}\n\t\\draw (1, 1);\n\t\\draw (2, 2) circle (3);\n\t\\draw (4, 4);\n\\end{tikzpicture}"
    );
    let first = text.find("\\draw (1, 1);").unwrap();
    let second = text.find("\\draw (2, 2) circle (3);").unwrap();
    assert!(first + "\\draw (1, 1);".len() < second);
}

#[test]
fn push_command_appends_like_and() {
    let mut pushed = TikzPicture::begin();
    pushed.push_command(Draw::new().point(1, 2));
    pushed.push_command(Draw::new().rectangle(0, 0, 5, 5));
    let chained = TikzPicture::begin()
        .and(Draw::new().point(1, 2))
        .and(Draw::new().rectangle(0, 0, 5, 5))
        .end();
    assert_eq!(pushed.end(), chained);
}

#[test]
fn draw_text_of_empty_path() {
    assert_eq!(Command::text(&Draw::new()), "\\draw;");
    assert_eq!(Command::text(&Draw::default()), "\\draw;");
}

#[test]
fn path_text_of_chain() {
    let draw = Draw::new().point(0, 0).extend_line(1, 0).extend_rectangle(2, 2);
    assert_eq!(Command::text(&draw), "\\draw (0, 0) -- (1, 0) rectangle (2, 2);");
}

#[test]
fn points_may_follow_points_and_extenders() {
    let draw = Draw::new()
        .point(0, 0)
        .point(1, 1)
        .extend_circle(2)
        .point(3, 3)
        .node("n");
    assert_eq!(
        Command::text(&draw),
        "\\draw (0, 0) (1, 1) circle (2) (3, 3) node {n};"
    );
}

#[test]
fn options_absent_render_nothing() {
    let draw = Draw::new()
        .point(0, 0)
        .extend_line(1, 1)
        .thick(false)
        .arrow_start(ArrowType::Default)
        .extend_rectangle(2, 2)
        .thick(false)
        .extend_circle(1)
        .thick(false)
        .node("a")
        .position(NodePosition::Origin)
        .midway(false);
    let text = Command::text(&draw);
    assert_eq!(text, "\\draw (0, 0) -- (1, 1) rectangle (2, 2) circle (1) node {a};");
    assert!(!text.contains('['));
}

#[test]
fn option_order_is_fixed() {
    let line = Draw::new()
        .line(0, 0, 1, 1)
        .thick(true)
        .arrow_end(ArrowType::Stealth);
    assert_eq!(Command::text(&line), "\\draw (0, 0) [thick,-stealth] -- (1, 1);");
    let node = Draw::new()
        .point(0, 0)
        .node("m")
        .midway(true)
        .position(NodePosition::BelowRight);
    assert_eq!(Command::text(&node), "\\draw (0, 0) node [below right,midway] {m};");
}

#[test]
fn node_midway_alone() {
    let node = Draw::new().point(0, 0).extend_line(4, 0).node("half").midway(true);
    assert_eq!(Command::text(&node), "\\draw (0, 0) -- (4, 0) node [midway] {half};");
}

#[test]
fn node_content_is_not_escaped() {
    let node = Draw::new().node_at(0, 0, "$\\alpha_{1}$");
    assert_eq!(Command::text(&node), "\\draw (0, 0) node {$\\alpha_{1}$};");
}

#[test]
fn node_positions_render_their_names() {
    let cases = [
        (NodePosition::Left, "left"),
        (NodePosition::Right, "right"),
        (NodePosition::Above, "above"),
        (NodePosition::Below, "below"),
        (NodePosition::AboveLeft, "above left"),
        (NodePosition::AboveRight, "above right"),
        (NodePosition::BelowLeft, "below left"),
        (NodePosition::BelowRight, "below right"),
        (NodePosition::Origin, ""),
    ];
    for (position, name) in cases {
        assert_eq!(position.text(), name);
    }
}

#[test]
fn arrow_types_render_their_names() {
    assert_eq!(ArrowType::Default.text(), "");
    assert_eq!(ArrowType::Stealth.text(), "stealth");
}

#[test]
fn path_text_through_trait() {
    let draw = Draw::new().point(7, 8);
    assert_eq!(Command::text(&draw), "\\draw (7, 8);");
    let _ = PathCommand::text(&tikz_builder::tikz::commands::draw::Noop);
}

#[test]
fn join_puts_separator_between_parts() {
    let parts = vec!["a".to_string(), "b".to_string(), "c".to_string()];
    assert_eq!(join(&parts, ","), "a,b,c");
    assert_eq!(join(&vec!["only".to_string()], ","), "only");
    assert_eq!(join(&Vec::new(), ","), "");
}

#[test]
fn option_group_formatting() {
    assert_eq!(options_text(&Vec::new()), "");
    assert_eq!(options_text(&vec!["thick".to_string()]), " [thick]");
    assert_eq!(
        options_text(&vec!["thick".to_string(), "stealth-".to_string()]),
        " [thick,stealth-]"
    );
}
