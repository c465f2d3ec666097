use tikz_builder::tikz::commands::draw::Draw;
use tikz_builder::tikz::node::NodePosition;
use tikz_builder::tikz::{ArrowType, TikzPicture};

#[test]
fn scenario_single_point() {
    let text = TikzPicture::begin().and(Draw::new().point(1, 2)).end();
    assert_eq!(text, "\\begin{tikzpicture}\n\t\\draw (1, 2);\n\\end{tikzpicture}");
}

#[test]
fn scenario_point_then_segment() {
    let text = TikzPicture::begin()
        .and(Draw::new().point(0, 0).extend_line(1, 1))
        .end();
    assert_eq!(
        text,
        "\\begin{tikzpicture}\n\t\\draw (0, 0) -- (1, 1);\n\\end{tikzpicture}"
    );
}

#[test]
fn scenario_line_with_arrows_and_thick() {
    let text = TikzPicture::begin()
        .and(
            Draw::new()
                .line(0, 0, 1, 1)
                .arrow_start(ArrowType::Stealth)
                .arrow_end(ArrowType::Stealth)
                .thick(true),
        )
        .end();
    assert_eq!(
        text,
        "\\begin{tikzpicture}\n\t\\draw (0, 0) [thick,stealth-stealth] -- (1, 1);\n\\end{tikzpicture}"
    );
}

#[test]
fn scenario_thick_rectangle() {
    let text = TikzPicture::begin()
        .and(Draw::new().rectangle(0, 0, 1, 1).thick(true))
        .end();
    assert_eq!(
        text,
        "\\begin{tikzpicture}\n\t\\draw (0, 0) [thick] rectangle (1, 1);\n\\end{tikzpicture}"
    );
}

#[test]
fn scenario_thick_circle() {
    let text = TikzPicture::begin()
        .and(Draw::new().circle(0, 0, 1).thick(true))
        .end();
    assert_eq!(
        text,
        "\\begin{tikzpicture}\n\t\\draw (0, 0) [thick] circle (1);\n\\end{tikzpicture}"
    );
}

#[test]
fn scenario_node_above_midway() {
    let text = TikzPicture::begin()
        .and(
            Draw::new()
                .point(3, 4)
                .node("YES")
                .position(NodePosition::Above)
                .midway(true),
        )
        .end();
    assert_eq!(
        text,
        "\\begin{tikzpicture}\n\t\\draw (3, 4) node [above,midway] {YES};\n\\end{tikzpicture}"
    );
}

#[test]
fn scenario_node_at_left() {
    let text = TikzPicture::begin()
        .and(Draw::new().node_at(5, 6, "HELLO!!!").position(NodePosition::Left))
        .end();
    assert_eq!(
        text,
        "\\begin{tikzpicture}\n\t\\draw (5, 6) node [left] {HELLO!!!};\n\\end{tikzpicture}"
    );
}
