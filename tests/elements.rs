use tikz_builder::tikz::commands::draw::Draw;
use tikz_builder::tikz::node::NodePosition;
use tikz_builder::tikz::{ArrowType, TikzPicture};

#[test]
fn circle_does_it_work() {
    let no_options = TikzPicture::begin()
        .and(Draw::new().point(0, 0).extend_circle(1))
        .end();

    let thick = TikzPicture::begin()
        .and(Draw::new().circle(0, 0, 1).thick(true))
        .end();

    assert_eq!(
        no_options,
        "\\begin{tikzpicture}\n\t\\draw (0, 0) circle (1);\n\\end{tikzpicture}"
    );
    assert_eq!(
        thick,
        "\\begin{tikzpicture}\n\t\\draw (0, 0) [thick] circle (1);\n\\end{tikzpicture}"
    );
}

#[test]
fn line_does_it_work() {
    let no_options = TikzPicture::begin()
        .and(Draw::new().point(0, 0).extend_line(1, 1))
        .end();

    let thick = TikzPicture::begin()
        .and(Draw::new().point(0, 0).extend_line(1, 1).thick(true))
        .end();

    let styled_arrow = TikzPicture::begin()
        .and(
            Draw::new()
                .point(0, 0)
                .extend_line(1, 1)
                .arrow_start(ArrowType::Stealth),
        )
        .end();

    let multiple_options = TikzPicture::begin()
        .and(
            Draw::new()
                .line(0, 0, 1, 1)
                .arrow_start(ArrowType::Stealth)
                .arrow_end(ArrowType::Stealth)
                .thick(true),
        )
        .end();

    assert_eq!(
        no_options,
        "\\begin{tikzpicture}\n\t\\draw (0, 0) -- (1, 1);\n\\end{tikzpicture}"
    );
    assert_eq!(
        thick,
        "\\begin{tikzpicture}\n\t\\draw (0, 0) [thick] -- (1, 1);\n\\end{tikzpicture}"
    );
    assert_eq!(
        styled_arrow,
        "\\begin{tikzpicture}\n\t\\draw (0, 0) [stealth-] -- (1, 1);\n\\end{tikzpicture}"
    );
    assert_eq!(
        multiple_options,
        "\\begin{tikzpicture}\n\t\\draw (0, 0) [thick,stealth-stealth] -- (1, 1);\n\\end{tikzpicture}"
    );
}

#[test]
fn node_does_it_work() {
    let no_options = TikzPicture::begin()
        .and(Draw::new().point(0, 1).node("NO!"))
        .end();

    let vert = TikzPicture::begin()
        .and(
            Draw::new()
                .point(3, 4)
                .node("YES")
                .position(NodePosition::Above)
                .midway(true),
        )
        .end();

    let multiple_options = TikzPicture::begin()
        .and(
            Draw::new()
                .node_at(5, 6, "HELLO!!!")
                .position(NodePosition::Left),
        )
        .end();

    assert_eq!(
        no_options,
        "\\begin{tikzpicture}\n\t\\draw (0, 1) node {NO!};\n\\end{tikzpicture}"
    );
    assert_eq!(
        vert,
        "\\begin{tikzpicture}\n\t\\draw (3, 4) node [above,midway] {YES};\n\\end{tikzpicture}"
    );
    assert_eq!(
        multiple_options,
        "\\begin{tikzpicture}\n\t\\draw (5, 6) node [left] {HELLO!!!};\n\\end{tikzpicture}"
    );
}

#[test]
fn point_does_it_work() {
    let tikz = TikzPicture::begin().and(Draw::new().point(1, 2)).end();
    assert_eq!(
        "\\begin{tikzpicture}\n\t\\draw (1, 2);\n\\end{tikzpicture}",
        tikz
    );
}

#[test]
fn rectangle_does_it_work() {
    let no_options = TikzPicture::begin()
        .and(Draw::new().point(0, 0).extend_rectangle(1, 1))
        .end();

    let thick = TikzPicture::begin()
        .and(Draw::new().rectangle(0, 0, 1, 1).thick(true))
        .end();

    assert_eq!(
        no_options,
        "\\begin{tikzpicture}\n\t\\draw (0, 0) rectangle (1, 1);\n\\end{tikzpicture}"
    );
    assert_eq!(
        thick,
        "\\begin{tikzpicture}\n\t\\draw (0, 0) [thick] rectangle (1, 1);\n\\end{tikzpicture}"
    );
}
