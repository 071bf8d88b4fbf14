use pic::geometry::{Direction, Point};
use pic::layout::{emit_primitive, lay_out, Pic};
use pic::parse::{split_words, Command, Element, PicParser};
use pic::shape::{Arrow, Circle, Ellipse, Line, Primitive, Rect, ShapeKind};
use pic::svg::{annotation, annotations, emit_footer, emit_header, push_inches};

fn inches(v: i64) -> String {
    let mut s = String::new();
    push_inches(&mut s, v);
    s
}

#[test]
fn box_at_origin_is_drawn_from_its_corner() {
    let r = Primitive::Rect(Rect::new(Point(0, 0)));
    assert_eq!(
        r.emit(""),
        r#"<rect x="-0.375in" y="-0.25in" width="0.75in" height="0.5in" fill="none" stroke="black"/>"#
    );
}

#[test]
fn lengths_in_inches() {
    assert_eq!(inches(0), "0");
    assert_eq!(inches(1), "0.125");
    assert_eq!(inches(-3), "-0.375");
    assert_eq!(inches(4), "0.5");
    assert_eq!(inches(9), "1.125");
    assert_eq!(inches(16), "2");
    assert_eq!(inches(85), "10.625");
    assert_eq!(inches(-6), "-0.75");
    assert_eq!(inches(807), "100.875");
    assert_eq!(inches(i64::MIN), "-1152921504606846976");
}

#[test]
fn other_shapes_as_svg() {
    let c = Primitive::Circle(Circle::new(Point(2, 0)));
    assert_eq!(c.emit(""), r#"<circle cx="0.25in" cy="0in" r="0.25in" fill="none" stroke="black"/>"#);
    let e = Primitive::Ellipse(Ellipse::new(Point(-3, 9)));
    assert_eq!(
        e.emit("ignored"),
        r#"<ellipse cx="-0.375in" cy="1.125in" rx="0.375in" ry="0.25in" fill="none" stroke="black"/>"#
    );
    let l = Primitive::Line(Line::new(Point(0, 0), Direction::Down));
    assert_eq!(l.emit(""), r#"<line x1="0in" y1="0in" x2="0in" y2="0.5in" stroke="black"/>"#);
}

#[test]
fn arrow_as_svg() {
    let a = Primitive::Arrow(Arrow::new(Point(0, 0), Direction::Right));
    assert_eq!(
        a.emit("0.5,0 1,2 3,4"),
        "<line x1=\"0in\" y1=\"0in\" x2=\"0.5in\" y2=\"0in\" stroke=\"black\"/>\n\
         <g transform=\"scale(96, 96)\">\n\
         <polygon points=\"0.5,0 1,2 3,4\" fill=\"black\" />\n</g>"
    );
}

#[test]
fn rendering_twice_gives_the_same_text() {
    let pic = lay_out(&PicParser::parse("box circle down ellipse line arrow").unwrap());
    let heads: Vec<String> = (0..pic.objects().len()).map(|i| format!("h{}", i)).collect();
    let first = pic.emit(&heads);
    let second = pic.emit(&heads);
    assert_eq!(first, second);
    assert_eq!(first.len(), 5);
    assert_eq!(first[0], r#"<rect x="0in" y="-0.25in" width="0.75in" height="0.5in" fill="none" stroke="black"/>"#);
    assert!(first[4].contains("points=\"h4\""));
}

#[test]
fn page_wrapper() {
    assert_eq!(
        emit_header(),
        "<?xml version=\"1.0\" encoding=\"utf-8\"?>\n<svg xmlns=\"http://www.w3.org/2000/svg\" width=\"8.5in\" height=\"11in\">"
    );
    assert_eq!(emit_footer(), "</svg>");
    assert_eq!(annotation("box"), "<!--box-->");
}

#[test]
fn statements_split_on_blanks_and_semicolons() {
    assert_eq!(split_words("  box;circle\n\tdown ;;\r\nline  "), vec!["box", "circle", "down", "line"]);
    assert!(split_words(" ; \n").is_empty());
    assert_eq!(split_words("arrow"), vec!["arrow"]);
}

#[test]
fn parse_all_keywords() {
    let v = PicParser::parse("box circle ellipse line arrow move left right up down").unwrap();
    assert_eq!(v.len(), 10);
    let kinds = [ShapeKind::Rect, ShapeKind::Circle, ShapeKind::Ellipse, ShapeKind::Line, ShapeKind::Arrow];
    let texts = ["box", "circle", "ellipse", "line", "arrow"];
    for i in 0..5 {
        match &v[i] {
            Element::Primitive(k, t) => {
                assert_eq!(*k, kinds[i]);
                assert_eq!(t, texts[i]);
            }
            _ => panic!("expected a shape"),
        }
    }
    let cmds = [Command::Move, Command::Left, Command::Right, Command::Up, Command::Down];
    for i in 0..5 {
        assert!(matches!(&v[5 + i], Element::Command(c) if *c == cmds[i]));
    }
}

#[test]
fn parse_rejects_unknown_word() {
    let e = PicParser::parse("box\ncircle\nsquare\nhexagon").unwrap_err();
    assert_eq!(e.index, 2);
    assert_eq!(e.word, "square");
    let e = PicParser::parse("Box").unwrap_err();
    assert_eq!(e.index, 0);
    assert_eq!(e.word, "Box");
}

#[test]
fn annotations_for_shapes_only() {
    let v = PicParser::parse("box; left; arrow; move").unwrap();
    assert_eq!(annotations(&v), vec!["<!--box-->", "<!--arrow-->"]);
}

#[test]
fn whole_document_elements() {
    let mut pic = Pic::new();
    emit_primitive(&mut pic, ShapeKind::Rect);
    emit_primitive(&mut pic, ShapeKind::Rect);
    let out = pic.emit(&vec![String::new(), String::new()]);
    assert_eq!(out[0], r#"<rect x="0in" y="-0.25in" width="0.75in" height="0.5in" fill="none" stroke="black"/>"#);
    assert_eq!(out[1], r#"<rect x="0.75in" y="-0.25in" width="0.75in" height="0.5in" fill="none" stroke="black"/>"#);
}
