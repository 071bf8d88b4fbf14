use vstd::prelude::*;
use crate::geometry::Point;
use crate::layout::Pic;
use crate::parse::Element;
use crate::shape::{
    Primitive,
    Line,
    RECT_HALF_WIDTH,
    RECT_HALF_HEIGHT,
    ELLIPSE_RX,
    ELLIPSE_RY,
    CIRCLE_RADIUS,
};

verus! {

/// The text of one decimal digit.
pub open spec fn digit_text(d: int) -> Seq<char> {
    if d == 0 {
        "0"@
    } else if d == 1 {
        "1"@
    } else if d == 2 {
        "2"@
    } else if d == 3 {
        "3"@
    } else if d == 4 {
        "4"@
    } else if d == 5 {
        "5"@
    } else if d == 6 {
        "6"@
    } else if d == 7 {
        "7"@
    } else if d == 8 {
        "8"@
    } else {
        "9"@
    }
}

/// The decimal digits of `n`, without leading zeros.
pub open spec fn decimal(n: nat) -> Seq<char>
    decreases n,
{
    if n < 10 {
        digit_text(n as int)
    } else {
        decimal(n / 10) + digit_text((n % 10) as int)
    }
}

/// The decimal fraction of `f` eighths, empty for none.
pub open spec fn fraction_text(f: int) -> Seq<char> {
    if f == 0 {
        ""@
    } else if f == 1 {
        ".125"@
    } else if f == 2 {
        ".25"@
    } else if f == 3 {
        ".375"@
    } else if f == 4 {
        ".5"@
    } else if f == 5 {
        ".625"@
    } else if f == 6 {
        ".75"@
    } else {
        ".875"@
    }
}

/// A length of `v` eighths written in inches, in the shortest decimal form
/// (`-0.375`, `0`, `1.125`).
pub open spec fn inches(v: int) -> Seq<char> {
    let a = if v < 0 { -v } else { v };
    (if v < 0 { "-"@ } else { ""@ }) + decimal((a / 8) as nat) + fraction_text(a % 8)
}

fn push_digit(out: &mut String, d: u64)
    requires
        d < 10,
    ensures
        final(out)@ == old(out)@ + digit_text(d as int),
{
    match d {
        0 => out.append("0"),
        1 => out.append("1"),
        2 => out.append("2"),
        3 => out.append("3"),
        4 => out.append("4"),
        5 => out.append("5"),
        6 => out.append("6"),
        7 => out.append("7"),
        8 => out.append("8"),
        _ => out.append("9"),
    }
}

fn push_decimal(out: &mut String, n: u64)
    ensures
        final(out)@ == old(out)@ + decimal(n as nat),
    decreases n,
{
    if n >= 10 {
        push_decimal(out, n / 10);
        push_digit(out, n % 10);
        assert(final(out)@ =~= old(out)@ + decimal(n as nat));
    } else {
        push_digit(out, n);
    }
}

/// Appends a length of `v` eighths, written in inches.
pub fn push_inches(out: &mut String, v: i64)
    ensures
        final(out)@ == old(out)@ + inches(v as int),
{
    let a: u64 = if v < 0 { (0 - (v as i128)) as u64 } else { v as u64 };
    let ghost start = out@;
    if v < 0 {
        out.append("-");
    } else {
        out.append("");
    }
    push_decimal(out, a / 8);
    match a % 8 {
        0 => out.append(""),
        1 => out.append(".125"),
        2 => out.append(".25"),
        3 => out.append(".375"),
        4 => out.append(".5"),
        5 => out.append(".625"),
        6 => out.append(".75"),
        _ => out.append(".875"),
    }
    assert(out@ =~= start + inches(v as int));
}

/// SVG for a box centered at `c`, positioned by its top-left corner.
pub open spec fn rect_svg(c: Point) -> Seq<char> {
    "<rect x=\""@ + inches(c.0 - RECT_HALF_WIDTH) + "in\" y=\""@ + inches(c.1 - RECT_HALF_HEIGHT)
        + "in\" width=\"0.75in\" height=\"0.5in\" fill=\"none\" stroke=\"black\"/>"@
}

/// SVG for a circle centered at `c`.
pub open spec fn circle_svg(c: Point) -> Seq<char> {
    "<circle cx=\""@ + inches(c.0 as int) + "in\" cy=\""@ + inches(c.1 as int) + "in\" r=\""@
        + inches(CIRCLE_RADIUS as int) + "in\" fill=\"none\" stroke=\"black\"/>"@
}

/// SVG for an ellipse centered at `c`.
pub open spec fn ellipse_svg(c: Point) -> Seq<char> {
    "<ellipse cx=\""@ + inches(c.0 as int) + "in\" cy=\""@ + inches(c.1 as int) + "in\" rx=\""@
        + inches(ELLIPSE_RX as int) + "in\" ry=\""@ + inches(ELLIPSE_RY as int)
        + "in\" fill=\"none\" stroke=\"black\"/>"@
}

/// SVG for a segment.
pub open spec fn line_svg(l: Line) -> Seq<char> {
    "<line x1=\""@ + inches(l.start.0 as int) + "in\" y1=\""@ + inches(l.start.1 as int)
        + "in\" x2=\""@ + inches(l.end.0 as int) + "in\" y2=\""@ + inches(l.end.1 as int)
        + "in\" stroke=\"black\"/>"@
}

/// SVG for an arrow: its shaft, then its head as a filled triangle whose
/// corner list is `head`. Polygon corners carry no units, so the head sits
/// in a group scaled from inches to user units.
pub open spec fn arrow_svg(shaft: Line, head: Seq<char>) -> Seq<char> {
    line_svg(shaft) + "\n<g transform=\"scale(96, 96)\">\n<polygon points=\""@ + head
        + "\" fill=\"black\" />\n</g>"@
}

/// SVG for a shape; `head` is used by arrows alone.
pub open spec fn svg_of(p: Primitive, head: Seq<char>) -> Seq<char> {
    match p {
        Primitive::Rect(r) => rect_svg(r.center),
        Primitive::Ellipse(e) => ellipse_svg(e.center),
        Primitive::Circle(c) => circle_svg(c.center),
        Primitive::Line(l) => line_svg(l),
        Primitive::Arrow(a) => arrow_svg(a.shaft, head),
    }
}

fn line_text(l: &Line) -> (r: String)
    ensures
        r@ == line_svg(*l),
{
    let mut out = String::new();
    out.append("<line x1=\"");
    push_inches(&mut out, l.start.0);
    out.append("in\" y1=\"");
    push_inches(&mut out, l.start.1);
    out.append("in\" x2=\"");
    push_inches(&mut out, l.end.0);
    out.append("in\" y2=\"");
    push_inches(&mut out, l.end.1);
    out.append("in\" stroke=\"black\"/>");
    assert(out@ =~= line_svg(*l));
    out
}

impl Primitive {
    /// The SVG element for this shape. `head` is the corner list of an
    /// arrow's head; other shapes ignore it.
    pub fn emit(&self, head: &str) -> (r: String)
        requires
            self.wf(),
        ensures
            r@ == svg_of(*self, head@),
    {
        let mut out = String::new();
        match self {
            Primitive::Rect(r) => {
                out.append("<rect x=\"");
                push_inches(&mut out, r.center.0 - RECT_HALF_WIDTH);
                out.append("in\" y=\"");
                push_inches(&mut out, r.center.1 - RECT_HALF_HEIGHT);
                out.append(
                    "in\" width=\"0.75in\" height=\"0.5in\" fill=\"none\" stroke=\"black\"/>",
                );
                assert(out@ =~= rect_svg(r.center));
            },
            Primitive::Ellipse(e) => {
                out.append("<ellipse cx=\"");
                push_inches(&mut out, e.center.0);
                out.append("in\" cy=\"");
                push_inches(&mut out, e.center.1);
                out.append("in\" rx=\"");
                push_inches(&mut out, ELLIPSE_RX);
                out.append("in\" ry=\"");
                push_inches(&mut out, ELLIPSE_RY);
                out.append("in\" fill=\"none\" stroke=\"black\"/>");
                assert(out@ =~= ellipse_svg(e.center));
            },
            Primitive::Circle(c) => {
                out.append("<circle cx=\"");
                push_inches(&mut out, c.center.0);
                out.append("in\" cy=\"");
                push_inches(&mut out, c.center.1);
                out.append("in\" r=\"");
                push_inches(&mut out, CIRCLE_RADIUS);
                out.append("in\" fill=\"none\" stroke=\"black\"/>");
                assert(out@ =~= circle_svg(c.center));
            },
            Primitive::Line(l) => {
                out = line_text(l);
            },
            Primitive::Arrow(a) => {
                out = line_text(&a.shaft);
                out.append("\n<g transform=\"scale(96, 96)\">\n<polygon points=\"");
                out.append(head);
                out.append("\" fill=\"black\" />\n</g>");
                assert(out@ =~= arrow_svg(a.shaft, head@));
            },
        }
        out
    }
}

/// The opening of the document: an XML declaration and a letter-sized page.
pub fn emit_header() -> (r: String)
    ensures
        r@ == "<?xml version=\"1.0\" encoding=\"utf-8\"?>\n"@
            + "<svg xmlns=\"http://www.w3.org/2000/svg\" width=\"8.5in\" height=\"11in\">"@,
{
    let mut out = String::from_str("<?xml version=\"1.0\" encoding=\"utf-8\"?>\n");
    out.append("<svg xmlns=\"http://www.w3.org/2000/svg\" width=\"8.5in\" height=\"11in\">");
    out
}

/// The end of the document.
pub fn emit_footer() -> (r: String)
    ensures
        r@ == "</svg>"@,
{
    String::from_str("</svg>")
}

/// The comment that records a statement's source text.
pub fn annotation(text: &str) -> (r: String)
    ensures
        r@ == "<!--"@ + text@ + "-->"@,
{
    let mut out = String::from_str("<!--");
    out.append(text);
    out.append("-->");
    out
}

/// The comments for the shape statements among `es`, in order.
pub open spec fn annotations_of(es: Seq<Element>) -> Seq<Seq<char>>
    decreases es.len(),
{
    if es.len() == 0 {
        Seq::empty()
    } else {
        let prev = annotations_of(es.drop_last());
        match es.last() {
            Element::Primitive(_, text) => prev.push("<!--"@ + text@ + "-->"@),
            Element::Command(_) => prev,
        }
    }
}

/// The comment recording each shape statement's source text, in order.
pub fn annotations(elements: &Vec<Element>) -> (r: Vec<String>)
    ensures
        r@.map_values(|s: String| s@) == annotations_of(elements@),
{
    let mut out: Vec<String> = Vec::new();
    let mut i: usize = 0;
    assert(elements@.take(0) == Seq::<Element>::empty());
    while i < elements.len()
        invariant
            i <= elements@.len(),
            out@.map_values(|s: String| s@) == annotations_of(elements@.take(i as int)),
        decreases elements@.len() - i,
    {
        let ghost t = elements@.take(i + 1);
        assert(t.drop_last() == elements@.take(i as int));
        assert(t.last() == elements@[i as int]);
        match &elements[i] {
            Element::Primitive(_, text) => {
                out.push(annotation(text.as_str()));
                assert(out@.map_values(|s: String| s@) =~= annotations_of(t));
            },
            Element::Command(_) => {},
        }
        i = i + 1;
    }
    assert(elements@.take(elements@.len() as int) == elements@);
    out
}

impl Pic {
    /// The SVG element of each placed shape, in placement order. `heads`
    /// holds, at the position of each arrow, the corner list of its head.
    pub fn emit(&self, heads: &Vec<String>) -> (r: Vec<String>)
        requires
            self@.wf(),
            heads@.len() == self@.objects.len(),
        ensures
            r@.len() == self@.objects.len(),
            forall|i: int|
                0 <= i < r@.len() ==> #[trigger] r@[i]@ == svg_of(
                    self@.objects[i],
                    heads@[i]@,
                ),
    {
        let objects = self.objects();
        let mut out: Vec<String> = Vec::new();
        let mut i: usize = 0;
        while i < objects.len()
            invariant
                objects@ == self@.objects,
                self@.wf(),
                heads@.len() == objects@.len(),
                i <= objects@.len(),
                out@.len() == i,
                forall|j: int|
                    0 <= j < i ==> #[trigger] out@[j]@ == svg_of(objects@[j], heads@[j]@),
            decreases objects@.len() - i,
        {
            assert(objects@[i as int].wf());
            out.push(objects[i].emit(heads[i].as_str()));
            i = i + 1;
        }
        out
    }
}

} // verus!
