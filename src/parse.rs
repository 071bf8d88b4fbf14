//! The statement syntax. A diagram is a list of statements separated by
//! blanks, line breaks or `;`. Each statement is one keyword: a shape
//! (`box`, `circle`, `ellipse`, `line`, `arrow`) or a command (`move`,
//! `left`, `right`, `up`, `down`).
use vstd::prelude::*;
use crate::shape::ShapeKind;

verus! {

/// Characters that separate statements: blanks, line breaks and `;`.
pub open spec fn is_separator(c: char) -> bool {
    c == ' ' || c == '\t' || c == '\n' || c == '\r' || c == ';'
}

/// The maximal runs of non-separator characters of `s`, in order.
pub open spec fn words(s: Seq<char>) -> Seq<Seq<char>>
    decreases s.len(),
{
    if s.len() == 0 {
        Seq::empty()
    } else {
        let prev = words(s.drop_last());
        let c = s.last();
        if is_separator(c) {
            prev
        } else if s.len() >= 2 && !is_separator(s[s.len() - 2]) {
            prev.update(prev.len() - 1, prev.last().push(c))
        } else {
            prev.push(seq![c])
        }
    }
}

/// A directive that changes the cursor rather than drawing.
#[derive(Clone, Copy, Debug, PartialEq, Eq, Structural)]
pub enum Command {
    Move,
    Left,
    Right,
    Up,
    Down,
}

/// One statement of a diagram.
#[derive(Clone, Debug)]
pub enum Element {
    /// A shape to draw, with the statement's source text.
    Primitive(ShapeKind, String),
    Command(Command),
}

/// The first statement that is not a keyword of the language.
#[derive(Clone, Debug)]
pub struct ParseError {
    /// Position of the statement among all statements.
    pub index: usize,
    pub word: String,
}

/// The shape that a keyword draws, if any.
pub open spec fn shape_keyword(w: Seq<char>) -> Option<ShapeKind> {
    if w == "box"@ {
        Some(ShapeKind::Rect)
    } else if w == "circle"@ {
        Some(ShapeKind::Circle)
    } else if w == "ellipse"@ {
        Some(ShapeKind::Ellipse)
    } else if w == "line"@ {
        Some(ShapeKind::Line)
    } else if w == "arrow"@ {
        Some(ShapeKind::Arrow)
    } else {
        None
    }
}

/// The command that a keyword stands for, if any.
pub open spec fn command_keyword(w: Seq<char>) -> Option<Command> {
    if w == "move"@ {
        Some(Command::Move)
    } else if w == "left"@ {
        Some(Command::Left)
    } else if w == "right"@ {
        Some(Command::Right)
    } else if w == "up"@ {
        Some(Command::Up)
    } else if w == "down"@ {
        Some(Command::Down)
    } else {
        None
    }
}

pub open spec fn is_keyword(w: Seq<char>) -> bool {
    shape_keyword(w).is_some() || command_keyword(w).is_some()
}

/// `e` is the element that statement `w` denotes.
pub open spec fn denotes(e: Element, w: Seq<char>) -> bool {
    match e {
        Element::Primitive(k, text) => shape_keyword(w) == Some(k) && text@ == w,
        Element::Command(c) => shape_keyword(w).is_none() && command_keyword(w) == Some(c),
    }
}

/// Whether two strings hold the same characters.
fn same_text(a: &str, b: &str) -> (r: bool)
    ensures
        r == (a@ == b@),
{
    let n = a.unicode_len();
    if n != b.unicode_len() {
        return false;
    }
    let mut i: usize = 0;
    while i < n
        invariant
            n == a@.len() == b@.len(),
            i <= n,
            a@.take(i as int) == b@.take(i as int),
        decreases n - i,
    {
        if a.get_char(i) != b.get_char(i) {
            assert(a@[i as int] != b@[i as int]);
            return false;
        }
        assert(a@.take(i + 1) == a@.take(i as int).push(a@[i as int]));
        assert(b@.take(i + 1) == b@.take(i as int).push(b@[i as int]));
        i = i + 1;
    }
    assert(a@ == a@.take(n as int));
    assert(b@ == b@.take(n as int));
    true
}

/// Splits text into its statements.
pub fn split_words(text: &str) -> (r: Vec<String>)
    ensures
        r@.map_values(|w: String| w@) == words(text@),
{
    let n = text.unicode_len();
    let mut out: Vec<String> = Vec::new();
    let mut in_word = false;
    let mut start: usize = 0;
    let mut i: usize = 0;
    while i < n
        invariant
            n == text@.len(),
            i <= n,
            in_word == (i > 0 && !is_separator(text@[i - 1])),
            in_word ==> start < i,
            in_word ==> words(text@.take(i as int)) == out@.map_values(|w: String| w@).push(
                text@.subrange(start as int, i as int),
            ),
            !in_word ==> words(text@.take(i as int)) == out@.map_values(|w: String| w@),
        decreases n - i,
    {
        let c = text.get_char(i);
        let ghost s = text@.take(i + 1);
        assert(s.drop_last() == text@.take(i as int));
        assert(s.last() == c);
        if i > 0 {
            assert(s[s.len() - 2] == text@[i - 1]);
        }
        if c == ' ' || c == '\t' || c == '\n' || c == '\r' || c == ';' {
            if in_word {
                let w = String::from_str(text.substring_char(start, i));
                out.push(w);
            }
            in_word = false;
        } else {
            if in_word {
                assert(text@.subrange(start as int, i + 1) == text@.subrange(
                    start as int,
                    i as int,
                ).push(c));
            } else {
                start = i;
                assert(text@.subrange(start as int, i + 1) == seq![c]);
            }
            in_word = true;
        }
        i = i + 1;
    }
    assert(text@.take(n as int) == text@);
    if in_word {
        let w = String::from_str(text.substring_char(start, n));
        out.push(w);
    }
    out
}

/// The element that a statement denotes, or `None` for an unknown word.
pub fn classify(w: &String) -> (r: Option<Element>)
    ensures
        r.is_some() == is_keyword(w@),
        r matches Some(e) ==> denotes(e, w@),
{
    let t = w.as_str();
    let shape = if same_text(t, "box") {
        Some(ShapeKind::Rect)
    } else if same_text(t, "circle") {
        Some(ShapeKind::Circle)
    } else if same_text(t, "ellipse") {
        Some(ShapeKind::Ellipse)
    } else if same_text(t, "line") {
        Some(ShapeKind::Line)
    } else if same_text(t, "arrow") {
        Some(ShapeKind::Arrow)
    } else {
        None
    };
    if let Some(k) = shape {
        return Some(Element::Primitive(k, w.clone()));
    }
    if same_text(t, "move") {
        Some(Element::Command(Command::Move))
    } else if same_text(t, "left") {
        Some(Element::Command(Command::Left))
    } else if same_text(t, "right") {
        Some(Element::Command(Command::Right))
    } else if same_text(t, "up") {
        Some(Element::Command(Command::Up))
    } else if same_text(t, "down") {
        Some(Element::Command(Command::Down))
    } else {
        None
    }
}

/// Reads the statements of a diagram.
pub struct PicParser;

impl PicParser {
    /// The elements of `text`, one per statement, or the first statement
    /// that is not a keyword.
    pub fn parse(text: &str) -> (r: Result<Vec<Element>, ParseError>)
        ensures
            r.is_ok() <==> forall|i: int|
                0 <= i < words(text@).len() ==> #[trigger] is_keyword(words(text@)[i]),
            r matches Ok(v) ==> v@.len() == words(text@).len() && forall|i: int|
                0 <= i < v@.len() ==> #[trigger] denotes(v@[i], words(text@)[i]),
            r matches Err(e) ==> {
                &&& e.index < words(text@).len()
                &&& e.word@ == words(text@)[e.index as int]
                &&& !is_keyword(e.word@)
                &&& forall|j: int| 0 <= j < e.index ==> #[trigger] is_keyword(words(text@)[j])
            },
    {
        let ws = split_words(text);
        let ghost wv = ws@.map_values(|w: String| w@);
        assert(wv.len() == ws@.len());
        let mut out: Vec<Element> = Vec::new();
        let mut i: usize = 0;
        while i < ws.len()
            invariant
                wv == words(text@),
                wv == ws@.map_values(|w: String| w@),
                i <= ws@.len(),
                out@.len() == i,
                forall|j: int| 0 <= j < i ==> #[trigger] is_keyword(wv[j]),
                forall|j: int| 0 <= j < i ==> #[trigger] denotes(out@[j], wv[j]),
            decreases ws@.len() - i,
        {
            assert(wv[i as int] == ws@[i as int]@);
            match classify(&ws[i]) {
                Some(e) => out.push(e),
                None => {
                    return Err(ParseError { index: i, word: ws[i].clone() });
                },
            }
            i = i + 1;
        }
        Ok(out)
    }
}


} // verus!
