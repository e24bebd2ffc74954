//! The closed variant sets of the viewer: the operating-system tag that picks
//! which page directory is searched first, and the classification assigned to
//! each line of a page.

use vstd::prelude::*;

verus! {

/// Operating system a page lookup is scoped to. `Other` falls back to the
/// shared page directory.
#[derive(Clone, Copy, Debug, PartialEq, Eq, Structural)]
pub enum OsType {
    Linux,
    OsX,
    SunOs,
    Other,
}

/// Semantic role of one line of a page. Every line gets exactly one variant;
/// unrecognized content is carried through verbatim as `Other`.
#[derive(Debug)]
pub enum LineType {
    Empty,
    Title(String),
    Description(String),
    ExampleText(String),
    ExampleCode(String),
    Other(String),
}

/// Mathematical value of a classified line: the same variants, with the text
/// as a sequence of characters.
pub enum LineView {
    Empty,
    Title(Seq<char>),
    Description(Seq<char>),
    ExampleText(Seq<char>),
    ExampleCode(Seq<char>),
    Other(Seq<char>),
}

impl View for LineType {
    type V = LineView;

    open spec fn view(&self) -> LineView {
        match self {
            LineType::Empty => LineView::Empty,
            LineType::Title(s) => LineView::Title(s@),
            LineType::Description(s) => LineView::Description(s@),
            LineType::ExampleText(s) => LineView::ExampleText(s@),
            LineType::ExampleCode(s) => LineView::ExampleCode(s@),
            LineType::Other(s) => LineView::Other(s@),
        }
    }
}

impl PartialEq for LineType {
    fn eq(&self, other: &LineType) -> (r: bool) {
        match (self, other) {
            (LineType::Empty, LineType::Empty) => true,
            (LineType::Title(a), LineType::Title(b)) => *a == *b,
            (LineType::Description(a), LineType::Description(b)) => *a == *b,
            (LineType::ExampleText(a), LineType::ExampleText(b)) => *a == *b,
            (LineType::ExampleCode(a), LineType::ExampleCode(b)) => *a == *b,
            (LineType::Other(a), LineType::Other(b)) => *a == *b,
            _ => false,
        }
    }
}

impl vstd::std_specs::cmp::PartialEqSpecImpl for LineType {
    open spec fn obeys_eq_spec() -> bool {
        true
    }

    open spec fn eq_spec(&self, other: &LineType) -> bool {
        self@ == other@
    }
}

} // verus!
