//! The line tokenizer: a pure, total classifier for single lines of a page,
//! and a pull-based reader that turns a sequence of lines into classified
//! lines, one per input line, in input order.
//!
//! Classification never fails: content that matches no rule degrades to
//! `Other` with its text preserved verbatim.

use vstd::prelude::*;

verus! {

use crate::types::{LineType, LineView};

/// Characters treated as whitespace, matching the Unicode `White_Space`
/// property that Rust's `char::is_whitespace` tests.
pub open spec fn is_ws_char(c: char) -> bool {
    c == ' ' || c == '\t' || c == '\n' || c == '\r' || c == '\u{B}' || c == '\u{C}'
        || c == '\u{85}' || c == '\u{A0}' || c == '\u{1680}' || c == '\u{2000}' || c == '\u{2001}'
        || c == '\u{2002}' || c == '\u{2003}' || c == '\u{2004}' || c == '\u{2005}'
        || c == '\u{2006}' || c == '\u{2007}' || c == '\u{2008}' || c == '\u{2009}'
        || c == '\u{200A}' || c == '\u{2028}' || c == '\u{2029}' || c == '\u{202F}'
        || c == '\u{205F}' || c == '\u{3000}'
}

fn is_ws(c: char) -> (r: bool)
    ensures
        r == is_ws_char(c),
{
    match c {
        ' ' | '\t' | '\n' | '\r' | '\u{B}' | '\u{C}' | '\u{85}' | '\u{A0}' | '\u{1680}'
            | '\u{2000}' | '\u{2001}' | '\u{2002}' | '\u{2003}' | '\u{2004}' | '\u{2005}'
            | '\u{2006}' | '\u{2007}' | '\u{2008}' | '\u{2009}' | '\u{200A}' | '\u{2028}'
            | '\u{2029}' | '\u{202F}' | '\u{205F}' | '\u{3000}' => true,
        _ => false,
    }
}

/// A line with one trailing carriage-return/line-feed pair removed, if it
/// carries one; otherwise the line unchanged.
pub open spec fn strip_crlf(s: Seq<char>) -> Seq<char> {
    if s.len() >= 2 && s[s.len() - 2] == '\r' && s[s.len() - 1] == '\n' {
        s.take(s.len() - 2)
    } else {
        s
    }
}

/// Empty, or made of whitespace characters only.
pub open spec fn is_blank(s: Seq<char>) -> bool {
    forall|i: int| 0 <= i < s.len() ==> is_ws_char(s[i])
}

/// The sequence with its leading whitespace removed.
pub open spec fn trim_front(s: Seq<char>) -> Seq<char>
    decreases s.len(),
{
    if s.len() > 0 && is_ws_char(s[0]) {
        trim_front(s.skip(1))
    } else {
        s
    }
}

/// The sequence with its trailing whitespace removed.
pub open spec fn trim_back(s: Seq<char>) -> Seq<char>
    decreases s.len(),
{
    if s.len() > 0 && is_ws_char(s[s.len() - 1]) {
        trim_back(s.take(s.len() - 1))
    } else {
        s
    }
}

/// The sequence with surrounding whitespace removed on both sides.
pub open spec fn trimmed(s: Seq<char>) -> Seq<char> {
    trim_back(trim_front(s))
}

/// The classification rules, in priority order; the first matching rule wins.
/// A leading marker (`"# "`, `"> "`, `"- "`) claims the line and its payload
/// is trimmed; a line wrapped in backticks yields the content strictly
/// between them; anything else is carried through unchanged (after the
/// trailing CRLF strip).
pub open spec fn classify_spec(line: Seq<char>) -> LineView {
    let t = strip_crlf(line);
    if is_blank(t) {
        LineView::Empty
    } else if t.len() >= 2 && t[0] == '#' && t[1] == ' ' {
        LineView::Title(trimmed(t.skip(2)))
    } else if t.len() >= 2 && t[0] == '>' && t[1] == ' ' {
        LineView::Description(trimmed(t.skip(2)))
    } else if t.len() >= 2 && t[0] == '-' && t[1] == ' ' {
        LineView::ExampleText(trimmed(t.skip(2)))
    } else if t.len() >= 2 && t[0] == '`' && t[t.len() - 1] == '`' {
        LineView::ExampleCode(t.subrange(1, t.len() - 1))
    } else {
        LineView::Other(t)
    }
}

proof fn lemma_trim_front_at(s: Seq<char>, a: int)
    requires
        0 <= a <= s.len(),
        forall|j: int| 0 <= j < a ==> is_ws_char(s[j]),
        a < s.len() ==> !is_ws_char(s[a]),
    ensures
        trim_front(s) == s.skip(a),
    decreases a,
{
    if a == 0 {
        assert(s.skip(0) =~= s);
    } else {
        assert(is_ws_char(s[0]));
        assert forall|j: int| 0 <= j < a - 1 implies is_ws_char(s.skip(1)[j]) by {
            assert(s.skip(1)[j] == s[j + 1]);
        }
        if a - 1 < s.skip(1).len() {
            assert(s.skip(1)[a - 1] == s[a]);
        }
        lemma_trim_front_at(s.skip(1), a - 1);
        assert(s.skip(1).skip(a - 1) =~= s.skip(a));
    }
}

proof fn lemma_trim_back_at(s: Seq<char>, b: int)
    requires
        0 <= b <= s.len(),
        forall|j: int| b <= j < s.len() ==> is_ws_char(s[j]),
        b > 0 ==> !is_ws_char(s[b - 1]),
    ensures
        trim_back(s) == s.take(b),
    decreases s.len() - b,
{
    if b == s.len() {
        assert(s.take(b) =~= s);
    } else {
        assert(is_ws_char(s[s.len() - 1]));
        assert forall|j: int| b <= j < s.len() - 1 implies #[trigger] is_ws_char(
            s.take(s.len() - 1)[j],
        ) by {
            assert(s.take(s.len() - 1)[j] == s[j]);
        }
        if b > 0 {
            assert(s.take(s.len() - 1)[b - 1] == s[b - 1]);
        }
        lemma_trim_back_at(s.take(s.len() - 1), b);
        assert(s.take(s.len() - 1).take(b) =~= s.take(b));
    }
}

proof fn lemma_trimmed_blank(s: Seq<char>)
    requires
        is_blank(s),
    ensures
        trimmed(s) == Seq::<char>::empty(),
{
    lemma_trim_front_at(s, s.len() as int);
    assert(s.skip(s.len() as int) =~= Seq::<char>::empty());
}

proof fn lemma_trimmed_subrange(s: Seq<char>, a: int, b: int)
    requires
        0 <= a < b <= s.len(),
        forall|j: int| 0 <= j < a ==> is_ws_char(s[j]),
        forall|j: int| b <= j < s.len() ==> is_ws_char(s[j]),
        !is_ws_char(s[a]),
        !is_ws_char(s[b - 1]),
    ensures
        trimmed(s) == s.subrange(a, b),
{
    lemma_trim_front_at(s, a);
    let u = s.skip(a);
    assert forall|j: int| b - a <= j < u.len() implies is_ws_char(u[j]) by {
        assert(u[j] == s[j + a]);
    }
    assert(u[b - a - 1] == s[b - 1]);
    lemma_trim_back_at(u, b - a);
    assert(u.take(b - a) =~= s.subrange(a, b));
}

/// Remove surrounding whitespace from a string slice.
pub fn trim_str(s: &str) -> (r: String)
    ensures
        r@ == trimmed(s@),
{
    let n = s.unicode_len();
    let mut start: usize = 0;
    while start < n && is_ws(s.get_char(start))
        invariant
            start <= n,
            s@.len() == n,
            forall|j: int| 0 <= j < start ==> is_ws_char(s@[j]),
        decreases n - start,
    {
        start = start + 1;
    }
    if start == n {
        proof {
            lemma_trimmed_blank(s@);
        }
        return String::new();
    }
    let mut stop: usize = n;
    while is_ws(s.get_char(stop - 1))
        invariant
            start < stop <= n,
            s@.len() == n,
            !is_ws_char(s@[start as int]),
            forall|j: int| stop <= j < n ==> is_ws_char(s@[j]),
        decreases stop,
    {
        stop = stop - 1;
    }
    let sub = s.substring_char(start, stop);
    proof {
        lemma_trimmed_subrange(s@, start as int, stop as int);
    }
    String::from_str(sub)
}

/// Classify one line of a page. Total: every line yields exactly the variant
/// that `classify_spec` assigns to its character sequence.
pub fn classify(line: &str) -> (r: LineType)
    ensures
        r@ == classify_spec(line@),
{
    let n = line.unicode_len();
    let end: usize = if n >= 2 && line.get_char(n - 2) == '\r' && line.get_char(n - 1) == '\n' {
        n - 2
    } else {
        n
    };
    let t = line.substring_char(0, end);
    proof {
        assert(t@ =~= strip_crlf(line@));
    }
    let m = end;
    let mut i: usize = 0;
    while i < m && is_ws(t.get_char(i))
        invariant
            i <= m,
            t@.len() == m,
            forall|j: int| 0 <= j < i ==> is_ws_char(t@[j]),
        decreases m - i,
    {
        i = i + 1;
    }
    if i == m {
        return LineType::Empty;
    }
    proof {
        assert(!is_ws_char(t@[i as int]));
    }
    if m >= 2 {
        let c0 = t.get_char(0);
        let c1 = t.get_char(1);
        if c0 == '#' && c1 == ' ' {
            let body = trim_str(t.substring_char(2, m));
            proof {
                assert(t@.subrange(2, m as int) =~= t@.skip(2));
            }
            return LineType::Title(body);
        }
        if c0 == '>' && c1 == ' ' {
            let body = trim_str(t.substring_char(2, m));
            proof {
                assert(t@.subrange(2, m as int) =~= t@.skip(2));
            }
            return LineType::Description(body);
        }
        if c0 == '-' && c1 == ' ' {
            let body = trim_str(t.substring_char(2, m));
            proof {
                assert(t@.subrange(2, m as int) =~= t@.skip(2));
            }
            return LineType::ExampleText(body);
        }
        if c0 == '`' && t.get_char(m - 1) == '`' {
            return LineType::ExampleCode(String::from_str(t.substring_char(1, m - 1)));
        }
    }
    LineType::Other(String::from_str(t))
}

/// The character sequences of a list of lines.
pub open spec fn views_of(lines: Seq<String>) -> Seq<Seq<char>> {
    lines.map(|i: int, l: String| l@)
}

/// Pull-based reader over a fixed list of lines: each call to `next_line`
/// consumes one line and returns its classification, in input order,
/// finitely, without restart.
pub struct Tokenizer {
    lines: Vec<String>,
    pos: usize,
}

impl Tokenizer {
    pub closed spec fn wf(&self) -> bool {
        self.pos <= self.lines@.len()
    }

    /// The lines not yet consumed, in order.
    pub closed spec fn remaining(&self) -> Seq<Seq<char>> {
        views_of(self.lines@).skip(self.pos as int)
    }

    pub fn new(lines: Vec<String>) -> (t: Tokenizer)
        ensures
            t.wf(),
            t.remaining() == views_of(lines@),
    {
        let t = Tokenizer { lines, pos: 0 };
        proof {
            assert(t.remaining() =~= views_of(t.lines@));
        }
        t
    }

    /// Advance by one line: `Some` with that line's classification while
    /// input remains, `None` exactly when the input is exhausted.
    pub fn next_line(&mut self) -> (r: Option<LineType>)
        requires
            old(self).wf(),
        ensures
            final(self).wf(),
            old(self).remaining().len() == 0 ==> r is None && final(self).remaining()
                == old(self).remaining(),
            old(self).remaining().len() > 0 ==> (r matches Some(lt) && lt@ == classify_spec(
                old(self).remaining()[0],
            ) && final(self).remaining() == old(self).remaining().skip(1)),
    {
        if self.pos < self.lines.len() {
            let line: &String = &self.lines[self.pos];
            let lt = classify(line.as_str());
            self.pos = self.pos + 1;
            proof {
                assert(old(self).remaining()[0] == views_of(old(self).lines@)[old(
                    self,
                ).pos as int]);
                assert(self.remaining() =~= old(self).remaining().skip(1));
            }
            Some(lt)
        } else {
            None
        }
    }
}

/// Classify every line of a page at once, preserving order and length.
pub fn tokenize_lines(lines: &Vec<String>) -> (r: Vec<LineType>)
    ensures
        r@.len() == lines@.len(),
        forall|i: int| 0 <= i < lines@.len() ==> r@[i]@ == classify_spec(lines@[i]@),
{
    let mut out: Vec<LineType> = Vec::new();
    let mut i: usize = 0;
    while i < lines.len()
        invariant
            i <= lines@.len(),
            out@.len() == i,
            forall|j: int| 0 <= j < i ==> out@[j]@ == classify_spec(lines@[j]@),
        decreases lines@.len() - i,
    {
        let line: &String = &lines[i];
        out.push(classify(line.as_str()));
        i = i + 1;
    }
    out
}

} // verus!
