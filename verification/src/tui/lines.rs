//! Styled text, line by line.

use vstd::prelude::*;

use crate::tui::theme::Style;

verus! {

/// A stretch of text in one style.
#[derive(Debug, Clone)]
pub struct Span {
    pub content: String,
    pub style: Style,
}

/// What a span shows.
pub struct SpanView {
    pub content: Seq<char>,
    pub style: Style,
}

impl View for Span {
    type V = SpanView;

    open spec fn view(&self) -> SpanView {
        SpanView { content: self.content@, style: self.style }
    }
}

/// The text `content` in the style `style`.
pub open spec fn span(content: Seq<char>, style: Style) -> SpanView {
    SpanView { content, style }
}

/// One line of styled text.
#[derive(Debug, Clone)]
pub struct Line {
    pub spans: Vec<Span>,
}

impl View for Line {
    type V = Seq<SpanView>;

    open spec fn view(&self) -> Seq<SpanView> {
        self.spans@.map_values(|s: Span| s@)
    }
}

/// A line of one span.
pub open spec fn one(content: Seq<char>, style: Style) -> Seq<SpanView> {
    Seq::<SpanView>::empty().push(span(content, style))
}

/// A line of two spans.
pub open spec fn two(a: Seq<char>, sa: Style, b: Seq<char>, sb: Style) -> Seq<SpanView> {
    Seq::<SpanView>::empty().push(span(a, sa)).push(span(b, sb))
}

/// A span that is only there under a condition.
pub open spec fn span_if(cond: bool, content: Seq<char>, style: Style) -> Seq<SpanView> {
    if cond {
        Seq::<SpanView>::empty().push(span(content, style))
    } else {
        Seq::<SpanView>::empty()
    }
}

/// A line that is only there under a condition.
pub open spec fn line_if(cond: bool, line: Seq<SpanView>) -> Seq<Seq<SpanView>> {
    if cond {
        Seq::<Seq<SpanView>>::empty().push(line)
    } else {
        Seq::<Seq<SpanView>>::empty()
    }
}

/// All the text of a line.
pub open spec fn line_text(line: Seq<SpanView>) -> Seq<char>
    decreases line.len(),
{
    if line.len() == 0 {
        Seq::empty()
    } else {
        line_text(line.drop_last()) + line.last().content
    }
}

impl Line {
    /// A line without text.
    pub fn new() -> (r: Line)
        ensures
            r@ == Seq::<SpanView>::empty(),
    {
        let r = Line { spans: Vec::new() };
        proof {
            assert(r@ =~= Seq::<SpanView>::empty());
        }
        r
    }

    /// Adds text at the end of the line.
    pub fn add(&mut self, content: String, style: Style)
        ensures
            final(self)@ == old(self)@.push(span(content@, style)),
    {
        let ghost pre = self.spans@;
        let s = Span { content, style };
        self.spans.push(s);
        proof {
            assert(self@ =~= pre.map_values(|s: Span| s@).push(s@));
        }
    }

    /// Adds fixed text at the end of the line.
    pub fn add_str(&mut self, content: &str, style: Style)
        ensures
            final(self)@ == old(self)@.push(span(content@, style)),
    {
        self.add(content.to_owned(), style);
    }

    /// Adds text at the end of the line under a condition.
    pub fn add_if(&mut self, cond: bool, content: String, style: Style)
        ensures
            final(self)@ == old(self)@ + span_if(cond, content@, style),
    {
        let ghost pre = self@;
        if cond {
            self.add(content, style);
        }
        proof {
            assert(self@ =~= pre + span_if(cond, content@, style));
        }
    }

    /// A line of one span.
    pub fn one(content: String, style: Style) -> (r: Line)
        ensures
            r@ == one(content@, style),
    {
        let mut r = Line::new();
        r.add(content, style);
        r
    }

    /// A line of two spans.
    pub fn two(a: String, sa: Style, b: String, sb: Style) -> (r: Line)
        ensures
            r@ == two(a@, sa, b@, sb),
    {
        let mut r = Line::new();
        r.add(a, sa);
        r.add(b, sb);
        r
    }

    /// All the text of the line.
    pub fn text(&self) -> (r: String)
        ensures
            r@ == line_text(self@),
    {
        let mut r = String::new();
        let mut i: usize = 0;
        while i < self.spans.len()
            invariant
                i <= self.spans@.len(),
                r@ == line_text(self@.take(i as int)),
            decreases self.spans@.len() - i,
        {
            r.append(self.spans[i].content.as_str());
            proof {
                assert(self@.take(i + 1).drop_last() =~= self@.take(i as int));
                assert(self@.take(i + 1).last() == self.spans@[i as int]@);
            }
            i = i + 1;
        }
        proof {
            assert(self@.take(self@.len() as int) =~= self@);
        }
        r
    }
}

/// Lines of styled text, from top to bottom.
#[derive(Debug, Clone)]
pub struct Page {
    pub lines: Vec<Line>,
}

impl View for Page {
    type V = Seq<Seq<SpanView>>;

    open spec fn view(&self) -> Seq<Seq<SpanView>> {
        self.lines@.map_values(|l: Line| l@)
    }
}

impl Page {
    /// A page without lines.
    pub fn new() -> (r: Page)
        ensures
            r@ == Seq::<Seq<SpanView>>::empty(),
    {
        let r = Page { lines: Vec::new() };
        proof {
            assert(r@ =~= Seq::<Seq<SpanView>>::empty());
        }
        r
    }

    /// The number of lines.
    pub fn len(&self) -> (n: usize)
        ensures
            n == self@.len(),
    {
        self.lines.len()
    }

    /// Adds a line at the end.
    pub fn push(&mut self, line: Line)
        ensures
            final(self)@ == old(self)@.push(line@),
    {
        let ghost pre = self.lines@;
        self.lines.push(line);
        proof {
            assert(self@ =~= pre.map_values(|l: Line| l@).push(line@));
        }
    }

    /// Adds a line at the end under a condition.
    pub fn push_if(&mut self, cond: bool, line: Line)
        ensures
            final(self)@ == old(self)@ + line_if(cond, line@),
    {
        let ghost pre = self@;
        if cond {
            self.push(line);
        }
        proof {
            assert(self@ =~= pre + line_if(cond, line@));
        }
    }

    /// Adds the lines of another page at the end.
    pub fn append(&mut self, other: Page)
        ensures
            final(self)@ == old(self)@ + other@,
    {
        let ghost pre = self.lines@;
        let mut other = other;
        let ghost added = other.lines@;
        self.lines.append(&mut other.lines);
        proof {
            assert(self@ =~= pre.map_values(|l: Line| l@) + added.map_values(|l: Line| l@));
        }
    }

    /// Adds a line of one span at the end.
    pub fn push_one(&mut self, content: String, style: Style)
        ensures
            final(self)@ == old(self)@.push(one(content@, style)),
    {
        self.push(Line::one(content, style));
    }

    /// Adds a line of one span with fixed text at the end.
    pub fn push_str(&mut self, content: &str, style: Style)
        ensures
            final(self)@ == old(self)@.push(one(content@, style)),
    {
        self.push(Line::one(content.to_owned(), style));
    }

    /// Adds a line of two spans, the first of fixed text, at the end.
    pub fn push_two(&mut self, a: &str, sa: Style, b: String, sb: Style)
        ensures
            final(self)@ == old(self)@.push(two(a@, sa, b@, sb)),
    {
        self.push(Line::two(a.to_owned(), sa, b, sb));
    }

    /// Adds a line without text at the end.
    pub fn push_blank(&mut self)
        ensures
            final(self)@ == old(self)@.push(Seq::<SpanView>::empty()),
    {
        self.push(Line::new());
    }

    /// Drops every line from line `n` on.
    pub fn truncate(&mut self, n: usize)
        ensures
            final(self)@ == (if old(self)@.len() > n { old(self)@.take(n as int) } else { old(self)@ }),
    {
        let ghost pre = self@;
        self.lines.truncate(n);
        proof {
            assert(self@ =~= if pre.len() > n { pre.take(n as int) } else { pre });
        }
    }

    /// The lines `from..to`.
    pub fn window(&self, from: usize, to: usize) -> (r: Vec<&Line>)
        requires
            from <= to <= self@.len(),
        ensures
            r@.len() == to - from,
            forall|i: int| 0 <= i < to - from ==> (#[trigger] r@[i])@ == self@[from + i],
    {
        let mut r: Vec<&Line> = Vec::new();
        let mut i: usize = from;
        while i < to
            invariant
                from <= i <= to <= self@.len(),
                r@.len() == i - from,
                forall|j: int| 0 <= j < i - from ==> (#[trigger] r@[j])@ == self@[from + j],
            decreases to - i,
        {
            r.push(&self.lines[i]);
            i = i + 1;
        }
        r
    }
}

} // verus!
