//! Text fitted into columns.

use vstd::prelude::*;

use crate::text::{char_count, pad, padded, repeat, repeat_char};
use crate::tui::layout::{less, most};
use crate::tui::lines::{line_if, line_text, span, two, Line, Page, SpanView};
use crate::tui::tasks::{clipped, truncate};
use crate::tui::theme::{meta_label, plain, Style};

verus! {

broadcast use vstd::string::group_string_axioms;

/// `s` in exactly `width` characters: cut, or filled up with spaces.
pub open spec fn fitted(s: Seq<char>, width: int) -> Seq<char> {
    if s.len() > width {
        clipped(s, width)
    } else {
        pad(s, width)
    }
}

/// A fitted text has the width asked for.
pub proof fn fitted_width(s: Seq<char>, width: int)
    requires
        width >= 0,
    ensures
        fitted(s, width).len() == width,
{
}

/// A text in exactly `width` characters.
pub fn pad_or_trunc(s: &str, width: usize) -> (r: String)
    ensures
        r@ == fitted(s@, width as int),
{
    if char_count(s) > width {
        truncate(s, width)
    } else {
        padded(s, width)
    }
}

/// The space between two columns.
pub open spec fn gap(style: Style) -> SpanView {
    span(" "@, style)
}

/// A column: `text` in exactly `width` characters.
pub open spec fn column(text: Seq<char>, width: int, style: Style) -> SpanView {
    span(fitted(text, width), style)
}

/// Adds the space between two columns.
pub fn push_gap(line: &mut Line)
    ensures
        final(line)@ == old(line)@.push(gap(plain())),
{
    line.add_str(" ", plain());
}

/// Adds the space between two columns in a style.
pub fn push_gap_with(line: &mut Line, style: Style)
    ensures
        final(line)@ == old(line)@.push(gap(style)),
{
    line.add_str(" ", style);
}

/// Adds a column.
pub fn push_padded_span(line: &mut Line, text: &str, width: usize, style: Style)
    ensures
        final(line)@ == old(line)@.push(column(text@, width as int, style)),
{
    line.add(pad_or_trunc(text, width), style);
}

/// A column of a label and a suffix in a style of its own. The suffix is kept
/// whole and the label cut, unless the suffix alone fills the column.
pub open spec fn split_column(
    label: Seq<char>,
    suffix: Seq<char>,
    width: int,
    label_style: Style,
    suffix_style: Style,
) -> Seq<SpanView> {
    if width <= 0 {
        Seq::empty()
    } else if suffix.len() >= width {
        Seq::<SpanView>::empty().push(column(label + suffix, width, label_style))
    } else if label.len() > width - suffix.len() {
        Seq::<SpanView>::empty().push(span(clipped(label, width - suffix.len()), label_style)).push(
            span(suffix, suffix_style),
        )
    } else {
        Seq::<SpanView>::empty().push(span(label, label_style)).push(
            span(suffix, suffix_style),
        ).push(span(repeat(' ', width - label.len() - suffix.len()), label_style))
    }
}

/// Adds a column of a label and a suffix.
pub fn push_padded_split_span(
    line: &mut Line,
    label: &str,
    suffix: &str,
    width: usize,
    label_style: Style,
    suffix_style: Style,
)
    ensures
        final(line)@ == old(line)@ + split_column(
            label@,
            suffix@,
            width as int,
            label_style,
            suffix_style,
        ),
{
    let ghost pre = line@;
    if width == 0 {
        proof {
            assert(line@ =~= pre + Seq::empty());
        }
        return ;
    }
    let label_len = char_count(label);
    let suffix_len = char_count(suffix);
    if suffix_len >= width {
        let both = label.to_owned().concat(suffix);
        push_padded_span(line, both.as_str(), width, label_style);
    } else if label_len > width - suffix_len {
        line.add(truncate(label, width - suffix_len), label_style);
        line.add_str(suffix, suffix_style);
    } else {
        line.add_str(label, label_style);
        line.add_str(suffix, suffix_style);
        line.add(repeat_char(' ', width - suffix_len - label_len), label_style);
    }
    proof {
        assert(line@ =~= pre + split_column(
            label@,
            suffix@,
            width as int,
            label_style,
            suffix_style,
        ));
    }
}

/// A column of a label and a suffix fills its width exactly, and ends with the
/// suffix where the column is wider than it.
pub proof fn split_column_width(
    label: Seq<char>,
    suffix: Seq<char>,
    width: int,
    label_style: Style,
    suffix_style: Style,
)
    requires
        width > 0,
    ensures
        line_text(split_column(label, suffix, width, label_style, suffix_style)).len() == width,
        suffix.len() < width && label.len() > width - suffix.len() ==> suffix.is_suffix_of(
            line_text(split_column(label, suffix, width, label_style, suffix_style)),
        ),
{
    reveal_with_fuel(line_text, 4);
    let line = split_column(label, suffix, width, label_style, suffix_style);
    if suffix.len() >= width {
        assert(line.drop_last() =~= Seq::empty());
        assert(line_text(line) =~= line.last().content);
    } else if label.len() > width - suffix.len() {
        let cut = clipped(label, width - suffix.len());
        assert(line.drop_last() =~= Seq::<SpanView>::empty().push(span(cut, label_style)));
        assert(line.drop_last().drop_last() =~= Seq::empty());
        let text = line_text(line);
        assert(text =~= cut + suffix);
        assert(text.subrange((text.len() - suffix.len()) as int, text.len() as int) =~= suffix);
    } else {
        let two = Seq::<SpanView>::empty().push(span(label, label_style)).push(
            span(suffix, suffix_style),
        );
        assert(line.drop_last() =~= two);
        assert(two.drop_last() =~= Seq::<SpanView>::empty().push(span(label, label_style)));
        assert(two.drop_last().drop_last() =~= Seq::empty());
        assert(line_text(line) =~= label + suffix + repeat(
            ' ',
            width - label.len() - suffix.len(),
        ));
    }
}

/// The line of a labelled value, cut off at the width of the pane.
pub open spec fn labelled(label: Seq<char>, value: Seq<char>, style: Style, width: int) -> Seq<
    SpanView,
> {
    let head = label + ": "@;
    two(
        head,
        meta_label(),
        clipped(value, most(less(most(width, 1), head.len() as int), 1)),
        style,
    )
}

/// The line of a labelled value.
pub fn labelled_line(label: &str, value: &str, style: Style, width: usize) -> (r: Line)
    ensures
        r@ == labelled(label@, value@, style, width as int),
{
    let head = label.to_owned().concat(": ");
    let n = char_count(head.as_str());
    let whole: usize = if width > 1 {
        width
    } else {
        1
    };
    let left: usize = if whole > n && whole - n > 1 {
        whole - n
    } else {
        1
    };
    Line::two(head, meta_label(), truncate(value, left), style)
}

/// Adds the line of a labelled value.
pub fn push_detail_kv(page: &mut Page, label: &str, value: &str, style: Style, width: usize)
    ensures
        final(page)@ == old(page)@.push(labelled(label@, value@, style, width as int)),
{
    page.push(labelled_line(label, value, style, width));
}

/// Adds the line of a labelled value under a condition.
pub fn push_detail_kv_if(
    page: &mut Page,
    cond: bool,
    label: &str,
    value: &str,
    style: Style,
    width: usize,
)
    ensures
        final(page)@ == old(page)@ + line_if(cond, labelled(label@, value@, style, width as int)),
{
    page.push_if(cond, labelled_line(label, value, style, width));
}

} // verus!
