//! Where things stand on the screen.

use vstd::prelude::*;

verus! {

/// A rectangle of the screen.
#[derive(Debug, Clone, Copy, PartialEq, Eq, Structural)]
pub struct Rect {
    pub x: u16,
    pub y: u16,
    pub width: u16,
    pub height: u16,
}

/// The smaller of two numbers.
pub open spec fn least(a: int, b: int) -> int {
    if a < b { a } else { b }
}

/// The larger of two numbers.
pub open spec fn most(a: int, b: int) -> int {
    if a > b { a } else { b }
}

/// `a - b`, but not below zero.
pub open spec fn less(a: int, b: int) -> int {
    if a > b { a - b } else { 0 }
}

/// `a + b` on a screen, which ends at 65535.
pub open spec fn further(a: int, b: int) -> int {
    if a + b > 0xFFFF { 0xFFFF } else { a + b }
}

fn min16(a: u16, b: u16) -> (r: u16)
    ensures
        r == least(a as int, b as int),
{
    if a < b { a } else { b }
}

fn max16(a: u16, b: u16) -> (r: u16)
    ensures
        r == most(a as int, b as int),
{
    if a > b { a } else { b }
}

/// `a - b`, but not below zero.
pub fn sub16(a: u16, b: u16) -> (r: u16)
    ensures
        r == less(a as int, b as int),
{
    if a > b { a - b } else { 0 }
}

/// `a + b` on a screen.
pub fn add16(a: u16, b: u16) -> (r: u16)
    ensures
        r == further(a as int, b as int),
{
    if a > 0xFFFF - b { 0xFFFF } else { a + b }
}

/// The inside of the frame around the body, cut into the list above and the
/// detail below. The list has 45 of 100 parts of the height, but at least three
/// rows, and leaves at least three rows to the detail.
pub open spec fn body_halves(body: Rect) -> (Rect, Rect) {
    let x = further(body.x as int, 1);
    let y = further(body.y as int, 1);
    let width = less(body.width as int, 2);
    let height = less(body.height as int, 2);
    let list = least(most(height * 45 / 100, 3), less(height, 3));
    (
        Rect { x: x as u16, y: y as u16, width: width as u16, height: list as u16 },
        Rect {
            x: x as u16,
            y: further(y, list) as u16,
            width: width as u16,
            height: (height - list) as u16,
        },
    )
}

/// Cuts the body into its list and its detail.
pub fn split_body_inner(body: Rect) -> (r: (Rect, Rect))
    ensures
        r == body_halves(body),
{
    let x = add16(body.x, 1);
    let y = add16(body.y, 1);
    let width = sub16(body.width, 2);
    let height = sub16(body.height, 2);
    let share = ((height as u32) * 45 / 100) as u16;
    let list = min16(max16(share, 3), sub16(height, 3));
    (
        Rect { x, y, width, height: list },
        Rect { x, y: add16(y, list), width, height: height - list },
    )
}

/// The two halves of the body share its inside without overlap or gap.
pub proof fn halves_fill_the_body(body: Rect)
    ensures
        body_halves(body).0.height + body_halves(body).1.height == less(body.height as int, 2),
        body_halves(body).0.width == body_halves(body).1.width,
        body.y + body.height <= 0xFFFF ==> body_halves(body).1.y == body_halves(body).0.y
            + body_halves(body).0.height,
{
}

/// Where a waiting mark is shown: one row in the middle of an area, at most 36
/// wide.
pub open spec fn loading_area(area: Rect) -> Rect {
    let width = most(1, least(less(area.width as int, 2), 36));
    Rect {
        x: further(area.x as int, less(area.width as int, width) / 2) as u16,
        y: further(area.y as int, less(area.height as int, 1) / 2) as u16,
        width: width as u16,
        height: 1,
    }
}

/// Where a waiting mark is shown.
pub fn centered_loading_area(area: Rect) -> (r: Rect)
    ensures
        r == loading_area(area),
{
    let width = max16(1, min16(sub16(area.width, 2), 36));
    Rect {
        x: add16(area.x, sub16(area.width, width) / 2),
        y: add16(area.y, sub16(area.height, 1) / 2),
        width,
        height: 1,
    }
}

/// Where the help stands: in the middle of the screen, as high as its `rows`
/// rows and the frame, where the screen is high enough.
pub open spec fn help_area(frame: Rect, rows: int) -> Rect {
    let height = most(least(further(rows, 2), less(frame.height as int, 2)), 6);
    let width = least(56, less(frame.width as int, 2));
    Rect {
        x: further(frame.x as int, less(frame.width as int, width) / 2) as u16,
        y: further(frame.y as int, less(frame.height as int, height) / 2) as u16,
        width: width as u16,
        height: height as u16,
    }
}

/// Where the help stands.
pub fn help_rect(frame: Rect, rows: u16) -> (r: Rect)
    ensures
        r == help_area(frame, rows as int),
{
    let height = max16(min16(add16(rows, 2), sub16(frame.height, 2)), 6);
    let width = min16(56, sub16(frame.width, 2));
    Rect {
        x: add16(frame.x, sub16(frame.width, width) / 2),
        y: add16(frame.y, sub16(frame.height, height) / 2),
        width,
        height,
    }
}

/// Where the menu stands: below the selected row where there is room, else above
/// it where there is room, else as low as the screen allows.
pub open spec fn menu_area(frame: Rect, list: Rect, selected_row: int, content_rows: int) -> Rect {
    let height = most(least(further(content_rows, 2), less(frame.height as int, 2)), 4);
    let width = least(42, less(frame.width as int, 2));
    let max_x = less(further(frame.x as int, frame.width as int), width);
    let max_y = less(further(frame.y as int, frame.height as int), height);
    let below = further(selected_row, 1);
    let y = if below <= max_y {
        most(below, frame.y as int)
    } else if selected_row > further(frame.y as int, height) {
        less(selected_row, height)
    } else {
        most(max_y, frame.y as int)
    };
    Rect {
        x: most(least(further(list.x as int, 2), max_x), frame.x as int) as u16,
        y: y as u16,
        width: width as u16,
        height: height as u16,
    }
}

/// Where the menu stands.
pub fn menu_rect(frame: Rect, list: Rect, selected_row: u16, content_rows: u16) -> (r: Rect)
    ensures
        r == menu_area(frame, list, selected_row as int, content_rows as int),
{
    let height = max16(min16(add16(content_rows, 2), sub16(frame.height, 2)), 4);
    let width = min16(42, sub16(frame.width, 2));
    let max_x = sub16(add16(frame.x, frame.width), width);
    let max_y = sub16(add16(frame.y, frame.height), height);
    let below = add16(selected_row, 1);
    let y = if below <= max_y {
        max16(below, frame.y)
    } else if selected_row > add16(frame.y, height) {
        sub16(selected_row, height)
    } else {
        max16(max_y, frame.y)
    };
    Rect { x: max16(min16(add16(list.x, 2), max_x), frame.x), y, width, height }
}

/// The rows of a list that are on the screen.
#[derive(Debug, Clone, Copy, PartialEq, Eq, Structural)]
pub struct Viewport {
    pub start: usize,
    pub end: usize,
    pub visible: usize,
    pub total: usize,
}

/// The rows of a list of `total` that a pane of `budget` rows shows: as few as
/// possible are passed over to show the selected one.
pub open spec fn viewport(total: int, selected: int, budget: int) -> Viewport {
    if total == 0 || budget == 0 {
        Viewport { start: 0, end: 0, visible: 0, total: total as usize }
    } else {
        let visible = least(budget, total);
        let start = least(less(selected + 1, visible), total - visible);
        Viewport {
            start: start as usize,
            end: (start + visible) as usize,
            visible: visible as usize,
            total: total as usize,
        }
    }
}

/// The rows of a list that are on the screen.
pub fn compute_viewport(total: usize, selected: usize, budget: usize) -> (r: Viewport)
    ensures
        r == viewport(total as int, selected as int, budget as int),
        r.start <= r.end <= total,
        r.end - r.start == r.visible,
{
    if total == 0 || budget == 0 {
        return Viewport { start: 0, end: 0, visible: 0, total };
    }
    let visible = if budget < total {
        budget
    } else {
        total
    };
    let wanted = if selected >= visible {
        selected - (visible - 1)
    } else {
        0
    };
    let max_start = total - visible;
    let start = if wanted < max_start {
        wanted
    } else {
        max_start
    };
    Viewport { start, end: start + visible, visible, total }
}

/// The selected row is on the screen, as many rows are shown as fit, and none is
/// beyond the list.
pub proof fn selected_row_is_visible(total: int, selected: int, budget: int)
    requires
        0 <= selected < total <= usize::MAX,
        0 < budget <= usize::MAX,
    ensures
        ({
            let v = viewport(total, selected, budget);
            v.start <= selected < v.end && v.end <= total && v.end - v.start == least(budget, total)
        }),
{
}

impl Viewport {
    /// Some of the rows are not on the screen.
    #[verifier::allow_in_spec]
    pub fn is_scrollable(self) -> bool
        returns
            self.total > self.visible && self.visible > 0,
    {
        self.total > self.visible && self.visible > 0
    }

    /// A scroll bar is shown.
    #[verifier::allow_in_spec]
    pub fn shows_scrollbar(self, area: Rect) -> bool
        returns
            self.is_scrollable() && area.height > 0 && area.width > 2,
    {
        self.is_scrollable() && area.height > 0 && area.width > 2
    }

    /// What is left of an area beside the scroll bar.
    pub open spec fn beside_scrollbar(self, area: Rect) -> Rect {
        if self.shows_scrollbar(area) {
            Rect { width: less(area.width as int, 1) as u16, ..area }
        } else {
            area
        }
    }

    /// What is left of an area beside the scroll bar.
    pub fn content_area(self, area: Rect) -> (r: Rect)
        ensures
            r == self.beside_scrollbar(area),
    {
        if self.shows_scrollbar(area) {
            Rect { x: area.x, y: area.y, width: sub16(area.width, 1), height: area.height }
        } else {
            area
        }
    }

    /// Where the scroll bar's mark stands: at 0 for the top of the list, at the
    /// last row for its end, and in proportion between.
    pub open spec fn bar_position(self) -> int {
        let max_start = less(self.total as int, self.visible as int);
        if self.total == 0 || self.visible == 0 || max_start == 0 {
            0
        } else {
            let start = least(self.start as int, max_start);
            let product = least(start * (self.total - 1), usize::MAX as int);
            least(product + max_start / 2, usize::MAX as int) / max_start
        }
    }

    /// Where the scroll bar's mark stands.
    pub fn scrollbar_position(self) -> (r: usize)
        ensures
            r == self.bar_position(),
    {
        if self.total == 0 || self.visible == 0 || self.total <= self.visible {
            return 0;
        }
        let max_start = self.total - self.visible;
        let start = if self.start < max_start {
            self.start
        } else {
            max_start
        };
        let limit: u128 = usize::MAX as u128;
        let a: u128 = start as u128;
        let b: u128 = (self.total - 1) as u128;
        proof {
            assert(0 <= a * b <= 0xFFFF_FFFF_FFFF_FFFF * 0xFFFF_FFFF_FFFF_FFFF) by (nonlinear_arith)
                requires
                    0 <= a <= 0xFFFF_FFFF_FFFF_FFFF,
                    0 <= b <= 0xFFFF_FFFF_FFFF_FFFF,
            ;
        }
        let full: u128 = a * b;
        let product: u128 = if full < limit {
            full
        } else {
            limit
        };
        let sum: u128 = product + (max_start / 2) as u128;
        let capped: u128 = if sum < limit {
            sum
        } else {
            limit
        };
        let r: u128 = capped / (max_start as u128);
        proof {
            assert(r <= capped) by (nonlinear_arith)
                requires
                    r == capped as int / max_start as int,
                    max_start > 0,
                    capped >= 0,
            ;
        }
        r as usize
    }
}

/// The first and the last row on the screen.
pub fn viewport_range(total: usize, selected: usize, budget: usize) -> (r: (usize, usize))
    ensures
        r.0 == viewport(total as int, selected as int, budget as int).start,
        r.1 == viewport(total as int, selected as int, budget as int).end,
{
    let v = compute_viewport(total, selected, budget);
    (v.start, v.end)
}

/// Where the scroll bar's mark stands.
pub fn viewport_scrollbar_position(total: usize, selected: usize, budget: usize) -> (r: usize)
    ensures
        r == viewport(total as int, selected as int, budget as int).bar_position(),
{
    compute_viewport(total, selected, budget).scrollbar_position()
}

/// At the top of a list the mark is at the top of the bar, at the end of the
/// list at its end.
pub proof fn mark_reaches_both_ends(total: int, budget: int)
    requires
        0 < budget < total,
        total * total <= usize::MAX,
    ensures
        viewport(total, 0, budget).bar_position() == 0,
        viewport(total, total - 1, budget).bar_position() == total - 1,
{
    let m = total - budget;
    let t = viewport(total, 0, budget);
    assert(t.start == 0);
    assert(0 * (total - 1) == 0);
    assert((m / 2) / m == 0) by (nonlinear_arith)
        requires
            m > 0,
    ;
    assert(total <= usize::MAX) by (nonlinear_arith)
        requires
            0 < total,
            total * total <= usize::MAX,
    ;
    let v = viewport(total, total - 1, budget);
    assert(v.start == m);
    let p = m * (total - 1);
    assert(p + m / 2 <= total * total) by (nonlinear_arith)
        requires
            p == m * (total - 1),
            0 < m < total,
    ;
    assert((p + m / 2) / m == total - 1) by {
        vstd::arithmetic::div_mod::lemma_fundamental_div_mod_converse(
            p + m / 2,
            m,
            total - 1,
            m / 2,
        );
    }
}

/// The lines of a detail that are on the screen: the first line, as far down as
/// asked and possible, and how many.
pub open spec fn detail_window(total: int, height: int, scroll: int) -> (int, int) {
    let visible = least(height, total);
    (least(scroll, total - visible), visible)
}

/// The first and the last line of a detail that is on the screen.
pub fn apply_detail_scroll(total: usize, height: usize, scroll: usize) -> (r: (usize, usize))
    ensures
        r.0 == detail_window(total as int, height as int, scroll as int).0,
        r.1 - r.0 == detail_window(total as int, height as int, scroll as int).1,
        r.0 <= r.1 <= total,
{
    let visible = if height < total {
        height
    } else {
        total
    };
    let max_scroll = total - visible;
    let start = if scroll < max_scroll {
        scroll
    } else {
        max_scroll
    };
    (start, start + visible)
}

/// Where a text that can be followed is scrolled to, and whether its end is
/// followed: a followed end is shown; scrolling down to the end follows it again.
pub open spec fn followed(total: int, height: int, scroll: int, follow: bool) -> (int, bool) {
    let max_scroll = total - least(height, total);
    if follow {
        (max_scroll, true)
    } else {
        (least(scroll, max_scroll), scroll >= max_scroll)
    }
}

/// Where a text that can be followed is scrolled to, and whether its end is
/// followed.
pub fn follow_tail(total: usize, height: usize, scroll: usize, follow: bool) -> (r: (usize, bool))
    ensures
        r.0 == followed(total as int, height as int, scroll as int, follow).0,
        r.1 == followed(total as int, height as int, scroll as int, follow).1,
        r.0 <= total,
{
    let visible = if height < total {
        height
    } else {
        total
    };
    let max_scroll = total - visible;
    if follow || scroll >= max_scroll {
        (max_scroll, true)
    } else {
        (scroll, false)
    }
}

/// A text that stays parked shows the same place when lines are added at its
/// end.
pub proof fn parked_text_stays(total: int, more: int, height: int, scroll: int)
    requires
        0 <= height,
        0 <= more,
        0 <= scroll < total - least(height, total),
    ensures
        followed(total, height, scroll, false) == (scroll, false),
        followed(total + more, height, scroll, false) == (scroll, false),
{
}

} // verus!
