//! The list half of the body: a head that stays, and rows that scroll.

use vstd::prelude::*;

use crate::tui::layout::{Rect, Viewport};
use crate::tui::lines::{Page, SpanView};

verus! {

/// What the list half of the body shows, and where.
#[derive(Debug, Clone)]
pub struct Pane {
    pub head: Page,
    pub head_area: Rect,
    pub rows: Page,
    pub rows_area: Rect,
    pub list_area: Rect,
    pub viewport: Viewport,
}

/// What a pane shows, and where.
pub struct PaneView {
    pub head: Seq<Seq<SpanView>>,
    pub head_area: Rect,
    pub rows: Seq<Seq<SpanView>>,
    pub rows_area: Rect,
    pub list_area: Rect,
    pub viewport: Viewport,
}

impl View for Pane {
    type V = PaneView;

    open spec fn view(&self) -> PaneView {
        PaneView {
            head: self.head@,
            head_area: self.head_area,
            rows: self.rows@,
            rows_area: self.rows_area,
            list_area: self.list_area,
            viewport: self.viewport,
        }
    }
}

/// No rows.
#[verifier::allow_in_spec]
pub fn no_viewport() -> Viewport
    returns
        (Viewport { start: 0, end: 0, visible: 0, total: 0 }),
{
    Viewport { start: 0, end: 0, visible: 0, total: 0 }
}

} // verus!
