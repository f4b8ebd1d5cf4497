//! Where the parts of the title bar are.
//!
//! The bar is the top strip of the window's content. Its three control
//! buttons sit side by side at the right end, the close button outermost,
//! and are cut off at the bar's left edge when the bar is too narrow.

use vstd::prelude::*;
use crate::geometry::{clamp_coord, clamp_to_coord, Point, Rect};

verus! {

/// Height of the title bar.
pub const TITLE_BAR_HEIGHT: u32 = 24;

/// Free space between the bar's right edge and the first button.
pub const BUTTON_MARGIN: u32 = 8;

/// Size of the glyph drawn on a control button.
pub const BUTTON_GLYPH_SIZE: u32 = 12;

/// Width of one control button: the glyph and four units on either side.
pub const BUTTON_WIDTH: u32 = 20;

/// How far the line under the title stays away from the bar's left and
/// right edge.
pub const SEPARATOR_INSET: u32 = 1;

/// Thickness of the line under the title.
pub const SEPARATOR_THICKNESS: u32 = 1;

/// The control buttons, in the order they are laid out from the right.
#[derive(Clone, Copy, Debug, PartialEq, Eq, Structural)]
pub enum ControlButton {
    Close,
    MaximizeRestore,
    Minimize,
}

/// What the middle button offers to do.
#[derive(Clone, Copy, Debug, PartialEq, Eq, Structural)]
pub enum MaximizeAffordance {
    Maximize,
    Restore,
}

/// Everything needed to draw the title bar for one frame.
#[derive(Clone, Copy, Debug, PartialEq, Eq, Structural)]
pub struct TitleBarLayout {
    pub bar: Rect,
    /// The point on which the title text is centred.
    pub title_anchor: Point,
    /// The two ends of the line under the title.
    pub separator_from: Point,
    pub separator_to: Point,
    pub close_button: Rect,
    pub maximize_button: Rect,
    pub minimize_button: Rect,
    pub affordance: MaximizeAffordance,
}

impl ControlButton {
    /// The button's place counted from the right, starting at 0.
    pub open spec fn slot(self) -> int {
        match self {
            ControlButton::Close => 0,
            ControlButton::MaximizeRestore => 1,
            ControlButton::Minimize => 2,
        }
    }
}

impl MaximizeAffordance {
    /// A maximized window offers to restore, any other to maximize.
    pub open spec fn spec_for_window(maximized: bool) -> MaximizeAffordance {
        if maximized {
            MaximizeAffordance::Restore
        } else {
            MaximizeAffordance::Maximize
        }
    }

    #[verifier::when_used_as_spec(spec_for_window)]
    pub fn for_window(maximized: bool) -> (affordance: MaximizeAffordance)
        ensures
            affordance == MaximizeAffordance::spec_for_window(maximized),
    {
        if maximized {
            MaximizeAffordance::Restore
        } else {
            MaximizeAffordance::Maximize
        }
    }

    /// The maximized flag that a click on the button asks for.
    pub open spec fn spec_target(&self) -> bool {
        *self == MaximizeAffordance::Maximize
    }

    #[verifier::when_used_as_spec(spec_target)]
    pub fn target(&self) -> (on: bool)
        ensures
            on == self.spec_target(),
    {
        match self {
            MaximizeAffordance::Maximize => true,
            MaximizeAffordance::Restore => false,
        }
    }
}

/// The title bar of a window whose content is `content`.
pub open spec fn spec_title_bar_rect(content: Rect) -> Rect {
    content.spec_top_strip(TITLE_BAR_HEIGHT)
}

/// The vertical line `k` button widths left of the first button's right
/// edge, but never left of the bar.
pub open spec fn button_edge(bar: Rect, k: int) -> int {
    let edge = bar.max.x - BUTTON_MARGIN - k * BUTTON_WIDTH;
    if edge < bar.min.x {
        bar.min.x as int
    } else {
        edge
    }
}

/// The area of `button` in `bar`.
pub open spec fn spec_button_rect(bar: Rect, button: ControlButton) -> Rect {
    Rect {
        min: Point { x: button_edge(bar, button.slot() + 1) as i32, y: bar.min.y },
        max: Point { x: button_edge(bar, button.slot()) as i32, y: bar.max.y },
    }
}

/// The layout of `bar` for a window with the given maximized flag.
pub open spec fn spec_layout(bar: Rect, maximized: bool) -> TitleBarLayout {
    TitleBarLayout {
        bar,
        title_anchor: bar.spec_center(),
        separator_from: Point { x: clamp_coord(bar.min.x + SEPARATOR_INSET) as i32, y: bar.max.y },
        separator_to: Point { x: clamp_coord(bar.max.x - SEPARATOR_INSET) as i32, y: bar.max.y },
        close_button: spec_button_rect(bar, ControlButton::Close),
        maximize_button: spec_button_rect(bar, ControlButton::MaximizeRestore),
        minimize_button: spec_button_rect(bar, ControlButton::Minimize),
        affordance: MaximizeAffordance::spec_for_window(maximized),
    }
}

#[verifier::when_used_as_spec(spec_title_bar_rect)]
pub fn title_bar_rect(content: Rect) -> (bar: Rect)
    ensures
        bar == spec_title_bar_rect(content),
        bar.min == content.min,
        bar.max.x == content.max.x,
        TITLE_BAR_HEIGHT <= content.height() ==> bar.height() == TITLE_BAR_HEIGHT && bar.within(
            content,
        ),
{
    content.top_strip(TITLE_BAR_HEIGHT)
}

fn edge_at(bar: Rect, k: u8) -> (x: i32)
    requires
        k <= 3,
    ensures
        x == button_edge(bar, k as int),
        bar.min.x <= bar.max.x ==> bar.min.x <= x <= bar.max.x,
{
    let width: i64 = BUTTON_WIDTH as i64;
    let steps: i64 = k as i64;
    assert(0 <= steps * width <= 3 * width) by (nonlinear_arith)
        requires
            0 <= steps <= 3,
            0 <= width,
    ;
    let edge: i64 = bar.max.x as i64 - BUTTON_MARGIN as i64 - steps * width;
    if edge < bar.min.x as i64 {
        bar.min.x
    } else {
        edge as i32
    }
}

#[verifier::when_used_as_spec(spec_button_rect)]
pub fn button_rect(bar: Rect, button: ControlButton) -> (area: Rect)
    ensures
        area == spec_button_rect(bar, button),
        area.within(bar),
        area.min.y == bar.min.y,
        area.max.y == bar.max.y,
        0 <= area.width() <= BUTTON_WIDTH,
        bar.width() >= BUTTON_MARGIN + (button.slot() + 1) * BUTTON_WIDTH ==> area.width()
            == BUTTON_WIDTH,
{
    let k: u8 = match button {
        ControlButton::Close => 0,
        ControlButton::MaximizeRestore => 1,
        ControlButton::Minimize => 2,
    };
    let left = edge_at(bar, k + 1);
    let right = edge_at(bar, k);
    Rect { min: Point { x: left, y: bar.min.y }, max: Point { x: right, y: bar.max.y } }
}

#[verifier::when_used_as_spec(spec_layout)]
pub fn layout(bar: Rect, maximized: bool) -> (plan: TitleBarLayout)
    ensures
        plan == spec_layout(bar, maximized),
{
    TitleBarLayout {
        bar,
        title_anchor: bar.center(),
        separator_from: Point {
            x: clamp_to_coord(bar.min.x as i64 + SEPARATOR_INSET as i64),
            y: bar.max.y,
        },
        separator_to: Point {
            x: clamp_to_coord(bar.max.x as i64 - SEPARATOR_INSET as i64),
            y: bar.max.y,
        },
        close_button: button_rect(bar, ControlButton::Close),
        maximize_button: button_rect(bar, ControlButton::MaximizeRestore),
        minimize_button: button_rect(bar, ControlButton::Minimize),
        affordance: MaximizeAffordance::for_window(maximized),
    }
}

/// The control buttons lie inside the bar and no two of them share a unit,
/// so a point is on at most one button.
pub proof fn lemma_buttons_apart(bar: Rect, a: ControlButton, b: ControlButton)
    ensures
        spec_button_rect(bar, a).within(bar),
        a != b ==> spec_button_rect(bar, a).disjoint(spec_button_rect(bar, b)),
{
}

/// In a bar that is wide enough for the margin and three buttons, every
/// button has its full width and the three of them line up without a gap,
/// the close button first from the right.
pub proof fn lemma_buttons_fit(bar: Rect)
    requires
        bar.width() >= BUTTON_MARGIN + 3 * BUTTON_WIDTH,
    ensures
        spec_button_rect(bar, ControlButton::Close).max.x == bar.max.x - BUTTON_MARGIN,
        spec_button_rect(bar, ControlButton::Close).width() == BUTTON_WIDTH,
        spec_button_rect(bar, ControlButton::MaximizeRestore).width() == BUTTON_WIDTH,
        spec_button_rect(bar, ControlButton::Minimize).width() == BUTTON_WIDTH,
        spec_button_rect(bar, ControlButton::MaximizeRestore).max.x == spec_button_rect(
            bar,
            ControlButton::Close,
        ).min.x,
        spec_button_rect(bar, ControlButton::Minimize).max.x == spec_button_rect(
            bar,
            ControlButton::MaximizeRestore,
        ).min.x,
{
}

/// The title bar starts at the content's top-left corner and, where the
/// content is at least as high as the bar, is exactly as high as asked and
/// lies inside the content.
pub proof fn lemma_top_strip(content: Rect, height: u32)
    requires
        height <= content.height(),
    ensures
        content.spec_top_strip(height).min == content.min,
        content.spec_top_strip(height).height() == height,
        content.spec_top_strip(height).width() == content.width(),
        content.spec_top_strip(height).within(content),
{
}

} // verus!
