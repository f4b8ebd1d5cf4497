//! What the pointer did during one frame.
//!
//! The caller samples the pointer once per frame and hands the sample in by
//! value; nothing in this crate reads the pointer behind the caller's back.

use vstd::prelude::*;
use crate::geometry::{Point, Rect, Vector};

verus! {

/// The pointer as sampled for one frame.
#[derive(Clone, Copy, Debug, PartialEq, Eq, Structural)]
pub struct PointerSnapshot {
    /// Where the pointer is, if it is over the window.
    pub position: Option<Point>,
    /// Where the button press that is still held began.
    pub press_origin: Option<Point>,
    /// The primary button is held down.
    pub primary_down: bool,
    /// A click of the primary button was completed in this frame.
    pub clicked: bool,
    /// A double click of the primary button was completed in this frame.
    pub double_clicked: bool,
    /// How far the pointer moved since the previous frame.
    pub delta: Vector,
}

/// The answer given in the dialog that asks whether to quit.
#[derive(Clone, Copy, Debug, PartialEq, Eq, Structural)]
pub enum DialogChoice {
    Cancel,
    Confirm,
}

impl PointerSnapshot {
    /// The pointer is over `area`.
    pub open spec fn spec_is_over(&self, area: Rect) -> bool {
        self.position matches Some(p) && area.spec_contains(p)
    }

    /// A click was completed on `area`.
    pub open spec fn spec_clicked_on(&self, area: Rect) -> bool {
        self.clicked && self.spec_is_over(area)
    }

    /// A double click was completed on `area`.
    pub open spec fn spec_double_clicked_on(&self, area: Rect) -> bool {
        self.double_clicked && self.spec_is_over(area)
    }

    /// The primary button went down on `area` and is still held, wherever
    /// the pointer has moved since.
    pub open spec fn spec_held_on(&self, area: Rect) -> bool {
        self.primary_down && (self.press_origin matches Some(p) && area.spec_contains(p))
    }

    /// A pointer that is away from the window and does nothing.
    pub open spec fn spec_idle() -> PointerSnapshot {
        PointerSnapshot {
            position: None,
            press_origin: None,
            primary_down: false,
            clicked: false,
            double_clicked: false,
            delta: Vector::spec_zero(),
        }
    }

    #[verifier::when_used_as_spec(spec_idle)]
    pub fn idle() -> (snapshot: PointerSnapshot)
        ensures
            snapshot == PointerSnapshot::spec_idle(),
    {
        PointerSnapshot {
            position: None,
            press_origin: None,
            primary_down: false,
            clicked: false,
            double_clicked: false,
            delta: Vector::zero(),
        }
    }

    #[verifier::when_used_as_spec(spec_is_over)]
    pub fn is_over(&self, area: Rect) -> (over: bool)
        ensures
            over == self.spec_is_over(area),
    {
        match self.position {
            Some(p) => area.contains(p),
            None => false,
        }
    }

    #[verifier::when_used_as_spec(spec_clicked_on)]
    pub fn clicked_on(&self, area: Rect) -> (hit: bool)
        ensures
            hit == self.spec_clicked_on(area),
    {
        self.clicked && self.is_over(area)
    }

    #[verifier::when_used_as_spec(spec_double_clicked_on)]
    pub fn double_clicked_on(&self, area: Rect) -> (hit: bool)
        ensures
            hit == self.spec_double_clicked_on(area),
    {
        self.double_clicked && self.is_over(area)
    }

    #[verifier::when_used_as_spec(spec_held_on)]
    pub fn held_on(&self, area: Rect) -> (held: bool)
        ensures
            held == self.spec_held_on(area),
    {
        match self.press_origin {
            Some(p) => self.primary_down && area.contains(p),
            None => false,
        }
    }
}

} // verus!
