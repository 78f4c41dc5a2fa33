//! Drawing tools and the modifier tracker that selects between them.

use vstd::prelude::*;

verus! {

/// The closed set of drawing tools.
///
/// A tool is never stored as an independent user selection: it is derived
/// from the live modifier state whenever a gesture starts.
#[derive(Clone, Copy, Debug, PartialEq, Eq, Structural)]
pub enum Tool {
    Pen,
    Line,
    Rect,
    Ellipse,
    Arrow,
}

/// The current press state of the four modifier keys.
#[derive(Clone, Copy, Debug, PartialEq, Eq, Structural)]
pub struct Modifiers {
    pub shift: bool,
    pub ctrl: bool,
    pub alt: bool,
    pub tab: bool,
}

/// The tool selected by a modifier combination, by fixed precedence,
/// most specific first: Ctrl+Shift, then Ctrl, then Tab, then Shift,
/// then none.
pub open spec fn spec_current_tool(m: Modifiers) -> Tool {
    if m.ctrl && m.shift {
        Tool::Arrow
    } else if m.ctrl {
        Tool::Rect
    } else if m.tab {
        Tool::Ellipse
    } else if m.shift {
        Tool::Line
    } else {
        Tool::Pen
    }
}

impl Modifiers {
    /// All modifiers released.
    pub fn new() -> (m: Modifiers)
        ensures
            m == (Modifiers { shift: false, ctrl: false, alt: false, tab: false }),
    {
        Modifiers { shift: false, ctrl: false, alt: false, tab: false }
    }

    /// Derives the active tool from the modifier combination.
    ///
    /// Total over all sixteen combinations and deterministic: the result is
    /// exactly `spec_current_tool`, the fixed precedence chain.
    pub fn current_tool(&self) -> (t: Tool)
        ensures
            t == spec_current_tool(*self),
    {
        if self.ctrl && self.shift {
            Tool::Arrow
        } else if self.ctrl {
            Tool::Rect
        } else if self.tab {
            Tool::Ellipse
        } else if self.shift {
            Tool::Line
        } else {
            Tool::Pen
        }
    }
}

} // verus!
