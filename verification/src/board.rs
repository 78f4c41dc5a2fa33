//! Board modes and the per-board shape histories.

use vstd::prelude::*;

use crate::color::{black, white, Color};
use crate::shape::{Shape, ShapeV};

verus! {

/// The three independent drawing surfaces.
#[derive(Clone, Copy, Debug, PartialEq, Eq, Structural)]
pub enum BoardMode {
    /// The see-through overlay over the live screen.
    Transparent,
    /// An opaque white surface.
    Whiteboard,
    /// An opaque black surface.
    Blackboard,
}

/// The default pen color adopted when entering a board mode, chosen for
/// contrast; the transparent overlay defines none.
pub open spec fn spec_default_pen_color(m: BoardMode) -> Option<Color> {
    match m {
        BoardMode::Transparent => None,
        BoardMode::Whiteboard => Some(black()),
        BoardMode::Blackboard => Some(white()),
    }
}

impl BoardMode {
    /// The default pen color for this mode, if it defines one.
    pub fn default_pen_color(&self) -> (c: Option<Color>)
        ensures
            c == spec_default_pen_color(*self),
    {
        match self {
            BoardMode::Transparent => None,
            BoardMode::Whiteboard => Some(Color::rgb(0, 0, 0)),
            BoardMode::Blackboard => Some(Color::rgb(255, 255, 255)),
        }
    }
}

/// The ordered shape history belonging to one board mode.
#[derive(Debug, PartialEq)]
pub struct Frame {
    pub shapes: Vec<Shape>,
}

impl View for Frame {
    type V = Seq<ShapeV>;

    open spec fn view(&self) -> Seq<ShapeV> {
        self.shapes.deep_view()
    }
}

impl Frame {
    /// An empty history.
    pub fn new() -> (f: Frame)
        ensures
            f@ == Seq::<ShapeV>::empty(),
    {
        let f = Frame { shapes: Vec::new() };
        proof {
            assert(f@ =~= Seq::<ShapeV>::empty());
        }
        f
    }

    /// Appends a finished shape to the history.
    pub fn add_shape(&mut self, shape: Shape)
        ensures
            final(self)@ == old(self)@.push(shape@),
    {
        let ghost pre = self@;
        self.shapes.push(shape);
        proof {
            assert(self@ =~= pre.push(shape@));
        }
    }

    /// Removes the most recently added shape, if any; reports whether a
    /// shape was removed.
    pub fn undo(&mut self) -> (removed: bool)
        ensures
            removed == (old(self)@.len() > 0),
            old(self)@.len() > 0 ==> final(self)@ == old(self)@.drop_last(),
            old(self)@.len() == 0 ==> final(self)@ == old(self)@,
    {
        let ghost pre = self@;
        let popped = self.shapes.pop();
        proof {
            if pre.len() > 0 {
                assert(self@ =~= pre.drop_last());
            } else {
                assert(self@ =~= pre);
            }
        }
        match popped {
            Some(_) => true,
            None => false,
        }
    }

    /// Removes every shape from the history.
    pub fn clear(&mut self)
        ensures
            final(self)@ == Seq::<ShapeV>::empty(),
    {
        self.shapes.clear();
        proof {
            assert(self@ =~= Seq::<ShapeV>::empty());
        }
    }

    /// The number of shapes in the history.
    pub fn len(&self) -> (n: usize)
        ensures
            n == self@.len(),
    {
        self.shapes.len()
    }
}

/// Abstract value of a `CanvasSet`: the active mode and the three shape
/// histories.
#[verifier::ext_equal]
pub struct CanvasV {
    pub active: BoardMode,
    pub transparent: Seq<ShapeV>,
    pub whiteboard: Seq<ShapeV>,
    pub blackboard: Seq<ShapeV>,
}

impl CanvasV {
    /// The history belonging to mode `m`.
    pub open spec fn frame(self, m: BoardMode) -> Seq<ShapeV> {
        match m {
            BoardMode::Transparent => self.transparent,
            BoardMode::Whiteboard => self.whiteboard,
            BoardMode::Blackboard => self.blackboard,
        }
    }

    /// The history of the active mode.
    pub open spec fn active_frame(self) -> Seq<ShapeV> {
        self.frame(self.active)
    }

    /// `self` with the history of mode `m` replaced by `s`.
    pub open spec fn with_frame(self, m: BoardMode, s: Seq<ShapeV>) -> CanvasV {
        match m {
            BoardMode::Transparent => CanvasV { transparent: s, ..self },
            BoardMode::Whiteboard => CanvasV { whiteboard: s, ..self },
            BoardMode::Blackboard => CanvasV { blackboard: s, ..self },
        }
    }

    /// `self` with mode `m` active.
    pub open spec fn with_active(self, m: BoardMode) -> CanvasV {
        CanvasV { active: m, ..self }
    }
}

/// One independent shape history per board mode, plus the identity of the
/// active one.
pub struct CanvasSet {
    pub active: BoardMode,
    pub transparent: Frame,
    pub whiteboard: Frame,
    pub blackboard: Frame,
}

impl View for CanvasSet {
    type V = CanvasV;

    open spec fn view(&self) -> CanvasV {
        CanvasV {
            active: self.active,
            transparent: self.transparent@,
            whiteboard: self.whiteboard@,
            blackboard: self.blackboard@,
        }
    }
}

impl CanvasSet {
    /// The concrete frame belonging to mode `m`.
    pub open spec fn spec_frame_of(self, m: BoardMode) -> Frame {
        match m {
            BoardMode::Transparent => self.transparent,
            BoardMode::Whiteboard => self.whiteboard,
            BoardMode::Blackboard => self.blackboard,
        }
    }

    /// Three empty histories with the transparent overlay active.
    pub fn new() -> (c: CanvasSet)
        ensures
            c@ == (CanvasV {
                active: BoardMode::Transparent,
                transparent: Seq::<ShapeV>::empty(),
                whiteboard: Seq::<ShapeV>::empty(),
                blackboard: Seq::<ShapeV>::empty(),
            }),
    {
        let c = CanvasSet {
            active: BoardMode::Transparent,
            transparent: Frame::new(),
            whiteboard: Frame::new(),
            blackboard: Frame::new(),
        };
        proof {
            assert(c@ =~= (CanvasV {
                active: BoardMode::Transparent,
                transparent: Seq::<ShapeV>::empty(),
                whiteboard: Seq::<ShapeV>::empty(),
                blackboard: Seq::<ShapeV>::empty(),
            }));
        }
        c
    }

    /// The currently active board mode.
    pub fn active_mode(&self) -> (m: BoardMode)
        ensures
            m == self@.active,
    {
        self.active
    }

    /// Activates the frame of mode `m`; every history is preserved.
    pub fn switch_mode(&mut self, m: BoardMode)
        ensures
            final(self)@ == old(self)@.with_active(m),
    {
        self.active = m;
        proof {
            assert(self@ =~= old(self)@.with_active(m));
        }
    }

    /// Borrows the history of the active mode for mutation.
    pub fn active_frame_mut(&mut self) -> (ret: &mut Frame)
        ensures
            *ret == old(self).spec_frame_of(old(self).active),
            final(self).active == old(self).active,
            *final(self) == (old(self).spec_frame_set(old(self).active, *final(ret))),
    {
        match self.active {
            BoardMode::Transparent => &mut self.transparent,
            BoardMode::Whiteboard => &mut self.whiteboard,
            BoardMode::Blackboard => &mut self.blackboard,
        }
    }

    /// `self` with the concrete frame of mode `m` replaced by `f`.
    pub open spec fn spec_frame_set(self, m: BoardMode, f: Frame) -> CanvasSet {
        match m {
            BoardMode::Transparent => CanvasSet { transparent: f, ..self },
            BoardMode::Whiteboard => CanvasSet { whiteboard: f, ..self },
            BoardMode::Blackboard => CanvasSet { blackboard: f, ..self },
        }
    }

    /// Borrows the history of the active mode for reading.
    pub fn active_frame(&self) -> (ret: &Frame)
        ensures
            *ret == self.spec_frame_of(self.active),
    {
        match self.active {
            BoardMode::Transparent => &self.transparent,
            BoardMode::Whiteboard => &self.whiteboard,
            BoardMode::Blackboard => &self.blackboard,
        }
    }

    /// Clears the history of the active mode; the others are preserved.
    pub fn clear_active(&mut self)
        ensures
            final(self)@ == old(self)@.with_frame(old(self)@.active, Seq::<ShapeV>::empty()),
    {
        let frame = self.active_frame_mut();
        frame.clear();
        proof {
            assert(self@ =~= old(self)@.with_frame(old(self)@.active, Seq::<ShapeV>::empty()));
        }
    }
}

} // verus!
