//! The drawing state machine and the input session controller.
//!
//! Every event handler is specified against a transition function over
//! `ModelV`, the abstract value of the whole session: the handler's
//! postcondition states that the new session value equals the transition
//! function applied to the old one.

use vstd::prelude::*;

use crate::board::{spec_default_pen_color, BoardMode, CanvasSet, CanvasV};
use crate::color::{key_to_color, spec_key_color, Color};
use crate::events::{Key, MouseButton};
use crate::geometry::{
    ellipse_bounds, in_coord_range, rect_bounds, spec_ellipse_bounds, spec_rect_bounds,
};
use crate::shape::{FontDescriptor, FontDescriptorV, Shape, ShapeV};
use crate::tool::{spec_current_tool, Modifiers, Tool};

verus! {

/// Smallest selectable pen thickness, in pixels.
pub const MIN_THICKNESS: u32 = 1;

/// Largest selectable pen thickness, in pixels.
pub const MAX_THICKNESS: u32 = 20;

/// Current drawing mode state machine.
///
/// Tracks whether the user is idle, actively drawing a shape, or entering
/// text.  State transitions occur based on mouse and keyboard events.
#[derive(Debug, PartialEq)]
pub enum DrawingState {
    /// Not actively drawing - waiting for user input.
    Idle,
    /// Actively drawing a shape (mouse button held down).
    Drawing {
        /// Which tool is being used for this shape.
        tool: Tool,
        /// Starting X coordinate (where the pointer was pressed).
        start_x: i32,
        /// Starting Y coordinate (where the pointer was pressed).
        start_y: i32,
        /// Accumulated points; grows beyond the anchor only for the pen.
        points: Vec<(i32, i32)>,
    },
    /// Text input mode - the user is typing text to place on screen.
    TextInput {
        /// X coordinate where the text will be placed.
        x: i32,
        /// Y coordinate where the text will be placed.
        y: i32,
        /// Accumulated text buffer; may contain newlines.
        buffer: Vec<char>,
    },
}

/// Abstract value of a `DrawingState`.
#[verifier::ext_equal]
pub enum DrawingStateV {
    Idle,
    Drawing { tool: Tool, start_x: i32, start_y: i32, points: Seq<(i32, i32)> },
    TextInput { x: i32, y: i32, buffer: Seq<char> },
}

impl View for DrawingState {
    type V = DrawingStateV;

    open spec fn view(&self) -> DrawingStateV {
        match self {
            DrawingState::Idle => DrawingStateV::Idle,
            DrawingState::Drawing { tool, start_x, start_y, points } => DrawingStateV::Drawing {
                tool: *tool,
                start_x: *start_x,
                start_y: *start_y,
                points: points@,
            },
            DrawingState::TextInput { x, y, buffer } => DrawingStateV::TextInput {
                x: *x,
                y: *y,
                buffer: buffer@,
            },
        }
    }
}

/// Well-formedness of an in-progress gesture: the point sequence starts at
/// the anchor, only the pen accumulates further points, and every recorded
/// coordinate is within the geometry's range.
pub open spec fn state_wf(s: DrawingStateV) -> bool {
    match s {
        DrawingStateV::Idle => true,
        DrawingStateV::Drawing { tool, start_x, start_y, points } => {
            &&& points.len() >= 1
            &&& points[0] == (start_x, start_y)
            &&& tool != Tool::Pen ==> points.len() == 1
            &&& forall|i: int|
                0 <= i < points.len() ==> in_coord_range(#[trigger] points[i].0) && in_coord_range(
                    points[i].1,
                )
            &&& in_coord_range(start_x)
            &&& in_coord_range(start_y)
        },
        DrawingStateV::TextInput { .. } => true,
    }
}

/// Abstract value of the whole input session.
#[verifier::ext_equal]
pub struct ModelV {
    pub canvas: CanvasV,
    pub color: Color,
    pub thickness: u32,
    pub font_size: u32,
    pub font: FontDescriptorV,
    pub text_background: bool,
    pub arrow_length: u32,
    pub arrow_angle: u32,
    pub modifiers: Modifiers,
    pub state: DrawingStateV,
    pub should_exit: bool,
    pub needs_redraw: bool,
    pub show_help: bool,
    pub screen_width: u32,
    pub screen_height: u32,
    pub previous_color: Option<Color>,
}

impl ModelV {
    /// Session invariant: the thickness stays within its bounds and any
    /// in-progress gesture is well formed.
    pub open spec fn wf(self) -> bool {
        &&& MIN_THICKNESS <= self.thickness <= MAX_THICKNESS
        &&& state_wf(self.state)
    }
}

/// The mode actually switched to: requesting the active board a second
/// time toggles back to the transparent overlay.
pub open spec fn spec_switch_target(current: BoardMode, requested: BoardMode) -> BoardMode {
    if current == requested && requested != BoardMode::Transparent {
        BoardMode::Transparent
    } else {
        requested
    }
}

/// The pen color adopted on entering `target`: its default if it defines
/// one, the current color otherwise.
pub open spec fn spec_entry_color(target: BoardMode, current_color: Color) -> Color {
    match spec_default_pen_color(target) {
        Some(c) => c,
        None => current_color,
    }
}

/// Color bookkeeping for an effective mode change (`current != target`):
/// entering a board from the overlay saves the color, returning to the
/// overlay restores it, moving between boards adopts the new default and
/// leaves the saved slot untouched.
pub open spec fn spec_switch_colors(
    current: BoardMode,
    target: BoardMode,
    color: Color,
    prev: Option<Color>,
) -> (Color, Option<Color>) {
    if current == BoardMode::Transparent && target != BoardMode::Transparent {
        (spec_entry_color(target, color), Some(color))
    } else if current != BoardMode::Transparent && target == BoardMode::Transparent {
        (
            match prev {
                Some(p) => p,
                None => color,
            },
            None,
        )
    } else if current != BoardMode::Transparent && target != BoardMode::Transparent {
        (spec_entry_color(target, color), prev)
    } else {
        (color, prev)
    }
}

/// Board-mode switch: toggle-back resolution, then either a no-op (already
/// on the target) or a mode change with color bookkeeping, a forced reset
/// of the drawing state, and a redraw request.  Frame histories are never
/// modified.
pub open spec fn spec_switch_board(m: ModelV, requested: BoardMode) -> ModelV {
    let current = m.canvas.active;
    let target = spec_switch_target(current, requested);
    if current == target {
        m
    } else {
        let cp = spec_switch_colors(current, target, m.color, m.previous_color);
        ModelV {
            canvas: m.canvas.with_active(target),
            color: cp.0,
            previous_color: cp.1,
            state: DrawingStateV::Idle,
            needs_redraw: true,
            ..m
        }
    }
}

/// Dispatch of a printable character: while typing, every character is
/// appended to the buffer; otherwise board shortcuts, text mode, clear,
/// undo, quit and the color table are checked in that order.
pub open spec fn spec_char_press(m: ModelV, c: char) -> ModelV {
    match m.state {
        DrawingStateV::TextInput { x, y, buffer } => ModelV {
            state: DrawingStateV::TextInput { x, y, buffer: buffer.push(c) },
            needs_redraw: true,
            ..m
        },
        _ => {
            if (c == 'w' || c == 'W') && m.modifiers.ctrl {
                spec_switch_board(m, BoardMode::Whiteboard)
            } else if (c == 'b' || c == 'B') && m.modifiers.ctrl {
                spec_switch_board(m, BoardMode::Blackboard)
            } else if (c == 't' || c == 'T') && m.modifiers.ctrl && m.modifiers.shift {
                spec_switch_board(m, BoardMode::Transparent)
            } else if (c == 't' || c == 'T') && !m.modifiers.ctrl {
                if m.state is Idle {
                    ModelV {
                        state: DrawingStateV::TextInput {
                            x: (m.screen_width / 2) as i32,
                            y: (m.screen_height / 2) as i32,
                            buffer: Seq::empty(),
                        },
                        needs_redraw: true,
                        ..m
                    }
                } else {
                    m
                }
            } else if c == 'e' || c == 'E' {
                ModelV {
                    canvas: m.canvas.with_frame(m.canvas.active, Seq::empty()),
                    needs_redraw: true,
                    ..m
                }
            } else if (c == 'z' || c == 'Z') && m.modifiers.ctrl {
                if m.canvas.active_frame().len() > 0 {
                    ModelV {
                        canvas: m.canvas.with_frame(
                            m.canvas.active,
                            m.canvas.active_frame().drop_last(),
                        ),
                        needs_redraw: true,
                        ..m
                    }
                } else {
                    m
                }
            } else if (c == 'q' || c == 'Q') && m.modifiers.ctrl {
                ModelV { should_exit: true, needs_redraw: true, ..m }
            } else if !m.modifiers.ctrl {
                match spec_key_color(c) {
                    Some(col) => ModelV { color: col, needs_redraw: true, ..m },
                    None => m,
                }
            } else {
                m
            }
        },
    }
}

/// Return key: a newline while Shift is held; otherwise text finalization
/// (the buffer becomes a text shape if non-empty) and a return to idle.
pub open spec fn spec_return_press(m: ModelV) -> ModelV {
    match m.state {
        DrawingStateV::TextInput { x, y, buffer } => {
            if m.modifiers.shift {
                ModelV {
                    state: DrawingStateV::TextInput { x, y, buffer: buffer.push('\n') },
                    needs_redraw: true,
                    ..m
                }
            } else if buffer.len() > 0 {
                let shape = ShapeV::Text {
                    x,
                    y,
                    text: buffer,
                    color: m.color,
                    size: m.font_size,
                    font: m.font,
                    background_enabled: m.text_background,
                };
                ModelV {
                    canvas: m.canvas.with_frame(
                        m.canvas.active,
                        m.canvas.active_frame().push(shape),
                    ),
                    state: DrawingStateV::Idle,
                    needs_redraw: true,
                    ..m
                }
            } else {
                ModelV { state: DrawingStateV::Idle, ..m }
            }
        },
        _ => m,
    }
}

/// Transition for a key press.
pub open spec fn spec_key_press(m: ModelV, key: Key) -> ModelV {
    match key {
        Key::Escape => match m.state {
            DrawingStateV::Idle => ModelV { should_exit: true, ..m },
            _ => ModelV { state: DrawingStateV::Idle, needs_redraw: true, ..m },
        },
        Key::Char(c) => spec_char_press(m, c),
        Key::Backspace => match m.state {
            DrawingStateV::TextInput { x, y, buffer } => ModelV {
                state: DrawingStateV::TextInput {
                    x,
                    y,
                    buffer: if buffer.len() > 0 {
                        buffer.drop_last()
                    } else {
                        buffer
                    },
                },
                needs_redraw: true,
                ..m
            },
            _ => m,
        },
        Key::Return => spec_return_press(m),
        Key::Space => match m.state {
            DrawingStateV::TextInput { x, y, buffer } => ModelV {
                state: DrawingStateV::TextInput { x, y, buffer: buffer.push(' ') },
                needs_redraw: true,
                ..m
            },
            _ => m,
        },
        Key::Shift => ModelV { modifiers: Modifiers { shift: true, ..m.modifiers }, ..m },
        Key::Ctrl => ModelV { modifiers: Modifiers { ctrl: true, ..m.modifiers }, ..m },
        Key::Alt => ModelV { modifiers: Modifiers { alt: true, ..m.modifiers }, ..m },
        Key::Tab => ModelV { modifiers: Modifiers { tab: true, ..m.modifiers }, ..m },
        Key::Plus | Key::Equals => ModelV {
            thickness: if m.thickness < MAX_THICKNESS {
                (m.thickness + 1) as u32
            } else {
                MAX_THICKNESS
            },
            needs_redraw: true,
            ..m
        },
        Key::Minus | Key::Underscore => ModelV {
            thickness: if m.thickness > MIN_THICKNESS {
                (m.thickness - 1) as u32
            } else {
                MIN_THICKNESS
            },
            needs_redraw: true,
            ..m
        },
        Key::F10 => ModelV { show_help: !m.show_help, needs_redraw: true, ..m },
    }
}

/// Transition for a key release: only the modifier flags react.
pub open spec fn spec_key_release(m: ModelV, key: Key) -> ModelV {
    match key {
        Key::Shift => ModelV { modifiers: Modifiers { shift: false, ..m.modifiers }, ..m },
        Key::Ctrl => ModelV { modifiers: Modifiers { ctrl: false, ..m.modifiers }, ..m },
        Key::Alt => ModelV { modifiers: Modifiers { alt: false, ..m.modifiers }, ..m },
        Key::Tab => ModelV { modifiers: Modifiers { tab: false, ..m.modifiers }, ..m },
        _ => m,
    }
}

/// Transition for a mouse button press: left starts a gesture from idle
/// with the modifier-derived tool, or repositions the pending text; right
/// cancels an in-progress gesture and acts on no other state — while idle
/// or typing it is an explicit no-op.
pub open spec fn spec_mouse_press(m: ModelV, button: MouseButton, x: i32, y: i32) -> ModelV {
    match button {
        MouseButton::Left => match m.state {
            DrawingStateV::Idle => ModelV {
                state: DrawingStateV::Drawing {
                    tool: spec_current_tool(m.modifiers),
                    start_x: x,
                    start_y: y,
                    points: seq![(x, y)],
                },
                needs_redraw: true,
                ..m
            },
            DrawingStateV::TextInput { buffer, .. } => ModelV {
                state: DrawingStateV::TextInput { x, y, buffer },
                needs_redraw: true,
                ..m
            },
            DrawingStateV::Drawing { .. } => m,
        },
        MouseButton::Right => match m.state {
            DrawingStateV::Drawing { .. } => ModelV {
                state: DrawingStateV::Idle,
                needs_redraw: true,
                ..m
            },
            _ => m,
        },
        MouseButton::Middle => m,
    }
}

/// Transition for pointer motion: the pen accumulates points; every other
/// tool only requests a redraw for its live preview.
pub open spec fn spec_mouse_motion(m: ModelV, x: i32, y: i32) -> ModelV {
    match m.state {
        DrawingStateV::Drawing { tool, start_x, start_y, points } => ModelV {
            state: DrawingStateV::Drawing {
                tool,
                start_x,
                start_y,
                points: if tool == Tool::Pen {
                    points.push((x, y))
                } else {
                    points
                },
            },
            needs_redraw: true,
            ..m
        },
        _ => m,
    }
}

/// The shape a gesture normalizes to, given the terminal point `(x, y)`,
/// used identically for finalization and for live preview.
pub open spec fn spec_finalize_shape(
    m: ModelV,
    tool: Tool,
    start_x: i32,
    start_y: i32,
    points: Seq<(i32, i32)>,
    x: i32,
    y: i32,
) -> ShapeV {
    match tool {
        Tool::Pen => ShapeV::Freehand { points, color: m.color, thick: m.thickness },
        Tool::Line => ShapeV::Line {
            x1: start_x,
            y1: start_y,
            x2: x,
            y2: y,
            color: m.color,
            thick: m.thickness,
        },
        Tool::Rect => {
            let b = spec_rect_bounds(start_x, start_y, x, y);
            ShapeV::Rect { x: b.0, y: b.1, w: b.2, h: b.3, color: m.color, thick: m.thickness }
        },
        Tool::Ellipse => {
            let b = spec_ellipse_bounds(start_x, start_y, x, y);
            ShapeV::Ellipse {
                cx: b.0,
                cy: b.1,
                rx: b.2,
                ry: b.3,
                color: m.color,
                thick: m.thickness,
            }
        },
        Tool::Arrow => ShapeV::Arrow {
            x1: start_x,
            y1: start_y,
            x2: x,
            y2: y,
            color: m.color,
            thick: m.thickness,
            arrow_length: m.arrow_length,
            arrow_angle: m.arrow_angle,
        },
    }
}

/// Transition for a mouse button release: releasing the left button while
/// drawing finalizes the gesture into the active frame and returns to
/// idle; everything else is a no-op.
pub open spec fn spec_mouse_release(m: ModelV, button: MouseButton, x: i32, y: i32) -> ModelV {
    if button != MouseButton::Left {
        m
    } else {
        match m.state {
            DrawingStateV::Drawing { tool, start_x, start_y, points } => {
                let shape = spec_finalize_shape(m, tool, start_x, start_y, points, x, y);
                ModelV {
                    canvas: m.canvas.with_frame(
                        m.canvas.active,
                        m.canvas.active_frame().push(shape),
                    ),
                    state: DrawingStateV::Idle,
                    needs_redraw: true,
                    ..m
                }
            },
            _ => m,
        }
    }
}

/// The provisional shape implied by the current gesture and the live
/// cursor position: the same normalization as finalization, or nothing
/// when no gesture is in progress.
pub open spec fn spec_provisional_shape(m: ModelV, x: i32, y: i32) -> Option<ShapeV> {
    match m.state {
        DrawingStateV::Drawing { tool, start_x, start_y, points } => Some(
            spec_finalize_shape(m, tool, start_x, start_y, points, x, y),
        ),
        _ => None,
    }
}

/// Main input state containing all drawing session state.
///
/// This struct holds the multi-board canvas, drawing parameters, modifier
/// keys, the drawing mode and the host-visible flags.  It processes every
/// keyboard and mouse event, updates the drawing state, and records when a
/// redraw is needed.
pub struct InputState {
    /// Multi-frame canvas management (transparent, whiteboard, blackboard).
    pub canvas_set: CanvasSet,
    /// Current drawing color (changed with the color keys).
    pub current_color: Color,
    /// Current pen/line thickness in pixels (changed with the +/- keys).
    pub current_thickness: u32,
    /// Font size for text mode.
    pub current_font_size: u32,
    /// Font configuration for text rendering.
    pub font_descriptor: FontDescriptor,
    /// Whether to draw a background behind text.
    pub text_background_enabled: bool,
    /// Arrowhead length in pixels.
    pub arrow_length: u32,
    /// Arrowhead half-angle in degrees.
    pub arrow_angle: u32,
    /// Current modifier key state.
    pub modifiers: Modifiers,
    /// Current drawing mode state machine.
    pub state: DrawingState,
    /// Whether the user requested to exit the overlay.
    pub should_exit: bool,
    /// Whether the display needs to be redrawn.
    pub needs_redraw: bool,
    /// Whether the help overlay is currently visible.
    pub show_help: bool,
    /// Screen width in pixels (set by the backend after configuration).
    pub screen_width: u32,
    /// Screen height in pixels (set by the backend after configuration).
    pub screen_height: u32,
    /// Color saved on entering a board mode, restored on leaving it.
    pub board_previous_color: Option<Color>,
}

impl View for InputState {
    type V = ModelV;

    open spec fn view(&self) -> ModelV {
        ModelV {
            canvas: self.canvas_set@,
            color: self.current_color,
            thickness: self.current_thickness,
            font_size: self.current_font_size,
            font: self.font_descriptor@,
            text_background: self.text_background_enabled,
            arrow_length: self.arrow_length,
            arrow_angle: self.arrow_angle,
            modifiers: self.modifiers,
            state: self.state@,
            should_exit: self.should_exit,
            needs_redraw: self.needs_redraw,
            show_help: self.show_help,
            screen_width: self.screen_width,
            screen_height: self.screen_height,
            previous_color: self.board_previous_color,
        }
    }
}

/// Copies a point sequence element by element.
fn copy_points(src: &Vec<(i32, i32)>) -> (out: Vec<(i32, i32)>)
    ensures
        out@ == src@,
{
    let mut out: Vec<(i32, i32)> = Vec::new();
    let mut i: usize = 0;
    while i < src.len()
        invariant
            i <= src.len(),
            out@ == src@.subrange(0, i as int),
        decreases src.len() - i,
    {
        out.push(src[i]);
        proof {
            assert(src@.subrange(0, i + 1 as int) =~= src@.subrange(0, i as int).push(
                src@[i as int],
            ));
        }
        i = i + 1;
    }
    proof {
        assert(out@ =~= src@);
    }
    out
}

impl InputState {
    /// Creates a new session with the given defaults.
    ///
    /// Screen dimensions start at zero and should be updated by the backend
    /// once the real surface dimensions are known (see
    /// `update_screen_dimensions`).
    pub fn with_defaults(
        color: Color,
        thickness: u32,
        font_size: u32,
        font_descriptor: FontDescriptor,
        text_background_enabled: bool,
        arrow_length: u32,
        arrow_angle: u32,
    ) -> (s: InputState)
        requires
            MIN_THICKNESS <= thickness <= MAX_THICKNESS,
        ensures
            s@ == (ModelV {
                canvas: CanvasV {
                    active: BoardMode::Transparent,
                    transparent: Seq::empty(),
                    whiteboard: Seq::empty(),
                    blackboard: Seq::empty(),
                },
                color: color,
                thickness: thickness,
                font_size: font_size,
                font: font_descriptor@,
                text_background: text_background_enabled,
                arrow_length: arrow_length,
                arrow_angle: arrow_angle,
                modifiers: Modifiers { shift: false, ctrl: false, alt: false, tab: false },
                state: DrawingStateV::Idle,
                should_exit: false,
                needs_redraw: true,
                show_help: false,
                screen_width: 0,
                screen_height: 0,
                previous_color: None,
            }),
            s@.wf(),
    {
        let s = InputState {
            canvas_set: CanvasSet::new(),
            current_color: color,
            current_thickness: thickness,
            current_font_size: font_size,
            font_descriptor: font_descriptor,
            text_background_enabled: text_background_enabled,
            arrow_length: arrow_length,
            arrow_angle: arrow_angle,
            modifiers: Modifiers::new(),
            state: DrawingState::Idle,
            should_exit: false,
            needs_redraw: true,
            show_help: false,
            screen_width: 0,
            screen_height: 0,
            board_previous_color: None,
        };
        s
    }

    /// Updates the screen dimensions after backend configuration; nothing
    /// else changes.
    pub fn update_screen_dimensions(&mut self, width: u32, height: u32)
        ensures
            final(self)@ == (ModelV { screen_width: width, screen_height: height, ..old(self)@ }),
    {
        self.screen_width = width;
        self.screen_height = height;
    }

    /// Returns the current board mode.
    pub fn board_mode(&self) -> (m: BoardMode)
        ensures
            m == self@.canvas.active,
    {
        self.canvas_set.active_mode()
    }

    /// Switches to a different board mode with color bookkeeping.
    ///
    /// Requesting the active board toggles back to the transparent overlay;
    /// switching to the mode already active is a no-op.  An effective switch
    /// adjusts colors (`spec_switch_colors`), activates the target frame,
    /// force-resets the drawing state to idle and requests a redraw.  No
    /// frame history is modified.
    pub fn switch_board_mode(&mut self, new_mode: BoardMode)
        ensures
            final(self)@ == spec_switch_board(old(self)@, new_mode),
            old(self)@.wf() ==> final(self)@.wf(),
    {
        let current_mode = self.canvas_set.active_mode();

        // Toggle behavior: if already in the target mode, return to transparent.
        let target_mode = if current_mode == new_mode && new_mode != BoardMode::Transparent {
            BoardMode::Transparent
        } else {
            new_mode
        };

        // No-op if this is already the active mode.
        if current_mode == target_mode {
            return ;
        }

        // Color bookkeeping, keyed by the kind of transition.
        if current_mode == BoardMode::Transparent {
            // Entering a board from the overlay: save the color, adopt the default.
            self.board_previous_color = Some(self.current_color);
            if let Some(default_color) = target_mode.default_pen_color() {
                self.current_color = default_color;
            }
        } else if target_mode == BoardMode::Transparent {
            // Returning to the overlay: restore the saved color, if any.
            if let Some(prev_color) = self.board_previous_color {
                self.current_color = prev_color;
                self.board_previous_color = None;
            }
        } else {
            // Moving between boards: adopt the new default, keep the saved slot.
            if let Some(default_color) = target_mode.default_pen_color() {
                self.current_color = default_color;
            }
        }

        // Activate the target frame, discard any in-progress gesture, redraw.
        self.canvas_set.switch_mode(target_mode);
        self.state = DrawingState::Idle;
        self.needs_redraw = true;
        proof {
            assert(self@ =~~= spec_switch_board(old(self)@, new_mode));
        }
    }

    /// Dispatch of a printable character outside and inside text mode.
    fn on_character_key(&mut self, c: char)
        ensures
            final(self)@ == spec_char_press(old(self)@, c),
            old(self)@.wf() ==> final(self)@.wf(),
    {
        if let DrawingState::TextInput { buffer, .. } = &mut self.state {
            // While typing, every character goes to the buffer.
            buffer.push(c);
            self.needs_redraw = true;
        } else {
            if (c == 'w' || c == 'W') && self.modifiers.ctrl {
                self.switch_board_mode(BoardMode::Whiteboard);
            } else if (c == 'b' || c == 'B') && self.modifiers.ctrl {
                self.switch_board_mode(BoardMode::Blackboard);
            } else if (c == 't' || c == 'T') && self.modifiers.ctrl && self.modifiers.shift {
                self.switch_board_mode(BoardMode::Transparent);
            } else if (c == 't' || c == 'T') && !self.modifiers.ctrl {
                // Enter text mode, placed at the screen center.
                if matches!(self.state, DrawingState::Idle) {
                    self.state = DrawingState::TextInput {
                        x: (self.screen_width / 2) as i32,
                        y: (self.screen_height / 2) as i32,
                        buffer: Vec::new(),
                    };
                    self.needs_redraw = true;
                }
            } else if c == 'e' || c == 'E' {
                // Clear all shapes of the active frame.
                self.canvas_set.clear_active();
                self.needs_redraw = true;
            } else if (c == 'z' || c == 'Z') && self.modifiers.ctrl {
                // Undo the most recent shape of the active frame.
                if self.canvas_set.active_frame_mut().undo() {
                    self.needs_redraw = true;
                }
            } else if (c == 'q' || c == 'Q') && self.modifiers.ctrl {
                self.should_exit = true;
                // Redraw so an event-driven host loop re-checks the flag.
                self.needs_redraw = true;
            } else {
                if !self.modifiers.ctrl {
                    if let Some(color) = key_to_color(c) {
                        self.current_color = color;
                        self.needs_redraw = true;
                    }
                }
            }
        }
        proof {
            assert(self@ =~~= spec_char_press(old(self)@, c));
        }
    }

    /// The Return key: a newline while Shift is held, text finalization
    /// otherwise.
    fn on_return_key(&mut self)
        ensures
            final(self)@ == spec_return_press(old(self)@),
            old(self)@.wf() ==> final(self)@.wf(),
    {
        if self.modifiers.shift {
            // Shift+Return: insert a literal newline.
            if let DrawingState::TextInput { buffer, .. } = &mut self.state {
                buffer.push('\n');
                self.needs_redraw = true;
            }
        } else {
            let mut st = DrawingState::Idle;
            core::mem::swap(&mut st, &mut self.state);
            match st {
                DrawingState::TextInput { x, y, buffer } => {
                    // Plain Return: finalize a non-empty buffer.
                    if buffer.len() > 0 {
                        let shape = Shape::Text {
                            x,
                            y,
                            text: buffer,
                            color: self.current_color,
                            size: self.current_font_size,
                            font: self.font_descriptor.clone(),
                            background_enabled: self.text_background_enabled,
                        };
                        self.canvas_set.active_frame_mut().add_shape(shape);
                        self.needs_redraw = true;
                    }
                },
                other => {
                    self.state = other;
                },
            }
        }
        proof {
            assert(self@ =~~= spec_return_press(old(self)@));
        }
    }

    /// Processes a key press event.
    pub fn on_key_press(&mut self, key: Key)
        ensures
            final(self)@ == spec_key_press(old(self)@, key),
            old(self)@.wf() ==> final(self)@.wf(),
    {
        match key {
            Key::Escape => {
                match &self.state {
                    DrawingState::TextInput { .. } => {
                        // Cancel text input.
                        self.state = DrawingState::Idle;
                        self.needs_redraw = true;
                    },
                    DrawingState::Drawing { .. } => {
                        // Cancel the current gesture.
                        self.state = DrawingState::Idle;
                        self.needs_redraw = true;
                    },
                    DrawingState::Idle => {
                        // Request exit.
                        self.should_exit = true;
                    },
                }
            },
            Key::Char(c) => {
                self.on_character_key(c);
            },
            Key::Backspace => {
                if let DrawingState::TextInput { buffer, .. } = &mut self.state {
                    buffer.pop();
                    self.needs_redraw = true;
                }
            },
            Key::Return => {
                self.on_return_key();
            },
            Key::Space => {
                if let DrawingState::TextInput { buffer, .. } = &mut self.state {
                    buffer.push(' ');
                    self.needs_redraw = true;
                }
            },
            Key::Shift => {
                self.modifiers.shift = true;
            },
            Key::Ctrl => {
                self.modifiers.ctrl = true;
            },
            Key::Alt => {
                self.modifiers.alt = true;
            },
            Key::Tab => {
                self.modifiers.tab = true;
            },
            Key::Plus | Key::Equals => {
                // Increase thickness, saturating at the maximum.
                self.current_thickness = if self.current_thickness < MAX_THICKNESS {
                    self.current_thickness + 1
                } else {
                    MAX_THICKNESS
                };
                self.needs_redraw = true;
            },
            Key::Minus | Key::Underscore => {
                // Decrease thickness, saturating at the minimum.
                self.current_thickness = if self.current_thickness > MIN_THICKNESS {
                    self.current_thickness - 1
                } else {
                    MIN_THICKNESS
                };
                self.needs_redraw = true;
            },
            Key::F10 => {
                self.show_help = !self.show_help;
                self.needs_redraw = true;
            },
        }
        proof {
            assert(self@ =~~= spec_key_press(old(self)@, key));
        }
    }

    /// Processes a key release event: only the modifier flags react.
    pub fn on_key_release(&mut self, key: Key)
        ensures
            final(self)@ == spec_key_release(old(self)@, key),
            old(self)@.wf() ==> final(self)@.wf(),
    {
        match key {
            Key::Shift => {
                self.modifiers.shift = false;
            },
            Key::Ctrl => {
                self.modifiers.ctrl = false;
            },
            Key::Alt => {
                self.modifiers.alt = false;
            },
            Key::Tab => {
                self.modifiers.tab = false;
            },
            _ => {},
        }
    }

    /// Processes a mouse button press.
    ///
    /// Left while idle starts a gesture with the modifier-derived tool;
    /// left while typing repositions the pending text; right cancels an
    /// in-progress gesture only — while idle or typing it does nothing.
    pub fn on_mouse_press(&mut self, button: MouseButton, x: i32, y: i32)
        requires
            in_coord_range(x),
            in_coord_range(y),
        ensures
            final(self)@ == spec_mouse_press(old(self)@, button, x, y),
            old(self)@.wf() ==> final(self)@.wf(),
    {
        match button {
            MouseButton::Left => {
                if matches!(self.state, DrawingState::Idle) {
                    let tool = self.modifiers.current_tool();
                    let mut points: Vec<(i32, i32)> = Vec::new();
                    points.push((x, y));
                    self.state = DrawingState::Drawing { tool, start_x: x, start_y: y, points };
                    self.needs_redraw = true;
                    proof {
                        assert(self@.state->Drawing_points =~= seq![(x, y)]);
                    }
                } else if let DrawingState::TextInput { x: tx, y: ty, .. } = &mut self.state {
                    // Reposition the pending text; does not finalize.
                    *tx = x;
                    *ty = y;
                    self.needs_redraw = true;
                }
            },
            MouseButton::Right => {
                if matches!(self.state, DrawingState::Drawing { .. }) {
                    self.state = DrawingState::Idle;
                    self.needs_redraw = true;
                }
            },
            MouseButton::Middle => {},
        }
        proof {
            assert(self@ =~~= spec_mouse_press(old(self)@, button, x, y));
        }
    }

    /// Processes pointer motion while a button may be held.
    ///
    /// The pen accumulates points; other tools only request a redraw so the
    /// host refreshes their live preview.
    pub fn on_mouse_motion(&mut self, x: i32, y: i32)
        requires
            in_coord_range(x),
            in_coord_range(y),
        ensures
            final(self)@ == spec_mouse_motion(old(self)@, x, y),
            old(self)@.wf() ==> final(self)@.wf(),
    {
        match &mut self.state {
            DrawingState::Drawing { tool, points, .. } => {
                if *tool == Tool::Pen {
                    points.push((x, y));
                }
                self.needs_redraw = true;
            },
            _ => {},
        }
        proof {
            assert(self@ =~~= spec_mouse_motion(old(self)@, x, y));
        }
    }

    /// Processes a mouse button release.
    ///
    /// Releasing the left button while drawing finalizes the gesture via
    /// the geometry normalizer, appends the shape to the active frame and
    /// returns to idle.
    pub fn on_mouse_release(&mut self, button: MouseButton, x: i32, y: i32)
        requires
            in_coord_range(x),
            in_coord_range(y),
            old(self)@.wf(),
        ensures
            final(self)@ == spec_mouse_release(old(self)@, button, x, y),
            final(self)@.wf(),
    {
        if button != MouseButton::Left {
            return ;
        }
        let mut st = DrawingState::Idle;
        core::mem::swap(&mut st, &mut self.state);
        match st {
            DrawingState::Drawing { tool, start_x, start_y, points } => {
                let shape = match tool {
                    Tool::Pen => Shape::Freehand {
                        points,
                        color: self.current_color,
                        thick: self.current_thickness,
                    },
                    Tool::Line => Shape::Line {
                        x1: start_x,
                        y1: start_y,
                        x2: x,
                        y2: y,
                        color: self.current_color,
                        thick: self.current_thickness,
                    },
                    Tool::Rect => {
                        let b = rect_bounds(start_x, start_y, x, y);
                        Shape::Rect {
                            x: b.0,
                            y: b.1,
                            w: b.2,
                            h: b.3,
                            color: self.current_color,
                            thick: self.current_thickness,
                        }
                    },
                    Tool::Ellipse => {
                        let b = ellipse_bounds(start_x, start_y, x, y);
                        Shape::Ellipse {
                            cx: b.0,
                            cy: b.1,
                            rx: b.2,
                            ry: b.3,
                            color: self.current_color,
                            thick: self.current_thickness,
                        }
                    },
                    Tool::Arrow => Shape::Arrow {
                        x1: start_x,
                        y1: start_y,
                        x2: x,
                        y2: y,
                        color: self.current_color,
                        thick: self.current_thickness,
                        arrow_length: self.arrow_length,
                        arrow_angle: self.arrow_angle,
                    },
                };
                self.canvas_set.active_frame_mut().add_shape(shape);
                self.needs_redraw = true;
            },
            other => {
                self.state = other;
            },
        }
        proof {
            assert(self@ =~~= spec_mouse_release(old(self)@, button, x, y));
        }
    }

    /// Returns an owned snapshot of the shape currently being drawn, for
    /// live preview, or `None` when no gesture is in progress.
    ///
    /// For the pen this copies the accumulated points; `freehand_points`
    /// offers the copy-free path whose cost does not grow with the stroke.
    pub fn get_provisional_shape(&self, current_x: i32, current_y: i32) -> (r: Option<Shape>)
        requires
            in_coord_range(current_x),
            in_coord_range(current_y),
            self@.wf(),
        ensures
            r.deep_view() == spec_provisional_shape(self@, current_x, current_y),
    {
        match &self.state {
            DrawingState::Drawing { tool, start_x, start_y, points } => {
                let r = match tool {
                    Tool::Pen => Shape::Freehand {
                        points: copy_points(points),
                        color: self.current_color,
                        thick: self.current_thickness,
                    },
                    Tool::Line => Shape::Line {
                        x1: *start_x,
                        y1: *start_y,
                        x2: current_x,
                        y2: current_y,
                        color: self.current_color,
                        thick: self.current_thickness,
                    },
                    Tool::Rect => {
                        let b = rect_bounds(*start_x, *start_y, current_x, current_y);
                        Shape::Rect {
                            x: b.0,
                            y: b.1,
                            w: b.2,
                            h: b.3,
                            color: self.current_color,
                            thick: self.current_thickness,
                        }
                    },
                    Tool::Ellipse => {
                        let b = ellipse_bounds(*start_x, *start_y, current_x, current_y);
                        Shape::Ellipse {
                            cx: b.0,
                            cy: b.1,
                            rx: b.2,
                            ry: b.3,
                            color: self.current_color,
                            thick: self.current_thickness,
                        }
                    },
                    Tool::Arrow => Shape::Arrow {
                        x1: *start_x,
                        y1: *start_y,
                        x2: current_x,
                        y2: current_y,
                        color: self.current_color,
                        thick: self.current_thickness,
                        arrow_length: self.arrow_length,
                        arrow_angle: self.arrow_angle,
                    },
                };
                Some(r)
            },
            _ => None,
        }
    }

    /// Borrows the accumulated freehand points when a pen gesture is in
    /// progress, without copying them.
    ///
    /// This is the preview path whose per-frame cost is independent of the
    /// stroke length: the renderer draws directly from the borrowed
    /// sequence, which is exactly the sequence the finalized shape will
    /// carry.
    pub fn freehand_points(&self) -> (r: Option<&Vec<(i32, i32)>>)
        ensures
            match r {
                Some(v) => self@.state matches DrawingStateV::Drawing { tool, points, .. }
                    && tool == Tool::Pen && v@ == points,
                None => !(self@.state matches DrawingStateV::Drawing { tool: Tool::Pen, .. }),
            },
    {
        match &self.state {
            DrawingState::Drawing { tool, points, .. } => {
                if *tool == Tool::Pen {
                    Some(points)
                } else {
                    None
                }
            },
            _ => None,
        }
    }
}

/// Toggling a board twice restores the overlay and the original color.
///
/// From the transparent overlay, switching to a board saves the current
/// color; requesting the same board again toggles back to the overlay,
/// restores exactly the saved color and empties the saved slot — for any
/// starting color and any previously saved slot.
pub proof fn lemma_board_toggle_restores_color(m: ModelV, board: BoardMode)
    requires
        m.canvas.active == BoardMode::Transparent,
        board != BoardMode::Transparent,
    ensures
        spec_switch_board(m, board).canvas.active == board,
        spec_switch_board(spec_switch_board(m, board), board).canvas.active
            == BoardMode::Transparent,
        spec_switch_board(spec_switch_board(m, board), board).color == m.color,
        spec_switch_board(spec_switch_board(m, board), board).previous_color is None,
{
}

/// A board-mode switch discards in-progress work and never persists it.
///
/// No frame history changes under any switch request — in particular, an
/// in-progress shape never appears in the target frame — and every
/// effective switch (one whose resolved target differs from the active
/// mode) force-resets the drawing state machine to idle.
pub proof fn lemma_switch_discards_in_progress(m: ModelV, requested: BoardMode)
    ensures
        forall|b: BoardMode| #[trigger] spec_switch_board(m, requested).canvas.frame(b)
            == m.canvas.frame(b),
        spec_switch_target(m.canvas.active, requested) != m.canvas.active ==> spec_switch_board(
            m,
            requested,
        ).state is Idle,
{
}

/// A left press while idle starts a gesture anchored at the press point.
///
/// The captured tool is the one derived from the live modifiers, and the
/// point sequence starts as exactly the anchor — for every press point.
pub proof fn lemma_left_press_starts_gesture(m: ModelV, x: i32, y: i32)
    requires
        m.state is Idle,
    ensures
        spec_mouse_press(m, MouseButton::Left, x, y).state matches DrawingStateV::Drawing {
            tool,
            start_x,
            start_y,
            points,
        } && tool == spec_current_tool(m.modifiers) && start_x == x && start_y == y && points
            == seq![(x, y)],
{
}

/// The thickness never leaves its bounds.
///
/// Key presses are the only events that change the pen thickness; under
/// any key press — repeated increases and decreases included — a thickness
/// within bounds saturates at the bounds and never leaves them.
pub proof fn lemma_thickness_clamped(m: ModelV, key: Key)
    requires
        MIN_THICKNESS <= m.thickness <= MAX_THICKNESS,
    ensures
        MIN_THICKNESS <= spec_key_press(m, key).thickness <= MAX_THICKNESS,
        key == Key::Plus || key == Key::Equals ==> spec_key_press(m, key).thickness == (
        if m.thickness < MAX_THICKNESS {
            (m.thickness + 1) as u32
        } else {
            MAX_THICKNESS
        }),
        key == Key::Minus || key == Key::Underscore ==> spec_key_press(m, key).thickness == (
        if m.thickness > MIN_THICKNESS {
            (m.thickness - 1) as u32
        } else {
            MIN_THICKNESS
        }),
{
}

/// The live preview and the persisted shape agree.
///
/// While a gesture is in progress, the provisional shape for a terminal
/// point is exactly the shape that a left release at that point appends to
/// the active frame — in particular, the freehand preview uses the same
/// point sequence as the eventually persisted stroke.
pub proof fn lemma_preview_matches_persisted(m: ModelV, x: i32, y: i32)
    requires
        m.state is Drawing,
    ensures
        spec_provisional_shape(m, x, y) matches Some(s) && spec_mouse_release(
            m,
            MouseButton::Left,
            x,
            y,
        ).canvas.active_frame() == m.canvas.active_frame().push(s),
        spec_mouse_release(m, MouseButton::Left, x, y).state is Idle,
{
}

} // verus!
