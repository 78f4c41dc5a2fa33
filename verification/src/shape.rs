//! Finished shapes produced by the session and consumed by the renderer.

use vstd::prelude::*;

use crate::color::Color;

verus! {

/// Weight of the text font.
#[derive(Clone, Copy, Debug, PartialEq, Eq, Structural)]
pub enum FontWeight {
    Normal,
    Bold,
}

/// Slant of the text font.
#[derive(Clone, Copy, Debug, PartialEq, Eq, Structural)]
pub enum FontStyle {
    Normal,
    Italic,
}

/// Font configuration for text shapes: family name, weight and slant.
#[derive(Debug, PartialEq)]
pub struct FontDescriptor {
    pub family: String,
    pub weight: FontWeight,
    pub style: FontStyle,
}

/// Abstract value of a `FontDescriptor`.
#[verifier::ext_equal]
pub struct FontDescriptorV {
    pub family: Seq<char>,
    pub weight: FontWeight,
    pub style: FontStyle,
}

impl View for FontDescriptor {
    type V = FontDescriptorV;

    open spec fn view(&self) -> FontDescriptorV {
        FontDescriptorV { family: self.family@, weight: self.weight, style: self.style }
    }
}

impl FontDescriptor {
    /// Builds a font descriptor from its parts.
    pub fn new(family: String, weight: FontWeight, style: FontStyle) -> (f: FontDescriptor)
        ensures
            f@ == (FontDescriptorV { family: family@, weight: weight, style: style }),
    {
        FontDescriptor { family: family, weight: weight, style: style }
    }
}

impl Clone for FontDescriptor {
    fn clone(&self) -> (res: Self)
        ensures
            res@ == self@,
    {
        FontDescriptor { family: self.family.clone(), weight: self.weight, style: self.style }
    }
}

/// A finished shape, as persisted in a board frame.
///
/// Degenerate geometry (zero-size rectangles and ellipses, empty freehand
/// strokes, empty text) is accepted and preserved, never rejected.
#[derive(Debug, PartialEq)]
pub enum Shape {
    /// A freehand stroke through an ordered point sequence.
    Freehand { points: Vec<(i32, i32)>, color: Color, thick: u32 },
    /// A straight segment between two endpoints.
    Line { x1: i32, y1: i32, x2: i32, y2: i32, color: Color, thick: u32 },
    /// An axis-aligned rectangle in top-left/width/height form, `w, h >= 0`.
    Rect { x: i32, y: i32, w: i32, h: i32, color: Color, thick: u32 },
    /// An axis-aligned ellipse in center/radii form, `rx, ry >= 0`.
    Ellipse { cx: i32, cy: i32, rx: i32, ry: i32, color: Color, thick: u32 },
    /// A segment with an arrowhead at its second endpoint; the head wings
    /// are later computed by the renderer from the configured length and
    /// half-angle.
    Arrow {
        x1: i32,
        y1: i32,
        x2: i32,
        y2: i32,
        color: Color,
        thick: u32,
        arrow_length: u32,
        arrow_angle: u32,
    },
    /// A text block placed at a point; the buffer may contain newlines.
    Text {
        x: i32,
        y: i32,
        text: Vec<char>,
        color: Color,
        size: u32,
        font: FontDescriptor,
        background_enabled: bool,
    },
}

/// Abstract value of a `Shape`, with mathematical sequences in place of the
/// executable containers.
#[verifier::ext_equal]
pub enum ShapeV {
    Freehand { points: Seq<(i32, i32)>, color: Color, thick: u32 },
    Line { x1: i32, y1: i32, x2: i32, y2: i32, color: Color, thick: u32 },
    Rect { x: i32, y: i32, w: i32, h: i32, color: Color, thick: u32 },
    Ellipse { cx: i32, cy: i32, rx: i32, ry: i32, color: Color, thick: u32 },
    Arrow {
        x1: i32,
        y1: i32,
        x2: i32,
        y2: i32,
        color: Color,
        thick: u32,
        arrow_length: u32,
        arrow_angle: u32,
    },
    Text {
        x: i32,
        y: i32,
        text: Seq<char>,
        color: Color,
        size: u32,
        font: FontDescriptorV,
        background_enabled: bool,
    },
}

impl View for Shape {
    type V = ShapeV;

    open spec fn view(&self) -> ShapeV {
        match self {
            Shape::Freehand { points, color, thick } => ShapeV::Freehand {
                points: points@,
                color: *color,
                thick: *thick,
            },
            Shape::Line { x1, y1, x2, y2, color, thick } => ShapeV::Line {
                x1: *x1,
                y1: *y1,
                x2: *x2,
                y2: *y2,
                color: *color,
                thick: *thick,
            },
            Shape::Rect { x, y, w, h, color, thick } => ShapeV::Rect {
                x: *x,
                y: *y,
                w: *w,
                h: *h,
                color: *color,
                thick: *thick,
            },
            Shape::Ellipse { cx, cy, rx, ry, color, thick } => ShapeV::Ellipse {
                cx: *cx,
                cy: *cy,
                rx: *rx,
                ry: *ry,
                color: *color,
                thick: *thick,
            },
            Shape::Arrow { x1, y1, x2, y2, color, thick, arrow_length, arrow_angle } => {
                ShapeV::Arrow {
                    x1: *x1,
                    y1: *y1,
                    x2: *x2,
                    y2: *y2,
                    color: *color,
                    thick: *thick,
                    arrow_length: *arrow_length,
                    arrow_angle: *arrow_angle,
                }
            },
            Shape::Text { x, y, text, color, size, font, background_enabled } => ShapeV::Text {
                x: *x,
                y: *y,
                text: text@,
                color: *color,
                size: *size,
                font: font@,
                background_enabled: *background_enabled,
            },
        }
    }
}

impl DeepView for Shape {
    type V = ShapeV;

    open spec fn deep_view(&self) -> ShapeV {
        self.view()
    }
}

} // verus!
