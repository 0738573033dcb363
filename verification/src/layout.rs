//! How a widget lays out its children: direction, padding, alignment, and the size it
//! asks for along each axis.

use vstd::prelude::*;

verus! {

/// The direction in which children follow each other.
#[derive(Debug, Clone, Copy, PartialEq, Eq, Structural)]
pub enum Direction {
    LeftToRight,
    TopToBottom,
}

impl Default for Direction {
    fn default() -> (r: Direction)
        ensures
            r == Direction::LeftToRight,
    {
        Direction::LeftToRight
    }
}

/// Space between the border of a widget and its children.
#[derive(Debug, Clone, Copy, PartialEq, Eq, Structural)]
pub struct Padding {
    pub left: u16,
    pub right: u16,
    pub top: u16,
    pub bottom: u16,
}

impl Default for Padding {
    fn default() -> (r: Padding)
        ensures
            r == (Padding { left: 0, right: 0, top: 0, bottom: 0 }),
    {
        Padding { left: 0, right: 0, top: 0, bottom: 0 }
    }
}

impl Padding {
    /// The same space on all four sides.
    pub fn all(value: u16) -> (r: Padding)
        ensures
            r == (Padding { left: value, right: value, top: value, bottom: value }),
    {
        Padding { left: value, right: value, top: value, bottom: value }
    }
}

/// Where children stand along one axis.
#[derive(Debug, Clone, Copy, PartialEq, Eq, Structural)]
pub enum Alignment {
    Start,
    Center,
    End,
}

impl Default for Alignment {
    fn default() -> (r: Alignment)
        ensures
            r == Alignment::Start,
    {
        Alignment::Start
    }
}

/// Where children stand along both axes.
#[derive(Debug, Clone, Copy, PartialEq, Eq, Structural)]
pub struct ChildAlignment {
    pub horizontal: Alignment,
    pub vertical: Alignment,
}

impl Default for ChildAlignment {
    fn default() -> (r: ChildAlignment)
        ensures
            r == (ChildAlignment { horizontal: Alignment::Start, vertical: Alignment::Start }),
    {
        ChildAlignment { horizontal: Alignment::Start, vertical: Alignment::Start }
    }
}

/// Whether a widget takes the room its content needs or the room that is left.
#[derive(Debug, Clone, Copy, PartialEq, Eq, Structural)]
pub enum SizeKind {
    Fit,
    Grow,
}

/// The size a widget asks for along one axis.
#[derive(Debug, Clone, Copy, PartialEq, Eq, Structural)]
pub struct SizeAxis {
    pub min: u16,
    pub max: u16,
    pub kind: SizeKind,
}

impl SizeAxis {
    /// As much room as is left, without bounds.
    pub fn fill() -> (r: SizeAxis)
        ensures
            r == (SizeAxis { min: 0, max: u16::MAX, kind: SizeKind::Grow }),
    {
        SizeAxis { min: 0, max: u16::MAX, kind: SizeKind::Grow }
    }

    /// As much room as the content needs, without bounds.
    pub fn fit() -> (r: SizeAxis)
        ensures
            r == (SizeAxis { min: 0, max: u16::MAX, kind: SizeKind::Fit }),
    {
        SizeAxis { min: 0, max: u16::MAX, kind: SizeKind::Fit }
    }

    /// Exactly `value`.
    pub fn fixed(value: u16) -> (r: SizeAxis)
        ensures
            r == (SizeAxis { min: value, max: value, kind: SizeKind::Fit }),
    {
        SizeAxis { min: value, max: value, kind: SizeKind::Fit }
    }
}

impl Default for SizeAxis {
    fn default() -> (r: SizeAxis)
        ensures
            r == (SizeAxis { min: 0, max: u16::MAX, kind: SizeKind::Fit }),
    {
        SizeAxis::fit()
    }
}

/// The size a widget asks for.
#[derive(Debug, Clone, Copy, PartialEq, Eq, Structural)]
pub struct Size {
    pub width: SizeAxis,
    pub height: SizeAxis,
}

impl Default for Size {
    fn default() -> (r: Size)
        ensures
            r == (Size {
                width: SizeAxis { min: 0, max: u16::MAX, kind: SizeKind::Fit },
                height: SizeAxis { min: 0, max: u16::MAX, kind: SizeKind::Fit },
            }),
    {
        Size { width: SizeAxis::fit(), height: SizeAxis::fit() }
    }
}

impl Size {
    /// As much room as is left, along both axes.
    pub fn fill() -> (r: Size)
        ensures
            r.width == (SizeAxis { min: 0, max: u16::MAX, kind: SizeKind::Grow }),
            r.height == r.width,
    {
        Size { width: SizeAxis::fill(), height: SizeAxis::fill() }
    }

    /// As much room as the content needs, along both axes.
    pub fn fit() -> (r: Size)
        ensures
            r.width == (SizeAxis { min: 0, max: u16::MAX, kind: SizeKind::Fit }),
            r.height == r.width,
    {
        Size { width: SizeAxis::fit(), height: SizeAxis::fit() }
    }

    /// Exactly `width` by `height`.
    pub fn fixed(width: u16, height: u16) -> (r: Size)
        ensures
            r.width == (SizeAxis { min: width, max: width, kind: SizeKind::Fit }),
            r.height == (SizeAxis { min: height, max: height, kind: SizeKind::Fit }),
    {
        Size { width: SizeAxis::fixed(width), height: SizeAxis::fixed(height) }
    }

    /// The size that the widget gets before sizes are negotiated: its least width and
    /// height.
    pub fn naive_size(&self) -> (r: (u16, u16))
        ensures
            r == (self.width.min, self.height.min),
    {
        (self.width.min, self.height.min)
    }
}

/// What a widget looks like.
#[derive(Debug, Clone, Copy, PartialEq, Eq, Structural)]
pub enum WidgetClass {
    Surface,
    Primary,
    Secondary,
    Tertiary,
}

impl Default for WidgetClass {
    fn default() -> (r: WidgetClass)
        ensures
            r == WidgetClass::Surface,
    {
        WidgetClass::Surface
    }
}

impl WidgetClass {
    /// Red, green and blue of the colour that fills a widget of the class.
    pub fn get_color(&self) -> (r: (u8, u8, u8))
        ensures
            r == match *self {
                WidgetClass::Surface => (0xF0u8, 0xF0u8, 0xF0u8),
                WidgetClass::Primary => (0x00u8, 0x80u8, 0xFFu8),
                WidgetClass::Secondary => (0xFFu8, 0xA5u8, 0x00u8),
                WidgetClass::Tertiary => (0x90u8, 0x90u8, 0x90u8),
            },
    {
        match self {
            WidgetClass::Surface => (0xF0, 0xF0, 0xF0),
            WidgetClass::Primary => (0x00, 0x80, 0xFF),
            WidgetClass::Secondary => (0xFF, 0xA5, 0x00),
            WidgetClass::Tertiary => (0x90, 0x90, 0x90),
        }
    }
}

/// What part a text plays.
#[derive(Debug, Clone, Copy, PartialEq, Eq, Structural)]
pub enum TextRole {
    Normal,
    Title,
    Subtitle,
    Caption,
}

impl Default for TextRole {
    fn default() -> (r: TextRole)
        ensures
            r == TextRole::Normal,
    {
        TextRole::Normal
    }
}

/// What happened to a widget.
#[derive(Debug, Clone, Copy, PartialEq, Eq, Structural)]
pub enum EventKind {
    Click,
    Hover,
}

/// Something that happened to the widget that sends messages under `id`.
#[derive(Debug, Clone, Copy, PartialEq, Eq, Structural)]
pub struct Event {
    pub id: u16,
    pub kind: EventKind,
}

/// What the renderer needs to know of a widget.
#[derive(Debug, Clone, Copy, PartialEq, Eq, Structural)]
pub struct WidgetRenderData {
    pub class: WidgetClass,
}

} // verus!
