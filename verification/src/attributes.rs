//! Creation-time configuration for top-level windows and popups, with
//! the closed vocabularies (theme, stacking level, system buttons,
//! compass directions, constraint hints) those configurations use.

use vstd::prelude::*;

use crate::geometry::{LogicalPosition, LogicalSize, Position, Size};

verus! {

/// The theme variant to use. `None` at the attribute level means
/// "follow the system".
#[derive(Debug, Clone, Copy, PartialEq, Eq, Structural)]
pub enum Theme {
    /// Use the light variant.
    Light,
    /// Use the dark variant.
    Dark,
}

/// A window level groups windows with respect to their z-position.
///
/// The relative ordering between windows in different window levels is
/// fixed; the z-order within one level may change dynamically on user
/// interaction.
#[derive(Debug, Clone, Copy, PartialEq, Eq, Structural)]
pub enum WindowLevel {
    /// The window is always below normal windows.
    AlwaysOnBottom,
    /// The default level.
    Normal,
    /// The window is always on top of normal windows.
    AlwaysOnTop,
}

/// Bit for the close button in a [`WindowButtons`] set.
pub const BUTTON_CLOSE: u32 = 1;

/// Bit for the minimize button in a [`WindowButtons`] set.
pub const BUTTON_MINIMIZE: u32 = 2;

/// Bit for the maximize button in a [`WindowButtons`] set.
pub const BUTTON_MAXIMIZE: u32 = 4;

/// The set of system buttons a window offers, as a bitset over the
/// `BUTTON_*` bits.
#[derive(Debug, Clone, Copy, PartialEq, Eq, Hash, Structural)]
pub struct WindowButtons {
    pub bits: u32,
}

impl WindowButtons {
    /// The set with every button enabled.
    pub fn all() -> (r: Self)
        ensures
            r.bits == BUTTON_CLOSE | BUTTON_MINIMIZE | BUTTON_MAXIMIZE,
    {
        WindowButtons { bits: BUTTON_CLOSE | BUTTON_MINIMIZE | BUTTON_MAXIMIZE }
    }

    /// The empty set.
    pub fn empty() -> (r: Self)
        ensures
            r.bits == 0,
    {
        WindowButtons { bits: 0 }
    }

    /// Whether every button of `other` is also in this set.
    pub fn contains(&self, other: WindowButtons) -> (r: bool)
        ensures
            r == (self.bits & other.bits == other.bits),
    {
        self.bits & other.bits == other.bits
    }
}

/// A compass direction naming an edge or corner of a rectangle, with
/// `Center` for no edge at all. Used both for the anchor rectangle and
/// for the popup surface itself.
#[derive(Debug, Clone, Copy, PartialEq, Eq, Hash, Structural)]
pub enum AnchorDirection {
    Center,
    North,
    Northeast,
    East,
    Southeast,
    South,
    Southwest,
    West,
    Northwest,
}

/// Hint bit: the compositor may flip the popup on the X axis.
pub const HINT_FLIP_X: u32 = 1;

/// Hint bit: the compositor may flip the popup on the Y axis.
pub const HINT_FLIP_Y: u32 = 2;

/// Hint bit: the compositor may slide the popup on the X axis.
pub const HINT_SLIDE_X: u32 = 4;

/// Hint bit: the compositor may slide the popup on the Y axis.
pub const HINT_SLIDE_Y: u32 = 8;

/// Hint bit: the compositor may resize the popup on the X axis.
pub const HINT_RESIZE_X: u32 = 16;

/// Hint bit: the compositor may resize the popup on the Y axis.
pub const HINT_RESIZE_Y: u32 = 32;

/// A set of independent constraint-adjustment hints, as a bitset over
/// the `HINT_*` bits. An empty set permits the compositor no
/// adjustment at all.
#[derive(Debug, Clone, Copy, PartialEq, Eq, Hash, Structural)]
pub struct AnchorHints {
    pub bits: u32,
}

impl AnchorHints {
    /// The empty set: no adjustment is permitted.
    pub fn none() -> (r: Self)
        ensures
            r.bits == 0,
    {
        AnchorHints { bits: 0 }
    }

    /// The set holding exactly the given `HINT_*` bits.
    pub fn from_bits(bits: u32) -> (r: Self)
        ensures
            r.bits == bits,
    {
        AnchorHints { bits }
    }

    /// Whether every hint of `other` is also in this set.
    pub fn contains(&self, other: AnchorHints) -> (r: bool)
        ensures
            r == (self.bits & other.bits == other.bits),
    {
        self.bits & other.bits == other.bits
    }

    /// The union of this set and `other`.
    pub fn union(self, other: AnchorHints) -> (r: Self)
        ensures
            r.bits == self.bits | other.bits,
    {
        AnchorHints { bits: self.bits | other.bits }
    }
}

/// Attributes to use when creating a top-level window.
#[derive(Debug, Clone)]
pub struct WindowAttributes {
    pub inner_size: Size,
    pub min_inner_size: Option<Size>,
    pub max_inner_size: Option<Size>,
    pub position: Option<Position>,
    pub resizable: bool,
    pub enabled_buttons: WindowButtons,
    pub title: String,
    pub maximized: bool,
    pub visible: bool,
    pub transparent: bool,
    pub blur: bool,
    pub decorations: bool,
    pub theme: Option<Theme>,
    pub resize_increments: Option<Size>,
    pub content_protected: bool,
    pub window_level: WindowLevel,
    pub active: bool,
}

impl Default for WindowAttributes {
    fn default() -> (r: Self)
        ensures
            (r.inner_size == Size::Logical(LogicalSize { width: 800, height: 600 })),
            r.min_inner_size is None,
            r.max_inner_size is None,
            r.position is None,
            r.resizable,
            r.enabled_buttons.bits == BUTTON_CLOSE | BUTTON_MINIMIZE | BUTTON_MAXIMIZE,
            r.title@ == "Winit window"@,
            !r.maximized,
            !r.visible,
            r.transparent,
            !r.blur,
            r.decorations,
            r.theme is None,
            r.resize_increments is None,
            !r.content_protected,
            r.window_level == WindowLevel::Normal,
            r.active,
    {
        WindowAttributes {
            inner_size: Size::Logical(LogicalSize { width: 800, height: 600 }),
            min_inner_size: None,
            max_inner_size: None,
            position: None,
            resizable: true,
            enabled_buttons: WindowButtons::all(),
            title: "Winit window".to_string(),
            maximized: false,
            visible: false,
            transparent: true,
            blur: false,
            decorations: true,
            theme: None,
            resize_increments: None,
            content_protected: false,
            window_level: WindowLevel::Normal,
            active: true,
        }
    }
}

impl WindowAttributes {
    /// The requested initial inner size.
    pub fn inner_size(&self) -> (r: Size)
        ensures
            r == self.inner_size,
    {
        self.inner_size
    }

    /// Requests the window to be of specific dimensions.
    pub fn with_inner_size(self, inner_size: Size) -> (r: Self)
        ensures
            r == (Self { inner_size, ..self }),
    {
        Self { inner_size, ..self }
    }

    /// The minimum dimensions the window may take, if constrained.
    pub fn min_inner_size(&self) -> (r: Option<Size>)
        ensures
            r == self.min_inner_size,
    {
        self.min_inner_size
    }

    /// Sets the minimum dimensions a window can have.
    ///
    /// If this is not set, the window has no minimum dimensions (aside
    /// from reserved).
    pub fn with_min_inner_size(self, min_size: Size) -> (r: Self)
        ensures
            r == (Self { min_inner_size: Some(min_size), ..self }),
    {
        Self { min_inner_size: Some(min_size), ..self }
    }

    /// The maximum dimensions the window may take, if constrained.
    pub fn max_inner_size(&self) -> (r: Option<Size>)
        ensures
            r == self.max_inner_size,
    {
        self.max_inner_size
    }

    /// Sets the maximum dimensions a window can have.
    ///
    /// If this is not set, the window has no maximum dimensions (aside
    /// from reserved).
    pub fn with_max_inner_size(self, max_size: Size) -> (r: Self)
        ensures
            r == (Self { max_inner_size: Some(max_size), ..self }),
    {
        Self { max_inner_size: Some(max_size), ..self }
    }

    /// The desired initial position, if one was requested.
    pub fn position(&self) -> (r: Option<Position>)
        ensures
            r == self.position,
    {
        self.position
    }

    /// Sets a desired initial position for the window.
    ///
    /// If this is not set, some platform-specific position is chosen.
    pub fn with_position(self, position: Position) -> (r: Self)
        ensures
            r == (Self { position: Some(position), ..self }),
    {
        Self { position: Some(position), ..self }
    }

    /// The current title of the window.
    pub fn title(&self) -> (r: &str)
        ensures
            r@ == self.title@,
    {
        self.title.as_str()
    }

    /// Sets the initial title of the window.
    pub fn with_title(self, title: String) -> (r: Self)
        ensures
            r == (Self { title, ..self }),
    {
        Self { title, ..self }
    }

    /// Whether the window is requested maximized.
    pub fn maximized(&self) -> (r: bool)
        ensures
            r == self.maximized,
    {
        self.maximized
    }

    /// Requests that the window is maximized upon creation.
    ///
    /// The default is `false`.
    pub fn with_maximized(self, maximized: bool) -> (r: Self)
        ensures
            r == (Self { maximized, ..self }),
    {
        Self { maximized, ..self }
    }

    /// Whether the window starts visible.
    pub fn visible(&self) -> (r: bool)
        ensures
            r == self.visible,
    {
        self.visible
    }

    /// Sets whether the window is initially visible or hidden.
    pub fn with_visible(self, visible: bool) -> (r: Self)
        ensures
            r == (Self { visible, ..self }),
    {
        Self { visible, ..self }
    }

    /// Whether the window can be resized by the user.
    pub fn resizable(&self) -> (r: bool)
        ensures
            r == self.resizable,
    {
        self.resizable
    }

    /// Sets whether the window is resizable or not.
    ///
    /// The default is `true`.
    pub fn with_resizable(self, resizable: bool) -> (r: Self)
        ensures
            r == (Self { resizable, ..self }),
    {
        Self { resizable, ..self }
    }

    /// Whether the window's background is requested transparent.
    pub fn transparent(&self) -> (r: bool)
        ensures
            r == self.transparent,
    {
        self.transparent
    }

    /// Sets whether the background of the window should be transparent.
    ///
    /// If this is `true`, writing colors with alpha values different
    /// than one produces a transparent window. On some platforms this is
    /// more of a hint for the system and an alpha buffer may remain.
    pub fn with_transparent(self, transparent: bool) -> (r: Self)
        ensures
            r == (Self { transparent, ..self }),
    {
        Self { transparent, ..self }
    }

    /// Whether the window's background is requested blurred.
    pub fn blur(&self) -> (r: bool)
        ensures
            r == self.blur,
    {
        self.blur
    }

    /// Sets whether the background of the window should be blurred by
    /// the system.
    ///
    /// The default is `false`.
    pub fn with_blur(self, blur: bool) -> (r: Self)
        ensures
            r == (Self { blur, ..self }),
    {
        Self { blur, ..self }
    }

    /// Whether the window is requested with server decorations.
    pub fn decorations(&self) -> (r: bool)
        ensures
            r == self.decorations,
    {
        self.decorations
    }

    /// Sets whether the window should have a border, a title bar, etc.
    ///
    /// The default is `true`.
    pub fn with_decorations(self, decorations: bool) -> (r: Self)
        ensures
            r == (Self { decorations, ..self }),
    {
        Self { decorations, ..self }
    }

    /// The requested stacking level.
    pub fn window_level(&self) -> (r: WindowLevel)
        ensures
            r == self.window_level,
    {
        self.window_level
    }

    /// Sets the window level.
    ///
    /// This is just a hint to the host environment, which may ignore it.
    ///
    /// The default is [`WindowLevel::Normal`].
    pub fn with_window_level(self, level: WindowLevel) -> (r: Self)
        ensures
            r == (Self { window_level: level, ..self }),
    {
        Self { window_level: level, ..self }
    }

    /// The requested theme override, if any.
    pub fn theme(&self) -> (r: Option<Theme>)
        ensures
            r == self.theme,
    {
        self.theme
    }

    /// Sets a specific theme for the window.
    ///
    /// If `None` is provided, the window uses the system theme.
    ///
    /// The default is `None`.
    pub fn with_theme(self, theme: Option<Theme>) -> (r: Self)
        ensures
            r == (Self { theme, ..self }),
    {
        Self { theme, ..self }
    }
}

/// Attributes to use when creating a popup, positioned relative to a
/// parent surface.
#[derive(Debug, Clone, Copy)]
pub struct PopupAttributes {
    /// The desired size of the popup.
    pub inner_size: Size,
    /// The rectangle, relative to the parent's geometry, the popup is
    /// anchored to: top-left corner and size.
    pub anchor_rect: (Position, Size),
    /// Which edge or corner of the anchor rectangle to align to.
    pub rect_anchor: AnchorDirection,
    /// Which edge or corner of the popup itself to align (its gravity).
    pub surface_anchor: AnchorDirection,
    /// A logical offset applied after alignment.
    pub offset: Position,
    /// The adjustments the compositor may apply to keep the popup
    /// on-screen.
    pub anchor_hints: AnchorHints,
}

impl Default for PopupAttributes {
    fn default() -> (r: Self)
        ensures
            (r.inner_size == Size::Logical(LogicalSize { width: 100, height: 75 })),
            (r.anchor_rect == (
                Position::Logical(LogicalPosition { x: 0, y: 0 }),
                Size::Logical(LogicalSize { width: 100, height: 100 }),
            )),
            r.rect_anchor == AnchorDirection::Center,
            r.surface_anchor == AnchorDirection::Center,
            (r.offset == Position::Logical(LogicalPosition { x: 0, y: 0 })),
            r.anchor_hints.bits == 0,
    {
        PopupAttributes {
            inner_size: Size::Logical(LogicalSize { width: 100, height: 75 }),
            anchor_rect: (
                Position::Logical(LogicalPosition { x: 0, y: 0 }),
                Size::Logical(LogicalSize { width: 100, height: 100 }),
            ),
            rect_anchor: AnchorDirection::Center,
            surface_anchor: AnchorDirection::Center,
            offset: Position::Logical(LogicalPosition { x: 0, y: 0 }),
            anchor_hints: AnchorHints { bits: 0 },
        }
    }
}

impl PopupAttributes {
    /// The desired size of the popup.
    pub fn inner_size(&self) -> (r: Size)
        ensures
            r == self.inner_size,
    {
        self.inner_size
    }

    /// Sets the desired size of the popup.
    pub fn with_inner_size(self, size: Size) -> (r: Self)
        ensures
            r == (Self { inner_size: size, ..self }),
    {
        Self { inner_size: size, ..self }
    }

    /// The anchor rectangle, relative to the parent.
    pub fn anchor_rect(&self) -> (r: (Position, Size))
        ensures
            r == self.anchor_rect,
    {
        self.anchor_rect
    }

    /// Sets the anchor rectangle, relative to the parent.
    pub fn with_anchor_rect(self, top_left: Position, size: Size) -> (r: Self)
        ensures
            r == (Self { anchor_rect: (top_left, size), ..self }),
    {
        Self { anchor_rect: (top_left, size), ..self }
    }

    /// Which edge or corner of the anchor rectangle the popup aligns to.
    pub fn rect_anchor(&self) -> (r: AnchorDirection)
        ensures
            r == self.rect_anchor,
    {
        self.rect_anchor
    }

    /// Sets which edge or corner of the anchor rectangle to align to.
    pub fn with_rect_anchor(self, direction: AnchorDirection) -> (r: Self)
        ensures
            r == (Self { rect_anchor: direction, ..self }),
    {
        Self { rect_anchor: direction, ..self }
    }

    /// Which edge or corner of the popup itself aligns to the anchor.
    pub fn surface_anchor(&self) -> (r: AnchorDirection)
        ensures
            r == self.surface_anchor,
    {
        self.surface_anchor
    }

    /// Sets which edge or corner of the popup itself to align.
    pub fn with_surface_anchor(self, direction: AnchorDirection) -> (r: Self)
        ensures
            r == (Self { surface_anchor: direction, ..self }),
    {
        Self { surface_anchor: direction, ..self }
    }

    /// The logical offset applied after alignment.
    pub fn offset(&self) -> (r: Position)
        ensures
            r == self.offset,
    {
        self.offset
    }

    /// Sets the logical offset applied after alignment.
    pub fn with_offset(self, offset: Position) -> (r: Self)
        ensures
            r == (Self { offset, ..self }),
    {
        Self { offset, ..self }
    }

    /// The adjustments the compositor may apply to keep the popup
    /// on-screen.
    pub fn anchor_hints(&self) -> (r: AnchorHints)
        ensures
            r == self.anchor_hints,
    {
        self.anchor_hints
    }

    /// Sets the adjustments the compositor may apply.
    pub fn with_anchor_hints(self, hints: AnchorHints) -> (r: Self)
        ensures
            r == (Self { anchor_hints: hints, ..self }),
    {
        Self { anchor_hints: hints, ..self }
    }
}

} // verus!
