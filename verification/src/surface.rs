//! Live per-surface state and the configure/acknowledge handshake.
//!
//! Every surface negotiates its real size with the compositor
//! asynchronously: it is created with a provisional size, and each
//! `configure` event from the server carries the size that actually
//! holds. The first configure moves the surface from uninitialized to
//! negotiated and synthesizes the application's one-time lifecycle
//! callbacks in a fixed order; every later configure only reports the
//! new size.

use vstd::prelude::*;

use crate::attributes::{PopupAttributes, Theme, WindowAttributes};
use crate::geometry::{LogicalSize, PhysicalSize, Size, SCALE_ONE};
use crate::WindowId;

verus! {

/// A configure event's negotiated size, as the compositor sent it.
#[derive(Debug, Clone, Copy, PartialEq, Eq, Structural)]
pub struct Configure {
    pub width: u32,
    pub height: u32,
}

/// The role a surface was created with. A surface is exactly one role
/// for its whole lifetime.
#[derive(Debug, Clone, Copy, PartialEq, Eq, Structural)]
pub enum Role {
    Toplevel,
    Popup,
}

/// One lifecycle notification synthesized for the application, in the
/// order the notifications must be delivered.
#[derive(Debug, Clone, Copy, PartialEq, Eq, Structural)]
pub enum SurfaceEvent {
    /// The surface finished its first configure and now exists for the
    /// application.
    Created { window: WindowId },
    /// The surface's scale factor, in 1/120ths.
    ScaleFactorChanged { window: WindowId, scale_factor: u32 },
    /// The surface's new size in physical pixels.
    Resized { window: WindowId, size: PhysicalSize },
    /// The surface must be repainted.
    RedrawRequested { window: WindowId },
}

/// Live state of a top-level window.
#[derive(Debug, Clone)]
pub struct Toplevel {
    /// The surface's stable identity.
    pub id: WindowId,
    /// The last received configure; absent until the first handshake
    /// completes.
    pub last_configure: Option<Configure>,
    /// The scale factor of the window, in 1/120ths.
    pub scale_factor: u32,
    /// The inner size of the window in logical pixels.
    pub size: LogicalSize,
    /// Initial window size provided by the user. Consumed on the first
    /// configure.
    pub initial_size: Option<Size>,
    /// The window's title.
    pub title: String,
    /// The theme override, if any.
    pub theme: Option<Theme>,
    /// Whether a redraw was requested and not yet taken.
    pub redraw: bool,
}

/// Live state of a popup.
#[derive(Debug, Clone)]
pub struct Popup {
    /// The surface's stable identity.
    pub id: WindowId,
    /// The last received configure; absent until the first handshake
    /// completes.
    pub last_configure: Option<Configure>,
    /// The scale factor of the window, in 1/120ths.
    pub scale_factor: u32,
    /// The inner size of the window in logical pixels.
    pub size: LogicalSize,
    /// Initial window size provided by the user. Consumed on the first
    /// configure.
    pub initial_size: Option<Size>,
    /// Whether the window is transparent.
    pub transparent: bool,
    /// Whether a redraw was requested and not yet taken.
    pub redraw: bool,
}

/// The lifecycle notifications one configure event synthesizes, in
/// delivery order. The first configure signals creation and the current
/// scale before any size, then the size, then the one-time redraw
/// obligation; a repeat configure signals only the size.
pub open spec fn spec_configure_events(
    id: WindowId,
    first: bool,
    scale: u32,
    width: u32,
    height: u32,
) -> Seq<SurfaceEvent> {
    let resized = SurfaceEvent::Resized {
        window: id,
        size: LogicalSize { width, height }.spec_to_physical(scale),
    };
    if first {
        seq![
            SurfaceEvent::Created { window: id },
            SurfaceEvent::ScaleFactorChanged { window: id, scale_factor: scale },
            resized,
            SurfaceEvent::RedrawRequested { window: id },
        ]
    } else {
        seq![resized]
    }
}

impl Toplevel {
    /// A valid scale factor is at least one 1/120th: the protocol never
    /// reports a zero scale.
    pub open spec fn wf(&self) -> bool {
        self.scale_factor >= 1
    }

    /// Whether the first configure was received.
    pub open spec fn spec_configured(&self) -> bool {
        self.last_configure is Some
    }

    /// The state after one configure event: the compositor-supplied size
    /// is adopted as the logical size, the provisional size is consumed,
    /// and the surface is (or stays) negotiated.
    pub open spec fn spec_after_configure(self, width: u32, height: u32) -> Toplevel {
        Toplevel {
            last_configure: Some(Configure { width, height }),
            size: LogicalSize { width, height },
            initial_size: None,
            ..self
        }
    }

    /// The live state a freshly created top-level window starts in:
    /// unconfigured, at unit scale, with the requested size held both as
    /// current logical size and as the provisional size the first
    /// configure consumes.
    pub open spec fn spec_new(id: WindowId, attributes: WindowAttributes) -> Toplevel {
        Toplevel {
            id,
            last_configure: None,
            scale_factor: SCALE_ONE,
            size: attributes.inner_size.spec_to_logical(SCALE_ONE),
            initial_size: Some(attributes.inner_size),
            title: attributes.title,
            theme: attributes.theme,
            redraw: false,
        }
    }

    /// Builds the live state for a freshly created top-level window.
    /// Consumes the attributes, which are not retained verbatim
    /// afterwards: their fields live on in the negotiated state.
    pub fn from_attributes(id: WindowId, attributes: WindowAttributes) -> (t: Toplevel)
        ensures
            t == Toplevel::spec_new(id, attributes),
            t.wf(),
    {
        let size = attributes.inner_size;
        Toplevel {
            id,
            last_configure: None,
            scale_factor: SCALE_ONE,
            size: size.to_logical(SCALE_ONE),
            initial_size: Some(size),
            title: attributes.title,
            theme: attributes.theme,
            redraw: false,
        }
    }

    /// Whether the first configure was received.
    pub fn configured(&self) -> (r: bool)
        ensures
            r == self.spec_configured(),
    {
        self.last_configure.is_some()
    }

    /// Gets the current title of the window.
    pub fn title(&self) -> (r: &str)
        ensures
            r@ == self.title@,
    {
        self.title.as_str()
    }

    /// Replaces the window's title.
    pub fn set_title(&mut self, title: String)
        ensures
            *final(self) == (Toplevel { title, ..*old(self) }),
    {
        self.title = title;
    }

    /// The theme override, if any.
    pub fn theme(&self) -> (r: Option<Theme>)
        ensures
            r == self.theme,
    {
        self.theme
    }

    /// Replaces the theme override.
    pub fn set_theme(&mut self, theme: Option<Theme>)
        ensures
            *final(self) == (Toplevel { theme, ..*old(self) }),
    {
        self.theme = theme;
    }
}

impl Popup {
    /// A valid scale factor is at least one 1/120th: the protocol never
    /// reports a zero scale.
    pub open spec fn wf(&self) -> bool {
        self.scale_factor >= 1
    }

    /// Whether the first configure was received.
    pub open spec fn spec_configured(&self) -> bool {
        self.last_configure is Some
    }

    /// The state after one configure event: the compositor-supplied size
    /// is adopted as the logical size, the provisional size is consumed,
    /// and the surface is (or stays) negotiated.
    pub open spec fn spec_after_configure(self, width: u32, height: u32) -> Popup {
        Popup {
            last_configure: Some(Configure { width, height }),
            size: LogicalSize { width, height },
            initial_size: None,
            ..self
        }
    }

    /// The live state a freshly created popup starts in: unconfigured,
    /// at unit scale, with the requested size held both as current
    /// logical size and as the provisional size the first configure
    /// consumes.
    pub open spec fn spec_new(id: WindowId, attributes: PopupAttributes) -> Popup {
        Popup {
            id,
            last_configure: None,
            scale_factor: SCALE_ONE,
            size: attributes.inner_size.spec_to_logical(SCALE_ONE),
            initial_size: Some(attributes.inner_size),
            transparent: true,
            redraw: false,
        }
    }

    /// Builds the live state for a freshly created popup.
    pub fn from_attributes(id: WindowId, attributes: &PopupAttributes) -> (p: Popup)
        ensures
            p == Popup::spec_new(id, *attributes),
            p.wf(),
    {
        let size = attributes.inner_size;
        Popup {
            id,
            last_configure: None,
            scale_factor: SCALE_ONE,
            size: size.to_logical(SCALE_ONE),
            initial_size: Some(size),
            transparent: true,
            redraw: false,
        }
    }

    /// Whether the first configure was received.
    pub fn configured(&self) -> (r: bool)
        ensures
            r == self.spec_configured(),
    {
        self.last_configure.is_some()
    }
}

/// A surface of either role: the closed union the multiplexer stores
/// and forwards the common operations to.
#[derive(Debug, Clone)]
pub enum Window {
    Toplevel(Toplevel),
    Popup(Popup),
}

/// A shared downcast of a surface to its specific role.
pub enum WindowRole<'a> {
    Toplevel(&'a Toplevel),
    Popup(&'a Popup),
}

impl Window {
    /// A window is well formed when its role state is.
    pub open spec fn wf(&self) -> bool {
        match self {
            Window::Toplevel(t) => t.wf(),
            Window::Popup(p) => p.wf(),
        }
    }

    /// The surface's stable identity.
    pub open spec fn spec_id(&self) -> WindowId {
        match self {
            Window::Toplevel(t) => t.id,
            Window::Popup(p) => p.id,
        }
    }

    /// The role this surface was created with.
    pub open spec fn spec_role(&self) -> Role {
        match self {
            Window::Toplevel(_) => Role::Toplevel,
            Window::Popup(_) => Role::Popup,
        }
    }

    /// Whether the first configure was received.
    pub open spec fn spec_configured(&self) -> bool {
        match self {
            Window::Toplevel(t) => t.spec_configured(),
            Window::Popup(p) => p.spec_configured(),
        }
    }

    /// The sticky redraw-requested flag.
    pub open spec fn spec_redraw(&self) -> bool {
        match self {
            Window::Toplevel(t) => t.redraw,
            Window::Popup(p) => p.redraw,
        }
    }

    /// The cached scale factor, in 1/120ths.
    pub open spec fn spec_scale(&self) -> u32 {
        match self {
            Window::Toplevel(t) => t.scale_factor,
            Window::Popup(p) => p.scale_factor,
        }
    }

    /// The current logical size.
    pub open spec fn spec_size(&self) -> LogicalSize {
        match self {
            Window::Toplevel(t) => t.size,
            Window::Popup(p) => p.size,
        }
    }

    /// The provisional initial size, present only until the first
    /// configure consumes it.
    pub open spec fn spec_initial_size(&self) -> Option<Size> {
        match self {
            Window::Toplevel(t) => t.initial_size,
            Window::Popup(p) => p.initial_size,
        }
    }

    /// This window with its redraw flag replaced and all else unchanged.
    pub open spec fn spec_with_redraw(self, redraw: bool) -> Window {
        match self {
            Window::Toplevel(t) => Window::Toplevel(Toplevel { redraw, ..t }),
            Window::Popup(p) => Window::Popup(Popup { redraw, ..p }),
        }
    }

    /// This window with its cached scale factor replaced and all else
    /// unchanged.
    pub open spec fn spec_with_scale(self, scale_factor: u32) -> Window {
        match self {
            Window::Toplevel(t) => Window::Toplevel(Toplevel { scale_factor, ..t }),
            Window::Popup(p) => Window::Popup(Popup { scale_factor, ..p }),
        }
    }

    /// The state after one configure event, whatever the role.
    pub open spec fn spec_after_configure(self, width: u32, height: u32) -> Window {
        match self {
            Window::Toplevel(t) => Window::Toplevel(t.spec_after_configure(width, height)),
            Window::Popup(p) => Window::Popup(p.spec_after_configure(width, height)),
        }
    }

    /// The surface's stable identity.
    pub fn id(&self) -> (r: WindowId)
        ensures
            r == self.spec_id(),
    {
        match self {
            Window::Toplevel(t) => t.id,
            Window::Popup(p) => p.id,
        }
    }

    /// The role this surface was created with.
    pub fn role_kind(&self) -> (r: Role)
        ensures
            r == self.spec_role(),
    {
        match self {
            Window::Toplevel(_) => Role::Toplevel,
            Window::Popup(_) => Role::Popup,
        }
    }

    /// Downcasts this surface to its specific role.
    pub fn role(&self) -> (r: WindowRole<'_>)
        ensures
            match r {
                WindowRole::Toplevel(t) => *self matches Window::Toplevel(w) && *t == w,
                WindowRole::Popup(p) => *self matches Window::Popup(w) && *p == w,
            },
    {
        match self {
            Window::Toplevel(t) => WindowRole::Toplevel(t),
            Window::Popup(p) => WindowRole::Popup(p),
        }
    }

    /// Whether the first configure was received.
    pub fn configured(&self) -> (r: bool)
        ensures
            r == self.spec_configured(),
    {
        match self {
            Window::Toplevel(t) => t.configured(),
            Window::Popup(p) => p.configured(),
        }
    }

    /// Whether this surface takes part in the shell's
    /// configure/acknowledge handshake. Every current role does.
    pub fn is_xdg_surface(&self) -> (r: bool)
        ensures
            r,
    {
        match self {
            Window::Toplevel(_) => true,
            Window::Popup(_) => true,
        }
    }

    /// The cached scale factor, in 1/120ths.
    pub fn scale_factor(&self) -> (r: u32)
        ensures
            r == self.spec_scale(),
    {
        match self {
            Window::Toplevel(t) => t.scale_factor,
            Window::Popup(p) => p.scale_factor,
        }
    }

    /// The current inner size in logical pixels.
    pub fn logical_size(&self) -> (r: LogicalSize)
        ensures
            r == self.spec_size(),
    {
        match self {
            Window::Toplevel(t) => t.size,
            Window::Popup(p) => p.size,
        }
    }

    /// The current inner size in physical pixels: the logical size at
    /// the cached scale factor.
    pub fn inner_size(&self) -> (r: PhysicalSize)
        ensures
            r == self.spec_size().spec_to_physical(self.spec_scale()),
    {
        match self {
            Window::Toplevel(t) => t.size.to_physical(t.scale_factor),
            Window::Popup(p) => p.size.to_physical(p.scale_factor),
        }
    }

    /// Raises the sticky redraw-requested flag. Requesting twice before
    /// the flag is taken behaves exactly like requesting once.
    pub fn request_redraw(&mut self)
        ensures
            *final(self) == old(self).spec_with_redraw(true),
    {
        match self {
            Window::Toplevel(t) => t.redraw = true,
            Window::Popup(p) => p.redraw = true,
        }
    }

    /// Reads and clears the redraw-requested flag: the one operation the
    /// event loop uses, once per pass per surface.
    pub fn take_redraw(&mut self) -> (r: bool)
        ensures
            r == old(self).spec_redraw(),
            *final(self) == old(self).spec_with_redraw(false),
    {
        match self {
            Window::Toplevel(t) => {
                let r = t.redraw;
                t.redraw = false;
                r
            },
            Window::Popup(p) => {
                let r = p.redraw;
                p.redraw = false;
                r
            },
        }
    }

    /// Replaces the cached scale factor. Scale reports arrive
    /// independently of configure events and do not by themselves signal
    /// a resize.
    pub fn set_scale_factor(&mut self, scale_factor: u32)
        requires
            scale_factor >= 1,
        ensures
            *final(self) == old(self).spec_with_scale(scale_factor),
            final(self).wf(),
    {
        match self {
            Window::Toplevel(t) => t.scale_factor = scale_factor,
            Window::Popup(p) => p.scale_factor = scale_factor,
        }
    }

    /// Applies one configure event: consumes the provisional size,
    /// adopts the compositor-supplied size, and returns the lifecycle
    /// notifications to deliver, in order. On the first configure these
    /// are created, scale-factor-changed, resized and redraw-requested,
    /// exactly once each and in exactly that order; on a repeat
    /// configure, only resized.
    pub fn handle_configure(&mut self, width: u32, height: u32) -> (events: Vec<SurfaceEvent>)
        requires
            old(self).wf(),
        ensures
            final(self).wf(),
            *final(self) == old(self).spec_after_configure(width, height),
            events@ == spec_configure_events(
                old(self).spec_id(),
                !old(self).spec_configured(),
                old(self).spec_scale(),
                width,
                height,
            ),
    {
        let id = self.id();
        let first = !self.configured();
        let scale = self.scale_factor();
        match self {
            Window::Toplevel(t) => {
                t.initial_size = None;
                t.size = LogicalSize { width, height };
                t.last_configure = Some(Configure { width, height });
            },
            Window::Popup(p) => {
                p.initial_size = None;
                p.size = LogicalSize { width, height };
                p.last_configure = Some(Configure { width, height });
            },
        }
        let mut events: Vec<SurfaceEvent> = Vec::new();
        if first {
            events.push(SurfaceEvent::Created { window: id });
            events.push(SurfaceEvent::ScaleFactorChanged { window: id, scale_factor: scale });
        }
        events.push(
            SurfaceEvent::Resized { window: id, size: LogicalSize { width, height }.to_physical(scale) },
        );
        if first {
            events.push(SurfaceEvent::RedrawRequested { window: id });
        }
        proof {
            assert(events@ =~= spec_configure_events(id, first, scale, width, height));
        }
        events
    }
}

/// The first configure — and only the first — synthesizes created,
/// scale-factor-changed, resized and redraw-requested, exactly once
/// each and in exactly that order; a repeat configure synthesizes
/// resized alone.
pub proof fn lemma_configure_notification_order(
    id: WindowId,
    scale: u32,
    width: u32,
    height: u32,
)
    ensures
        spec_configure_events(id, true, scale, width, height) == seq![
            SurfaceEvent::Created { window: id },
            SurfaceEvent::ScaleFactorChanged { window: id, scale_factor: scale },
            SurfaceEvent::Resized {
                window: id,
                size: LogicalSize { width, height }.spec_to_physical(scale),
            },
            SurfaceEvent::RedrawRequested { window: id },
        ],
        spec_configure_events(id, false, scale, width, height) == seq![
            SurfaceEvent::Resized {
                window: id,
                size: LogicalSize { width, height }.spec_to_physical(scale),
            },
        ],
{
}

/// A configure consumes the provisional initial size and adopts the
/// compositor-supplied size: afterwards the surface is negotiated, its
/// logical size is the compositor's value — even where the provisional
/// value differed — and the provisional value is gone.
pub proof fn lemma_provisional_size_consumed(w: Window, width: u32, height: u32)
    ensures
        w.spec_after_configure(width, height).spec_initial_size() is None,
        w.spec_after_configure(width, height).spec_size() == (LogicalSize { width, height }),
        w.spec_after_configure(width, height).spec_configured(),
        w.spec_after_configure(width, height).spec_id() == w.spec_id(),
        w.spec_after_configure(width, height).spec_role() == w.spec_role(),
        w.spec_after_configure(width, height).spec_scale() == w.spec_scale(),
        w.spec_after_configure(width, height).spec_redraw() == w.spec_redraw(),
{
}

/// Raising the redraw flag is idempotent — raising it twice before it
/// is read is the same as raising it once — and taking it leaves it
/// lowered, so a further read before any new request returns false.
pub proof fn lemma_redraw_flag_semantics(w: Window)
    ensures
        w.spec_with_redraw(true).spec_with_redraw(true) == w.spec_with_redraw(true),
        !w.spec_with_redraw(false).spec_redraw(),
        w.spec_with_redraw(true).spec_redraw(),
{
}

} // verus!
