//! The identity-to-surface table: the single source of truth mapping a
//! surface's protocol identity to its live state, and the dispatch
//! entry points that route inbound protocol events to it.
//!
//! Dispatch never fails: an event whose identity is not registered, or
//! resolves to a surface of a different role than the event's protocol
//! object, is silently dropped, because destruction and in-flight
//! events legitimately race. Only creation can fail, and only at the
//! call site.

use vstd::prelude::*;

use crate::attributes::{PopupAttributes, WindowAttributes};
use crate::positioner::{encode_positioner, spec_encode_positioner, PositionerConfig};
use crate::surface::{spec_configure_events, Role, SurfaceEvent, Toplevel, Popup, Window};
use crate::WindowId;

verus! {

/// Why a surface could not be created.
#[derive(Debug, Clone, Copy, PartialEq, Eq, Structural)]
pub enum CreationError {
    /// The parent a popup was requested against is not registered.
    UnknownParent,
}

/// The identity-to-surface table. Each registered surface appears once,
/// under its own identity.
pub struct Registry {
    windows: Vec<Window>,
}

impl View for Registry {
    type V = Seq<Window>;

    closed spec fn view(&self) -> Seq<Window> {
        self.windows@
    }
}

impl Registry {
    /// Identities are unique and every registered surface is well
    /// formed.
    pub open spec fn wf(&self) -> bool {
        &&& forall|i: int, j: int|
            0 <= i < j < self@.len() ==> self@[i].spec_id() != self@[j].spec_id()
        &&& forall|i: int| 0 <= i < self@.len() ==> self@[i].wf()
    }

    /// Whether a surface is registered under this identity.
    pub open spec fn spec_contains(&self, id: WindowId) -> bool {
        exists|i: int| 0 <= i < self@.len() && self@[i].spec_id() == id
    }

    /// The position of the surface registered under this identity.
    pub open spec fn spec_index_of(&self, id: WindowId) -> int {
        choose|i: int| 0 <= i < self@.len() && self@[i].spec_id() == id
    }

    /// The surface registered under this identity.
    pub open spec fn spec_window(&self, id: WindowId) -> Window {
        self@[self.spec_index_of(id)]
    }

    /// Whether a surface is registered under this identity with this
    /// role.
    pub open spec fn spec_has_role(&self, id: WindowId, role: Role) -> bool {
        self.spec_contains(id) && self.spec_window(id).spec_role() == role
    }

    /// In a well-formed registry an identity occurs at one position
    /// only.
    pub proof fn lemma_index_unique(&self, i: int, id: WindowId)
        requires
            self.wf(),
            0 <= i < self@.len(),
            self@[i].spec_id() == id,
        ensures
            self.spec_contains(id),
            self.spec_index_of(id) == i,
    {
        assert(self.spec_contains(id));
        let j = self.spec_index_of(id);
        assert(0 <= j < self@.len() && self@[j].spec_id() == id);
    }

    /// An empty registry.
    pub fn new() -> (r: Registry)
        ensures
            r.wf(),
            r@ == Seq::<Window>::empty(),
    {
        Registry { windows: Vec::new() }
    }

    /// How many surfaces are registered.
    pub fn len(&self) -> (r: usize)
        ensures
            r == self@.len(),
    {
        self.windows.len()
    }

    /// The position of the surface registered under this identity, if
    /// any.
    fn find_index(&self, id: WindowId) -> (r: Option<usize>)
        ensures
            match r {
                Some(i) => i < self@.len() && self@[i as int].spec_id() == id,
                None => !self.spec_contains(id),
            },
    {
        let mut i: usize = 0;
        while i < self.windows.len()
            invariant
                i <= self.windows.len(),
                forall|j: int| 0 <= j < i ==> self.windows@[j].spec_id() != id,
            decreases self.windows.len() - i,
        {
            if self.windows[i].id() == id {
                return Some(i);
            }
            i += 1;
        }
        None
    }

    /// Whether a surface is registered under this identity.
    pub fn contains(&self, id: WindowId) -> (r: bool)
        ensures
            r == self.spec_contains(id),
    {
        self.find_index(id).is_some()
    }

    /// Resolves an identity to its live surface; absence is a benign
    /// answer, never an error.
    pub fn lookup(&self, id: WindowId) -> (r: Option<&Window>)
        requires
            self.wf(),
        ensures
            match r {
                Some(w) => self.spec_contains(id) && *w == self.spec_window(id),
                None => !self.spec_contains(id),
            },
    {
        match self.find_index(id) {
            Some(i) => {
                proof {
                    self.lemma_index_unique(i as int, id);
                }
                Some(&self.windows[i])
            },
            None => None,
        }
    }

    /// Registers the live state of a freshly created top-level window,
    /// built from its creation attributes. The attributes are consumed;
    /// their fields live on in the negotiated state.
    pub fn insert_toplevel(&mut self, id: WindowId, attributes: WindowAttributes)
        requires
            old(self).wf(),
            !old(self).spec_contains(id),
        ensures
            final(self).wf(),
            final(self)@ == old(self)@.push(
                Window::Toplevel(Toplevel::spec_new(id, attributes)),
            ),
            final(self).spec_has_role(id, Role::Toplevel),
            final(self).spec_index_of(id) == old(self)@.len(),
            (final(self).spec_window(id) == Window::Toplevel(Toplevel::spec_new(id, attributes))),
    {
        let window = Window::Toplevel(Toplevel::from_attributes(id, attributes));
        self.windows.push(window);
        proof {
            assert forall|i: int, j: int|
                0 <= i < j < self@.len() implies self@[i].spec_id() != self@[j].spec_id() by {
                assert(self@[i] == old(self)@[i]);
                if j < self@.len() - 1 {
                    assert(self@[j] == old(self)@[j]);
                }
            }
            self.lemma_index_unique(self@.len() - 1, id);
        }
    }

    /// Checks that a popup may be created against this parent and, if
    /// so, encodes its placement into the positioner wire state. The
    /// registry itself is untouched: an unknown parent is a creation
    /// failure that leaves no partial entry behind.
    pub fn prepare_popup(&self, parent: WindowId, attributes: &PopupAttributes) -> (r: Result<
        PositionerConfig,
        CreationError,
    >)
        ensures
            self.spec_contains(parent) ==> r == Ok::<PositionerConfig, CreationError>(
                spec_encode_positioner(*attributes),
            ),
            !self.spec_contains(parent) ==> r == Err::<PositionerConfig, CreationError>(
                CreationError::UnknownParent,
            ),
    {
        if self.contains(parent) {
            Ok(encode_positioner(attributes))
        } else {
            Err(CreationError::UnknownParent)
        }
    }

    /// Registers the live state of a freshly created popup, built from
    /// its creation attributes.
    pub fn insert_popup(&mut self, id: WindowId, attributes: &PopupAttributes)
        requires
            old(self).wf(),
            !old(self).spec_contains(id),
        ensures
            final(self).wf(),
            final(self)@ == old(self)@.push(Window::Popup(Popup::spec_new(id, *attributes))),
            final(self).spec_has_role(id, Role::Popup),
            final(self).spec_index_of(id) == old(self)@.len(),
            (final(self).spec_window(id) == Window::Popup(Popup::spec_new(id, *attributes))),
    {
        let window = Window::Popup(Popup::from_attributes(id, attributes));
        self.windows.push(window);
        proof {
            assert forall|i: int, j: int|
                0 <= i < j < self@.len() implies self@[i].spec_id() != self@[j].spec_id() by {
                assert(self@[i] == old(self)@[i]);
                if j < self@.len() - 1 {
                    assert(self@[j] == old(self)@[j]);
                }
            }
            self.lemma_index_unique(self@.len() - 1, id);
        }
    }

    /// Unregisters a surface, invalidating its identity for every later
    /// lookup; events still in flight for it are dropped by dispatch.
    /// Every other surface is untouched. Returns the removed state, so
    /// the caller can tear the protocol objects down in order.
    pub fn remove(&mut self, id: WindowId) -> (r: Option<Window>)
        requires
            old(self).wf(),
        ensures
            final(self).wf(),
            !old(self).spec_contains(id) ==> final(self)@ == old(self)@ && r is None,
            old(self).spec_contains(id) ==> {
                &&& final(self)@ == old(self)@.remove(old(self).spec_index_of(id))
                &&& r == Some(old(self).spec_window(id))
                &&& !final(self).spec_contains(id)
            },
    {
        match self.find_index(id) {
            Some(i) => {
                proof {
                    self.lemma_index_unique(i as int, id);
                }
                let w = self.windows.remove(i);
                proof {
                    assert forall|k: int| 0 <= k < self@.len() implies self@[k].spec_id()
                        != id by {
                        if k < i {
                            assert(self@[k] == old(self)@[k]);
                        } else {
                            assert(self@[k] == old(self)@[k + 1]);
                        }
                    }
                }
                Some(w)
            },
            None => None,
        }
    }

    /// Routes one configure event: resolves the identity, checks that
    /// the stored surface has the role the event's protocol object
    /// implies, applies the handshake, and returns the lifecycle
    /// notifications to deliver, in order. An unknown identity or a
    /// mismatched role drops the event and leaves every surface
    /// untouched.
    pub fn dispatch_configure(
        &mut self,
        id: WindowId,
        role: Role,
        width: u32,
        height: u32,
    ) -> (events: Vec<SurfaceEvent>)
        requires
            old(self).wf(),
        ensures
            final(self).wf(),
            !old(self).spec_has_role(id, role) ==> final(self)@ == old(self)@ && events@
                == Seq::<SurfaceEvent>::empty(),
            old(self).spec_has_role(id, role) ==> {
                &&& final(self)@ == old(self)@.update(
                    old(self).spec_index_of(id),
                    old(self).spec_window(id).spec_after_configure(width, height),
                )
                &&& events@ == spec_configure_events(
                    id,
                    !old(self).spec_window(id).spec_configured(),
                    old(self).spec_window(id).spec_scale(),
                    width,
                    height,
                )
            },
    {
        let found = self.find_index(id);
        match found {
            None => Vec::new(),
            Some(i) => {
                proof {
                    self.lemma_index_unique(i as int, id);
                }
                let matches_role = self.windows[i].role_kind() == role;
                if !matches_role {
                    Vec::new()
                } else {
                    let mut w = self.windows.remove(i);
                    let events = w.handle_configure(width, height);
                    self.windows.insert(i, w);
                    proof {
                        assert(self@ =~= old(self)@.update(
                            i as int,
                            old(self)@[i as int].spec_after_configure(width, height),
                        ));
                    }
                    events
                }
            },
        }
    }

    /// Handles the server-initiated dismissal of a popup. Resolving the
    /// identity follows the same drop-if-absent rule as every dispatch;
    /// beyond that the notification has no application-visible effect
    /// here, and no state changes. Returns whether the popup is still
    /// registered.
    pub fn dispatch_done(&self, id: WindowId) -> (known: bool)
        requires
            self.wf(),
        ensures
            known == self.spec_has_role(id, Role::Popup),
    {
        match self.find_index(id) {
            Some(i) => {
                proof {
                    self.lemma_index_unique(i as int, id);
                }
                match &self.windows[i] {
                    Window::Popup(_) => true,
                    Window::Toplevel(_) => false,
                }
            },
            None => false,
        }
    }

    /// Routes one scale report: updates the cached scale factor of the
    /// surface registered under this identity, if any, and signals
    /// nothing — a scale change alone never synthesizes a resize. A
    /// zero report is clamped to the smallest valid scale. Returns
    /// whether the surface was found.
    pub fn dispatch_scale_change(&mut self, id: WindowId, scale_factor: u32) -> (found: bool)
        requires
            old(self).wf(),
        ensures
            final(self).wf(),
            !old(self).spec_contains(id) ==> final(self)@ == old(self)@ && !found,
            old(self).spec_contains(id) ==> {
                &&& final(self)@ == old(self)@.update(
                    old(self).spec_index_of(id),
                    old(self).spec_window(id).spec_with_scale(
                        if scale_factor == 0 {
                            1u32
                        } else {
                            scale_factor
                        },
                    ),
                )
                &&& found
            },
    {
        let clamped: u32 = if scale_factor == 0 {
            1
        } else {
            scale_factor
        };
        match self.find_index(id) {
            None => false,
            Some(i) => {
                proof {
                    self.lemma_index_unique(i as int, id);
                }
                let mut w = self.windows.remove(i);
                w.set_scale_factor(clamped);
                self.windows.insert(i, w);
                proof {
                    assert(self@ =~= old(self)@.update(
                        i as int,
                        old(self)@[i as int].spec_with_scale(clamped),
                    ));
                }
                true
            },
        }
    }

    /// Raises the redraw flag of the surface registered under this
    /// identity, if any. Returns whether it was found.
    pub fn request_redraw(&mut self, id: WindowId) -> (found: bool)
        requires
            old(self).wf(),
        ensures
            final(self).wf(),
            !old(self).spec_contains(id) ==> final(self)@ == old(self)@ && !found,
            old(self).spec_contains(id) ==> final(self)@ == old(self)@.update(
                old(self).spec_index_of(id),
                old(self).spec_window(id).spec_with_redraw(true),
            ) && found,
    {
        match self.find_index(id) {
            None => false,
            Some(i) => {
                proof {
                    self.lemma_index_unique(i as int, id);
                }
                let mut w = self.windows.remove(i);
                w.request_redraw();
                self.windows.insert(i, w);
                proof {
                    assert(self@ =~= old(self)@.update(
                        i as int,
                        old(self)@[i as int].spec_with_redraw(true),
                    ));
                }
                true
            },
        }
    }

    /// Reads and clears the redraw flag of the surface registered under
    /// this identity: the once-per-event-loop-pass operation. An absent
    /// surface reads as false.
    pub fn take_redraw(&mut self, id: WindowId) -> (r: bool)
        requires
            old(self).wf(),
        ensures
            final(self).wf(),
            !old(self).spec_contains(id) ==> final(self)@ == old(self)@ && !r,
            old(self).spec_contains(id) ==> {
                &&& final(self)@ == old(self)@.update(
                    old(self).spec_index_of(id),
                    old(self).spec_window(id).spec_with_redraw(false),
                )
                &&& r == old(self).spec_window(id).spec_redraw()
            },
    {
        match self.find_index(id) {
            None => false,
            Some(i) => {
                proof {
                    self.lemma_index_unique(i as int, id);
                }
                let mut w = self.windows.remove(i);
                let r = w.take_redraw();
                self.windows.insert(i, w);
                proof {
                    assert(self@ =~= old(self)@.update(
                        i as int,
                        old(self)@[i as int].spec_with_redraw(false),
                    ));
                }
                r
            },
        }
    }
}

} // verus!
