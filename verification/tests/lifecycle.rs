//! Scenario tests for the registry and the configure handshake.

use waywin::attributes::{PopupAttributes, WindowAttributes};
use waywin::geometry::{LogicalSize, PhysicalSize, Size};
use waywin::registry::{CreationError, Registry};
use waywin::surface::{Role, SurfaceEvent, Window, WindowRole};
use waywin::WindowId;

fn popup_attrs(width: u32, height: u32) -> PopupAttributes {
    PopupAttributes::default().with_inner_size(Size::Logical(LogicalSize { width, height }))
}

fn registry_with_parent(parent: WindowId) -> Registry {
    let mut reg = Registry::new();
    reg.insert_toplevel(parent, WindowAttributes::default());
    reg
}

#[test]
fn first_configure_event_order() {
    let parent = WindowId(1);
    let mut reg = registry_with_parent(parent);
    let pid = WindowId(2);
    let attrs = popup_attrs(100, 75);
    assert!(reg.prepare_popup(parent, &attrs).is_ok());
    reg.insert_popup(pid, &attrs);

    let events = reg.dispatch_configure(pid, Role::Popup, 120, 80);
    assert_eq!(
        events,
        vec![
            SurfaceEvent::Created { window: pid },
            SurfaceEvent::ScaleFactorChanged { window: pid, scale_factor: 120 },
            SurfaceEvent::Resized { window: pid, size: PhysicalSize { width: 120, height: 80 } },
            SurfaceEvent::RedrawRequested { window: pid },
        ]
    );
}

#[test]
fn repeat_configure_signals_only_resized() {
    let parent = WindowId(1);
    let mut reg = registry_with_parent(parent);
    let pid = WindowId(2);
    let attrs = popup_attrs(100, 75);
    reg.insert_popup(pid, &attrs);

    let first = reg.dispatch_configure(pid, Role::Popup, 120, 80);
    assert_eq!(first.len(), 4);

    let second = reg.dispatch_configure(pid, Role::Popup, 120, 80);
    assert_eq!(
        second,
        vec![SurfaceEvent::Resized { window: pid, size: PhysicalSize { width: 120, height: 80 } }]
    );

    let third = reg.dispatch_configure(pid, Role::Popup, 64, 32);
    assert_eq!(
        third,
        vec![SurfaceEvent::Resized { window: pid, size: PhysicalSize { width: 64, height: 32 } }]
    );
}

#[test]
fn toplevel_first_and_repeat_configure() {
    let id = WindowId(9);
    let mut reg = registry_with_parent(id);
    let events = reg.dispatch_configure(id, Role::Toplevel, 1024, 768);
    assert_eq!(
        events,
        vec![
            SurfaceEvent::Created { window: id },
            SurfaceEvent::ScaleFactorChanged { window: id, scale_factor: 120 },
            SurfaceEvent::Resized { window: id, size: PhysicalSize { width: 1024, height: 768 } },
            SurfaceEvent::RedrawRequested { window: id },
        ]
    );
    let again = reg.dispatch_configure(id, Role::Toplevel, 1024, 768);
    assert_eq!(again.len(), 1);
}

#[test]
fn provisional_size_visible_until_first_configure() {
    let parent = WindowId(1);
    let mut reg = registry_with_parent(parent);
    let pid = WindowId(2);
    let attrs = popup_attrs(100, 75);
    reg.insert_popup(pid, &attrs);

    // Before any configure the requested size is the surface's size.
    let w = reg.lookup(pid).unwrap();
    assert_eq!(w.inner_size(), PhysicalSize { width: 100, height: 75 });
    assert!(!w.configured());

    // The compositor grants something else: its value wins.
    reg.dispatch_configure(pid, Role::Popup, 120, 80);
    let w = reg.lookup(pid).unwrap();
    assert_eq!(w.inner_size(), PhysicalSize { width: 120, height: 80 });
    assert!(w.configured());
}

#[test]
fn unknown_parent_is_rejected_and_leaves_no_orphan() {
    let parent = WindowId(1);
    let reg = registry_with_parent(parent);
    let attrs = popup_attrs(100, 75);

    let r = reg.prepare_popup(WindowId(777), &attrs);
    assert_eq!(r, Err(CreationError::UnknownParent));
    assert_eq!(reg.len(), 1);
    assert!(!reg.contains(WindowId(777)));
}

#[test]
fn known_parent_is_accepted() {
    let parent = WindowId(1);
    let reg = registry_with_parent(parent);
    let attrs = popup_attrs(100, 75);
    assert!(reg.prepare_popup(parent, &attrs).is_ok());
}

#[test]
fn configure_for_absent_identity_is_dropped() {
    let id = WindowId(5);
    let mut reg = registry_with_parent(id);
    reg.dispatch_configure(id, Role::Toplevel, 300, 200);

    let events = reg.dispatch_configure(WindowId(999), Role::Toplevel, 64, 64);
    assert!(events.is_empty());

    // The registered surface is untouched.
    let w = reg.lookup(id).unwrap();
    assert_eq!(w.inner_size(), PhysicalSize { width: 300, height: 200 });
    assert_eq!(reg.len(), 1);
}

#[test]
fn configure_for_mismatched_role_is_dropped() {
    let id = WindowId(5);
    let mut reg = registry_with_parent(id);

    // A popup-protocol event resolving to a stored top-level is "not
    // found", never a crash.
    let events = reg.dispatch_configure(id, Role::Popup, 64, 64);
    assert!(events.is_empty());
    let w = reg.lookup(id).unwrap();
    assert!(!w.configured());
    assert_eq!(w.inner_size(), PhysicalSize { width: 800, height: 600 });
}

#[test]
fn configure_after_remove_is_dropped() {
    let parent = WindowId(1);
    let mut reg = registry_with_parent(parent);
    let pid = WindowId(2);
    reg.insert_popup(pid, &popup_attrs(100, 75));
    reg.dispatch_configure(pid, Role::Popup, 100, 75);

    let removed = reg.remove(pid);
    assert!(removed.is_some());
    assert!(!reg.contains(pid));
    assert_eq!(reg.len(), 1);

    let events = reg.dispatch_configure(pid, Role::Popup, 64, 64);
    assert!(events.is_empty());
}

#[test]
fn identity_can_be_reused_after_destruction() {
    // An identity is never reused while its object lives, but after
    // destruction the native id may come around again.
    let parent = WindowId(1);
    let mut reg = registry_with_parent(parent);
    let pid = WindowId(2);
    reg.insert_popup(pid, &popup_attrs(10, 10));
    reg.dispatch_configure(pid, Role::Popup, 20, 20);
    reg.remove(pid);

    reg.insert_popup(pid, &popup_attrs(30, 30));
    let w = reg.lookup(pid).unwrap();
    assert!(!w.configured());
    assert_eq!(w.inner_size(), PhysicalSize { width: 30, height: 30 });
}

#[test]
fn redraw_flag_is_idempotent_and_cleared_once() {
    let id = WindowId(3);
    let mut reg = registry_with_parent(id);

    assert!(!reg.take_redraw(id));

    assert!(reg.request_redraw(id));
    assert!(reg.request_redraw(id));
    assert!(reg.take_redraw(id));
    assert!(!reg.take_redraw(id));
    assert!(!reg.take_redraw(id));

    assert!(reg.request_redraw(id));
    assert!(reg.take_redraw(id));

    // An absent surface reads as false and is not created by the read.
    assert!(!reg.take_redraw(WindowId(444)));
    assert!(!reg.request_redraw(WindowId(444)));
    assert!(!reg.contains(WindowId(444)));
}

#[test]
fn scale_change_updates_cache_without_resize_signal() {
    let parent = WindowId(1);
    let mut reg = registry_with_parent(parent);
    let pid = WindowId(2);
    reg.insert_popup(pid, &popup_attrs(100, 75));

    // One and a half: 180/120.
    assert!(reg.dispatch_scale_change(pid, 180));
    let w = reg.lookup(pid).unwrap();
    assert_eq!(w.scale_factor(), 180);

    // The next configure reports physical sizes at the new scale.
    let events = reg.dispatch_configure(pid, Role::Popup, 100, 80);
    assert_eq!(
        events,
        vec![
            SurfaceEvent::Created { window: pid },
            SurfaceEvent::ScaleFactorChanged { window: pid, scale_factor: 180 },
            SurfaceEvent::Resized { window: pid, size: PhysicalSize { width: 150, height: 120 } },
            SurfaceEvent::RedrawRequested { window: pid },
        ]
    );

    assert!(!reg.dispatch_scale_change(WindowId(999), 240));
}

#[test]
fn done_notification_resolves_identity_only() {
    let parent = WindowId(1);
    let mut reg = registry_with_parent(parent);
    let pid = WindowId(2);
    reg.insert_popup(pid, &popup_attrs(100, 75));

    assert!(reg.dispatch_done(pid));
    assert!(!reg.dispatch_done(parent));
    assert!(!reg.dispatch_done(WindowId(999)));
    // No state changed.
    assert_eq!(reg.len(), 2);
    assert!(!reg.lookup(pid).unwrap().configured());
}

#[test]
fn role_downcast_matches_stored_variant() {
    let parent = WindowId(1);
    let mut reg = registry_with_parent(parent);
    let pid = WindowId(2);
    reg.insert_popup(pid, &popup_attrs(100, 75));

    match reg.lookup(parent).unwrap().role() {
        WindowRole::Toplevel(t) => assert_eq!(t.id, parent),
        WindowRole::Popup(_) => panic!("parent must be a top-level"),
    }
    match reg.lookup(pid).unwrap().role() {
        WindowRole::Popup(p) => assert_eq!(p.id, pid),
        WindowRole::Toplevel(_) => panic!("popup must be a popup"),
    }
    assert_eq!(reg.lookup(parent).unwrap().role_kind(), Role::Toplevel);
    assert_eq!(reg.lookup(pid).unwrap().role_kind(), Role::Popup);
    assert!(reg.lookup(pid).unwrap().is_xdg_surface());
    assert!(reg.lookup(parent).unwrap().is_xdg_surface());
}

#[test]
fn toplevel_title_and_theme_survive_creation() {
    let id = WindowId(7);
    let mut reg = Registry::new();
    let attrs = WindowAttributes::default().with_title("hello".to_string());
    reg.insert_toplevel(id, attrs);
    match reg.lookup(id).unwrap().role() {
        WindowRole::Toplevel(t) => {
            assert_eq!(t.title(), "hello");
            assert_eq!(t.theme(), None);
        }
        WindowRole::Popup(_) => panic!("must be a top-level"),
    }
}

#[test]
fn toplevel_title_and_theme_can_change() {
    let mut t = waywin::surface::Toplevel::from_attributes(
        WindowId(11),
        WindowAttributes::default(),
    );
    assert!(!t.configured());
    assert_eq!(t.title(), "Winit window");
    t.set_title("renamed".to_string());
    assert_eq!(t.title(), "renamed");
    t.set_theme(Some(waywin::attributes::Theme::Light));
    assert_eq!(t.theme(), Some(waywin::attributes::Theme::Light));
}

#[test]
fn logical_size_tracks_negotiation() {
    let id = WindowId(6);
    let mut reg = registry_with_parent(id);
    assert_eq!(
        reg.lookup(id).unwrap().logical_size(),
        LogicalSize { width: 800, height: 600 }
    );
    reg.dispatch_scale_change(id, 240);
    reg.dispatch_configure(id, Role::Toplevel, 400, 300);
    let w = reg.lookup(id).unwrap();
    assert_eq!(w.logical_size(), LogicalSize { width: 400, height: 300 });
    assert_eq!(w.inner_size(), PhysicalSize { width: 800, height: 600 });
}

#[test]
fn standalone_window_handshake() {
    // The multiplexer's forwarding, exercised directly on one value.
    let mut w = Window::Popup(waywin::surface::Popup::from_attributes(
        WindowId(42),
        &popup_attrs(10, 10),
    ));
    assert_eq!(w.id(), WindowId(42));
    assert!(!w.take_redraw());
    w.request_redraw();
    w.request_redraw();
    assert!(w.take_redraw());
    assert!(!w.take_redraw());

    let events = w.handle_configure(33, 44);
    assert_eq!(events.len(), 4);
    assert_eq!(w.inner_size(), PhysicalSize { width: 33, height: 44 });
    let events = w.handle_configure(33, 44);
    assert_eq!(events.len(), 1);
}
