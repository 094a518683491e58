use omega_edit::errors::EditError;
use omega_edit::session::Session;
use omega_edit::viewport::ViewId;

fn count(events: &[ViewId], id: ViewId) -> usize {
    events.iter().filter(|&&e| e == id).count()
}

#[test]
fn plain_view_exact_content() {
    let mut s = Session::from_bytes(b"abcdefgh".to_vec());
    let h = s.view(2, 3).unwrap();
    let vp = s.viewport(h).unwrap();
    assert_eq!(vp.data().as_slice(), b"cde");
    assert_eq!(vp.len(), 3);
}

#[test]
fn view_clamps_to_available_bytes() {
    let mut s = Session::from_bytes(b"abcdefgh".to_vec());
    let h = s.view(5, 10).unwrap();
    let vp = s.viewport(h).unwrap();
    assert_eq!(vp.data().as_slice(), b"fgh");
    assert_eq!(vp.len(), 3);
    let h2 = s.view(9, 4).unwrap();
    let vp2 = s.viewport(h2).unwrap();
    assert_eq!(vp2.len(), 0);
    assert!(vp2.data().is_empty());
}

#[test]
fn insert_then_delete_restores_windows() {
    let mut s = Session::from_bytes(b"abcd".to_vec());
    let h1 = s.view(0, 4).unwrap();
    let h2 = s.view(1, 2).unwrap();
    let before1 = s.viewport(h1).unwrap().data().clone();
    let before2 = s.viewport(h2).unwrap().data().clone();
    s.insert(&b"XY".to_vec(), 1).unwrap();
    assert_eq!(s.viewport(h1).unwrap().data().as_slice(), b"aXYb");
    s.delete(1, 2).unwrap();
    assert_eq!(s.viewport(h1).unwrap().data(), &before1);
    assert_eq!(s.viewport(h2).unwrap().data(), &before2);
}

#[test]
fn reposition_to_zero_window_is_empty_not_an_error() {
    let mut s = Session::from_bytes(b"content".to_vec());
    let h = s.view_cb(0, 7).unwrap();
    assert_eq!(s.viewport(h).unwrap().len(), 7);
    s.update_view(h, 0, 0).unwrap();
    let vp = s.viewport(h).unwrap();
    assert_eq!(vp.len(), 0);
    assert!(vp.data().is_empty());
    assert_eq!(vp.as_text().unwrap(), "");
}

#[test]
fn notify_scenario_from_empty_session() {
    let mut s = Session::new();
    let h = s.view_cb(0, 10).unwrap();
    let events = s.insert(&b"hello".to_vec(), 0).unwrap();
    assert_eq!(count(&events, h), 1);
    assert_eq!(s.viewport(h).unwrap().as_text().unwrap(), "hello");
    let events = s.delete(0, 5).unwrap();
    assert_eq!(count(&events, h), 1);
    assert_eq!(s.viewport(h).unwrap().as_text().unwrap(), "");
}

#[test]
fn only_overlapping_bound_views_are_notified() {
    let mut s = Session::from_bytes(b"0123456789".to_vec());
    let near = s.view_cb(0, 3).unwrap();
    let far = s.view_cb(8, 2).unwrap();
    let plain = s.view(0, 10).unwrap();
    let events = s.overwrite(&b"XX".to_vec(), 1).unwrap();
    assert_eq!(count(&events, near), 1);
    assert_eq!(count(&events, far), 0);
    assert_eq!(count(&events, plain), 0);
    assert_eq!(events.len(), 1);
}

#[test]
fn notified_views_see_fresh_content() {
    let mut s = Session::from_bytes(b"0123456789".to_vec());
    let h = s.view_cb(2, 4).unwrap();
    let events = s.overwrite(&b"ab".to_vec(), 3).unwrap();
    assert_eq!(count(&events, h), 1);
    assert_eq!(s.viewport(h).unwrap().data().as_slice(), b"2ab5");
}

#[test]
fn plain_views_are_refreshed_but_silent() {
    let mut s = Session::new();
    let h = s.view(0, 16).unwrap();
    let events = s.insert(&b"fresh".to_vec(), 0).unwrap();
    assert_eq!(count(&events, h), 0);
    assert!(events.is_empty());
    assert_eq!(s.viewport(h).unwrap().data().as_slice(), b"fresh");
}

#[test]
fn deregistered_view_is_never_notified() {
    let mut s = Session::from_bytes(b"abcdef".to_vec());
    let h = s.view_cb(0, 6).unwrap();
    s.close_view(h).unwrap();
    let events = s.insert(&b"zz".to_vec(), 0).unwrap();
    assert_eq!(count(&events, h), 0);
    assert!(events.is_empty());
    assert_eq!(s.viewport(h).unwrap_err(), EditError::UnknownViewport);
}

#[test]
fn deregistration_keeps_other_views_working() {
    let mut s = Session::from_bytes(b"abcdef".to_vec());
    let first = s.view_cb(0, 2).unwrap();
    let second = s.view_cb(0, 6).unwrap();
    s.close_view(first).unwrap();
    let events = s.overwrite(&b"Z".to_vec(), 0).unwrap();
    assert_eq!(count(&events, second), 1);
    assert_eq!(events, vec![second]);
    assert_eq!(s.viewport(second).unwrap().data().as_slice(), b"Zbcdef");
}

#[test]
fn notifications_come_in_registration_order() {
    let mut s = Session::from_bytes(b"0123456789".to_vec());
    let a = s.view_cb(0, 10).unwrap();
    let b = s.view_cb(2, 5).unwrap();
    let events = s.overwrite(&b"!!".to_vec(), 3).unwrap();
    assert_eq!(events, vec![a, b]);
}

#[test]
fn empty_insert_and_zero_delete_notify_nobody() {
    let mut s = Session::from_bytes(b"abc".to_vec());
    let h = s.view_cb(0, 3).unwrap();
    let events = s.insert(&Vec::new(), 1).unwrap();
    assert!(events.is_empty());
    let events = s.delete(1, 0).unwrap();
    assert!(events.is_empty());
    assert_eq!(s.viewport(h).unwrap().data().as_slice(), b"abc");
}

#[test]
fn overwrite_replaces_in_place() {
    let mut s = Session::from_bytes(b"abcdef".to_vec());
    let h = s.view(0, 6).unwrap();
    s.overwrite(&b"XY".to_vec(), 2).unwrap();
    assert_eq!(s.viewport(h).unwrap().data().as_slice(), b"abXYef");
    assert_eq!(s.length().unwrap(), 6);
}

#[test]
fn push_inserts_at_the_front() {
    let mut s = Session::from_bytes(b"world".to_vec());
    let h = s.view(0, 16).unwrap();
    s.push(&b"hello ".to_vec()).unwrap();
    assert_eq!(s.viewport(h).unwrap().data().as_slice(), b"hello world");
    assert_eq!(s.length().unwrap(), 11);
}

#[test]
fn invalid_ranges_are_rejected_atomically() {
    let mut s = Session::from_bytes(b"abc".to_vec());
    let h = s.view_cb(0, 3).unwrap();
    assert_eq!(s.insert(&b"x".to_vec(), 4).unwrap_err(), EditError::EngineMutation);
    assert_eq!(s.overwrite(&b"xxxx".to_vec(), 0).unwrap_err(), EditError::EngineMutation);
    assert_eq!(s.overwrite(&b"x".to_vec(), 3).unwrap_err(), EditError::EngineMutation);
    assert_eq!(s.delete(2, 2).unwrap_err(), EditError::EngineMutation);
    assert_eq!(s.length().unwrap(), 3);
    assert_eq!(s.viewport(h).unwrap().data().as_slice(), b"abc");
}

#[test]
fn everything_fails_closed_after_destroy() {
    let mut s = Session::from_bytes(b"abc".to_vec());
    let h = s.view(0, 3).unwrap();
    s.destroy();
    assert_eq!(s.viewport(h).unwrap_err(), EditError::SessionClosed);
    assert_eq!(s.view(0, 1).unwrap_err(), EditError::SessionClosed);
    assert_eq!(s.view_cb(0, 1).unwrap_err(), EditError::SessionClosed);
    assert_eq!(s.insert(&b"x".to_vec(), 0).unwrap_err(), EditError::SessionClosed);
    assert_eq!(s.overwrite(&b"x".to_vec(), 0).unwrap_err(), EditError::SessionClosed);
    assert_eq!(s.delete(0, 0).unwrap_err(), EditError::SessionClosed);
    assert_eq!(s.push(&b"x".to_vec()).unwrap_err(), EditError::SessionClosed);
    assert_eq!(s.length().unwrap_err(), EditError::SessionClosed);
    assert_eq!(s.close_view(h).unwrap_err(), EditError::SessionClosed);
    assert_eq!(s.update_view(h, 0, 0).unwrap_err(), EditError::SessionClosed);
    s.destroy();
    assert_eq!(s.length().unwrap_err(), EditError::SessionClosed);
}

#[test]
fn unknown_handles_are_rejected() {
    let mut s = Session::new();
    assert_eq!(s.viewport(7).unwrap_err(), EditError::UnknownViewport);
    assert_eq!(s.close_view(7).unwrap_err(), EditError::UnknownViewport);
    assert_eq!(s.update_view(7, 0, 0).unwrap_err(), EditError::UnknownViewport);
    let h = s.view(0, 1).unwrap();
    s.close_view(h).unwrap();
    assert_eq!(s.close_view(h).unwrap_err(), EditError::UnknownViewport);
}

#[test]
fn invalid_utf8_fails_to_decode() {
    let mut s = Session::from_bytes(vec![0xff, 0xfe, 0x61]);
    let h = s.view(0, 3).unwrap();
    assert_eq!(s.viewport(h).unwrap().as_text().unwrap_err(), EditError::Decode);
}

#[test]
fn reposition_recomputes_immediately() {
    let mut s = Session::from_bytes(b"0123456789".to_vec());
    let h = s.view(0, 4).unwrap();
    assert_eq!(s.viewport(h).unwrap().data().as_slice(), b"0123");
    s.update_view(h, 6, 10).unwrap();
    assert_eq!(s.viewport(h).unwrap().data().as_slice(), b"6789");
}
