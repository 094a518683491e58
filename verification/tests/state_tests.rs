use omega_edit::errors::EditError;
use omega_edit::session::Session;
use omega_edit::state::{Msg, State};

#[test]
fn state_wraps_a_session() {
    let mut st = State::new(Session::from_bytes(b"seed".to_vec()));
    let h = st.s.view(0, 4).unwrap();
    assert_eq!(st.s.viewport(h).unwrap().data().as_slice(), b"seed");
}

#[test]
fn input_event_replaces_the_buffer() {
    let mut st = State::new(Session::new());
    let h = st.s.view_cb(0, 64).unwrap();
    st.update(Msg::InputEvent, &b"first".to_vec()).unwrap();
    let (deleted, inserted) = st.update(Msg::InputEvent, &b"second".to_vec()).unwrap();
    assert_eq!(deleted, vec![h]);
    assert_eq!(inserted, vec![h]);
    assert_eq!(st.s.viewport(h).unwrap().as_text().unwrap(), "second");
}

#[test]
fn quit_tears_the_session_down() {
    let mut st = State::new(Session::new());
    let (deleted, inserted) = st.update(Msg::Quit, &Vec::new()).unwrap();
    assert!(deleted.is_empty() && inserted.is_empty());
    assert_eq!(st.s.length().unwrap_err(), EditError::SessionClosed);
    assert_eq!(
        st.update(Msg::InputEvent, &b"late".to_vec()).unwrap_err(),
        EditError::SessionClosed
    );
}
