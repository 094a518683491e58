//! The application-facing model state: a session and the messages a
//! front-end sends about it.

use vstd::prelude::*;

use crate::errors::EditError;
use crate::laws::lemma_notified_ids_ignore_data;
use crate::model::{delete_region_end, insert_region_end, notified_ids, refreshed};
use crate::session::Session;
use crate::viewport::ViewId;

verus! {

/// A message from the surrounding front-end.
pub enum Msg {
    /// The input text changed and the buffer should be brought up to date.
    InputEvent,
    /// The front-end is shutting down.
    Quit,
}

/// The model state a front-end drives: the one owned session.
pub struct State {
    /// The session holding the buffer under edit.
    pub s: Session,
}

impl State {
    /// Wraps an existing session as the model state.
    pub fn new(s: Session) -> (st: State)
        ensures
            st.s == s,
    {
        State { s }
    }

    /// What a front-end message decides.  An input event replaces the
    /// buffer's whole content with `text`: everything is deleted, then
    /// `text` is inserted at the front; the two deliveries (the delete's and
    /// the insert's) come back for the front-end to run.  A quit tears the
    /// session down.
    pub fn update(&mut self, msg: Msg, text: &Vec<u8>) -> (r: Result<
        (Vec<ViewId>, Vec<ViewId>),
        EditError,
    >)
        requires
            old(self).s.wf(),
        ensures
            final(self).s.wf(),
            msg is Quit ==> r is Ok && !final(self).s.connected && final(self).s.views@.len() == 0,
            msg is InputEvent && !old(self).s.connected ==> r == Err::<
                (Vec<ViewId>, Vec<ViewId>),
                EditError,
            >(EditError::SessionClosed) && *final(self) == *old(self),
            msg is InputEvent && old(self).s.connected ==> {
                &&& r is Ok
                &&& final(self).s.buffer@ == text@
                &&& refreshed(old(self).s.views@, final(self).s.views@, text@)
                &&& r.unwrap().0@ == notified_ids(
                    final(self).s.views@,
                    0,
                    delete_region_end(
                        old(self).s.buffer@.len(),
                        0,
                        old(self).s.buffer@.len(),
                    ),
                )
                &&& r.unwrap().1@ == notified_ids(
                    final(self).s.views@,
                    0,
                    insert_region_end(0, 0, text@.len()),
                )
                &&& final(self).s.connected
                &&& final(self).s.next_id == old(self).s.next_id
            },
    {
        match msg {
            Msg::Quit => {
                self.s.destroy();
                Ok((Vec::new(), Vec::new()))
            },
            Msg::InputEvent => {
                let len = match self.s.length() {
                    Ok(len) => len,
                    Err(e) => {
                        return Err(e);
                    },
                };
                let ghost len0 = self.s.buffer@.len();
                let deleted = match self.s.delete(0, len) {
                    Ok(d) => d,
                    Err(e) => {
                        return Err(e);
                    },
                };
                proof {
                    assert(self.s.buffer@ =~= Seq::<u8>::empty());
                }
                let ghost views1 = self.s.views@;
                let inserted = match self.s.insert(text, 0) {
                    Ok(x) => x,
                    Err(e) => {
                        return Err(e);
                    },
                };
                proof {
                    assert(self.s.buffer@ =~= text@);
                    lemma_notified_ids_ignore_data(
                        views1,
                        self.s.views@,
                        0,
                        delete_region_end(len0, 0, len0),
                    );
                }
                Ok((deleted, inserted))
            },
        }
    }
}

} // verus!
