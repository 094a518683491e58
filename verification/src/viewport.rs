//! Viewports: bounded windows over a session's buffer.

use vstd::prelude::*;

use crate::errors::EditError;
use crate::model::window_bytes;

verus! {

/// The handle a session hands out for a viewport.  The engine side of a
/// notification carries only this identifier; the session's registry resolves
/// it back to the owning viewport.
pub type ViewId = usize;

/// A window over the session's buffer: a window spec `(offset, size)`, the
/// bytes currently materialized in that window, and whether the viewport is
/// bound, that is registered for change notification.
#[derive(Debug)]
pub struct Viewport {
    /// The registration identifier, unique within the owning session.
    pub id: ViewId,
    /// Byte position where the window starts.
    pub offset: usize,
    /// Requested window size in bytes; retrieval clamps to available bytes.
    pub size: usize,
    /// The bytes currently in the window, kept fresh by the owning session.
    pub data: Vec<u8>,
    /// Whether the viewport is registered for change notification.
    pub bound: bool,
}

impl Viewport {
    /// The viewport's window shows exactly the clamped slice of `buf`.
    pub open spec fn windows(self, buf: Seq<u8>) -> bool {
        self.data@ == window_bytes(buf, self.offset as nat, self.size as nat)
    }

    /// Number of bytes currently materialized in the window: at most the
    /// requested size, fewer at end of buffer.
    pub fn len(&self) -> (n: usize)
        ensures
            n == self.data@.len(),
    {
        self.data.len()
    }

    /// The window's current content.
    pub fn data(&self) -> (b: &Vec<u8>)
        ensures
            b@ == self.data@,
    {
        &self.data
    }

    /// Decodes the window's current content as UTF-8; fails with
    /// `EditError::Decode` on invalid sequences, never substituting.
    pub fn as_text(&self) -> (r: Result<String, EditError>)
        ensures
            r is Ok <==> utf8_decoded(self.data@) is Some,
            r is Ok ==> Some(r.unwrap()@) == utf8_decoded(self.data@),
            r is Err ==> r == Err::<String, EditError>(EditError::Decode),
            self.data@.len() == 0 ==> r is Ok && r.unwrap()@ == Seq::<char>::empty(),
    {
        match decode_utf8(&self.data) {
            Some(s) => Ok(s),
            None => Err(EditError::Decode),
        }
    }
}

/// What UTF-8 decoding yields on a byte sequence: `Some` of the decoded
/// characters exactly on valid UTF-8 input, `None` otherwise.
pub uninterp spec fn utf8_decoded(bytes: Seq<u8>) -> Option<Seq<char>>;

/// Relies on `String::from_utf8`: it returns `Ok` exactly on valid UTF-8
/// input, the decoding depends on the bytes alone, and empty input decodes
/// to the empty string.
#[verifier::external_body]
fn decode_utf8(bytes: &Vec<u8>) -> (r: Option<String>)
    ensures
        r is Some <==> utf8_decoded(bytes@) is Some,
        r is Some ==> Some(r.unwrap()@) == utf8_decoded(bytes@),
        bytes@.len() == 0 ==> r is Some && r.unwrap()@ == Seq::<char>::empty(),
{
    String::from_utf8(bytes.clone()).ok()
}

} // verus!
