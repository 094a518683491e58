//! Sessions: the owner of the engine connection, the buffer, and the
//! viewport registry.

use vstd::prelude::*;

use crate::errors::EditError;
use crate::laws::lemma_without_id_removes_index;
use crate::model::{
    delete_bytes, delete_region_end, insert_bytes, insert_region_end, notified_ids, overlaps,
    overwrite_bytes, overwrite_region_end, refreshed, window_bytes, without_id,
};
use crate::viewport::{ViewId, Viewport};

verus! {

/// Copies the clamped window `(offset, size)` out of `buf`.
fn fill_window(buf: &Vec<u8>, offset: usize, size: usize) -> (w: Vec<u8>)
    ensures
        w@ == window_bytes(buf@, offset as nat, size as nat),
{
    let mut w: Vec<u8> = Vec::new();
    if offset >= buf.len() {
        assert(w@ =~= window_bytes(buf@, offset as nat, size as nat));
        return w;
    }
    let avail = buf.len() - offset;
    let count = if size < avail {
        size
    } else {
        avail
    };
    let mut i: usize = 0;
    while i < count
        invariant
            count <= avail,
            avail == buf@.len() - offset,
            offset + count <= buf@.len(),
            buf@.len() <= usize::MAX,
            offset < buf@.len(),
            i <= count,
            w@ == buf@.subrange(offset as int, offset + i),
        decreases count - i,
    {
        w.push(buf[offset + i]);
        assert(w@ =~= buf@.subrange(offset as int, offset + i + 1));
        i += 1;
    }
    assert(w@ =~= window_bytes(buf@, offset as nat, size as nat));
    w
}

/// Whether the window `[w_off, w_off + w_size)` meets the region `[lo, hi)`.
fn window_overlaps(w_off: usize, w_size: usize, lo: usize, hi: usize) -> (r: bool)
    ensures
        r == overlaps(w_off as nat, w_size as nat, lo as nat, hi as nat),
{
    w_size > 0 && lo < hi && w_off < hi && (lo < w_off || lo - w_off < w_size)
}

/// The buffer with its bytes at `[start, start + remove)` replaced by
/// `payload`; every mutation is an instance of this shape.
fn replace_range(buf: &Vec<u8>, start: usize, remove: usize, payload: &Vec<u8>) -> (r: Vec<u8>)
    requires
        start + remove <= buf@.len(),
    ensures
        r@ == buf@.subrange(0, start as int) + payload@ + buf@.subrange(
            (start + remove) as int,
            buf@.len() as int,
        ),
{
    let mut r: Vec<u8> = Vec::new();
    let buf_len = buf.len();
    let payload_len = payload.len();
    assert(buf@.len() == buf_len && payload@.len() == payload_len);
    let mut i: usize = 0;
    while i < start
        invariant
            i <= start,
            start + remove <= buf@.len(),
            buf@.len() <= usize::MAX,
            r@ == buf@.subrange(0, i as int),
        decreases start - i,
    {
        r.push(buf[i]);
        assert(r@ =~= buf@.subrange(0, i + 1));
        i += 1;
    }
    let mut j: usize = 0;
    while j < payload.len()
        invariant
            j <= payload@.len(),
            payload@.len() <= usize::MAX,
            start <= buf@.len(),
            r@ == buf@.subrange(0, start as int) + payload@.subrange(0, j as int),
        decreases payload@.len() - j,
    {
        r.push(payload[j]);
        assert(r@ =~= buf@.subrange(0, start as int) + payload@.subrange(0, j + 1));
        j += 1;
    }
    assert(payload@.subrange(0, payload@.len() as int) =~= payload@);
    assert(r@ =~= buf@.subrange(0, start as int) + payload@ + buf@.subrange(
        (start + remove) as int,
        (start + remove) as int,
    ));
    let mut k: usize = start + remove;
    while k < buf.len()
        invariant
            start + remove <= k <= buf@.len(),
            buf@.len() <= usize::MAX,
            r@ == buf@.subrange(0, start as int) + payload@ + buf@.subrange(
                (start + remove) as int,
                k as int,
            ),
        decreases buf@.len() - k,
    {
        r.push(buf[k]);
        assert(r@ =~= buf@.subrange(0, start as int) + payload@ + buf@.subrange(
            (start + remove) as int,
            k + 1,
        ));
        k += 1;
    }
    r
}

/// A session: one connection to the buffer engine, the buffer's content, an
/// ordered registry of every open viewport (registration order, stable), and
/// the next registration identifier to hand out.
pub struct Session {
    /// The buffer's current content.
    pub buffer: Vec<u8>,
    /// Every open viewport, in registration order.  The session is the sole
    /// owner; callers hold only `ViewId` handles resolved through it.
    pub views: Vec<Viewport>,
    /// The next registration identifier; never reused within a session.
    pub next_id: usize,
    /// Whether the engine connection is still open; teardown clears it.
    pub connected: bool,
}

impl Session {
    /// Well-formedness: every viewport shows the clamped window of the
    /// current buffer, identifiers are unique and below `next_id`, and a
    /// torn-down session has no viewports left.
    pub open spec fn wf(self) -> bool {
        &&& forall|i: int|
            0 <= i < self.views@.len() ==> (#[trigger] self.views@[i]).windows(self.buffer@)
        &&& forall|i: int| 0 <= i < self.views@.len() ==> (#[trigger] self.views@[i]).id < self.next_id
        &&& forall|i: int, j: int|
            0 <= i < j < self.views@.len() ==> (#[trigger] self.views@[i]).id != (
            #[trigger] self.views@[j]).id
        &&& !self.connected ==> self.views@.len() == 0
    }

    /// The buffer's content, as the model sees it.
    pub open spec fn content(self) -> Seq<u8> {
        self.buffer@
    }

    /// Whether a viewport with identifier `id` is registered.
    pub open spec fn has_view(self, id: ViewId) -> bool {
        exists|i: int| 0 <= i < self.views@.len() && (#[trigger] self.views@[i]).id == id
    }

    /// Opens a connection to the engine with no initial content.
    pub fn new() -> (s: Session)
        ensures
            s.wf(),
            s.connected,
            s.content() == Seq::<u8>::empty(),
            s.views@ == Seq::<Viewport>::empty(),
            s.next_id == 0,
    {
        Session { buffer: Vec::new(), views: Vec::new(), next_id: 0, connected: true }
    }

    /// Opens a connection to the engine seeded with `content`.
    pub fn from_bytes(content: Vec<u8>) -> (s: Session)
        ensures
            s.wf(),
            s.connected,
            s.content() == content@,
            s.views@ == Seq::<Viewport>::empty(),
            s.next_id == 0,
    {
        Session { buffer: content, views: Vec::new(), next_id: 0, connected: true }
    }

    /// Opens a viewport over the window `(offset, size)`, back-filled with
    /// the buffer's current bytes in that range.  `bound` registers it for
    /// change notification.
    fn open_viewport(&mut self, offset: usize, size: usize, bound: bool) -> (r: Result<
        ViewId,
        EditError,
    >)
        requires
            old(self).wf(),
            old(self).next_id < usize::MAX,
        ensures
            final(self).wf(),
            !old(self).connected ==> r == Err::<ViewId, EditError>(EditError::SessionClosed)
                && *final(self) == *old(self),
            old(self).connected ==> {
                &&& r == Ok::<ViewId, EditError>(old(self).next_id)
                &&& final(self).views@.len() == old(self).views@.len() + 1
                &&& forall|j: int|
                    0 <= j < old(self).views@.len() ==> final(self).views@[j] == old(self).views@[j]
                &&& final(self).views@.last().id == old(self).next_id
                &&& final(self).views@.last().offset == offset
                &&& final(self).views@.last().size == size
                &&& final(self).views@.last().bound == bound
                &&& final(self).views@.last().windows(old(self).buffer@)
                &&& final(self).buffer@ == old(self).buffer@
                &&& final(self).next_id == old(self).next_id + 1
                &&& final(self).connected
            },
    {
        if !self.connected {
            return Err(EditError::SessionClosed);
        }
        let id = self.next_id;
        let data = fill_window(&self.buffer, offset, size);
        let vp = Viewport { id, offset, size, data, bound };
        self.views.push(vp);
        self.next_id = id + 1;
        Ok(id)
    }

    /// Opens a plain viewport: no notification registration; the caller only
    /// reads it.
    pub fn view(&mut self, offset: usize, size: usize) -> (r: Result<ViewId, EditError>)
        requires
            old(self).wf(),
            old(self).next_id < usize::MAX,
        ensures
            final(self).wf(),
            !old(self).connected ==> r == Err::<ViewId, EditError>(EditError::SessionClosed)
                && *final(self) == *old(self),
            old(self).connected ==> {
                &&& r == Ok::<ViewId, EditError>(old(self).next_id)
                &&& final(self).views@.len() == old(self).views@.len() + 1
                &&& forall|j: int|
                    0 <= j < old(self).views@.len() ==> final(self).views@[j] == old(self).views@[j]
                &&& final(self).views@.last().id == old(self).next_id
                &&& final(self).views@.last().offset == offset
                &&& final(self).views@.last().size == size
                &&& final(self).views@.last().bound == false
                &&& final(self).views@.last().windows(old(self).buffer@)
                &&& final(self).buffer@ == old(self).buffer@
                &&& final(self).next_id == old(self).next_id + 1
                &&& final(self).connected
            },
    {
        self.open_viewport(offset, size, false)
    }

    /// Opens a bound viewport: it is registered for change notification, and
    /// the registry keeps it reachable until it is deregistered or the
    /// session is torn down.
    pub fn view_cb(&mut self, offset: usize, size: usize) -> (r: Result<ViewId, EditError>)
        requires
            old(self).wf(),
            old(self).next_id < usize::MAX,
        ensures
            final(self).wf(),
            !old(self).connected ==> r == Err::<ViewId, EditError>(EditError::SessionClosed)
                && *final(self) == *old(self),
            old(self).connected ==> {
                &&& r == Ok::<ViewId, EditError>(old(self).next_id)
                &&& final(self).views@.len() == old(self).views@.len() + 1
                &&& forall|j: int|
                    0 <= j < old(self).views@.len() ==> final(self).views@[j] == old(self).views@[j]
                &&& final(self).views@.last().id == old(self).next_id
                &&& final(self).views@.last().offset == offset
                &&& final(self).views@.last().size == size
                &&& final(self).views@.last().bound == true
                &&& final(self).views@.last().windows(old(self).buffer@)
                &&& final(self).buffer@ == old(self).buffer@
                &&& final(self).next_id == old(self).next_id + 1
                &&& final(self).connected
            },
    {
        self.open_viewport(offset, size, true)
    }

    /// The registry index holding the viewport with identifier `h`, if any.
    fn find_view_index(&self, h: ViewId) -> (r: Option<usize>)
        ensures
            r is Some ==> r.unwrap() < self.views@.len() && self.views@[r.unwrap() as int].id == h,
            r is None ==> forall|j: int| 0 <= j < self.views@.len() ==> (#[trigger] self.views@[j]).id
                != h,
            r is Some <==> self.has_view(h),
    {
        let n = self.views.len();
        let mut i: usize = 0;
        while i < n
            invariant
                n == self.views@.len(),
                i <= n,
                forall|j: int| 0 <= j < i ==> (#[trigger] self.views@[j]).id != h,
            decreases n - i,
        {
            if self.views[i].id == h {
                return Some(i);
            }
            i += 1;
        }
        None
    }

    /// Resolves a handle to its viewport, as the change bridge does for an
    /// engine-originated notification.
    pub fn viewport(&self, h: ViewId) -> (r: Result<&Viewport, EditError>)
        requires
            self.wf(),
        ensures
            !self.connected ==> r == Err::<&Viewport, EditError>(EditError::SessionClosed),
            self.connected && !self.has_view(h) ==> r == Err::<&Viewport, EditError>(
                EditError::UnknownViewport,
            ),
            self.connected && self.has_view(h) ==> r is Ok && r.unwrap().id == h
                && self.views@.contains(*r.unwrap()),
    {
        if !self.connected {
            return Err(EditError::SessionClosed);
        }
        match self.find_view_index(h) {
            Some(i) => Ok(&self.views[i]),
            None => Err(EditError::UnknownViewport),
        }
    }

    /// The change bridge: after the buffer changed on `[lo, hi)`, recomputes
    /// every open viewport's window from the current buffer and resolves the
    /// change to the identifiers of the bound viewports whose window it
    /// meets, in registry order — each exactly once.  The notified
    /// identifiers are handed back to the caller of the mutation once the
    /// mutation is complete, so a notification handler can never re-enter
    /// the session while it mutates.
    fn bridge_deliver(&mut self, lo: usize, hi: usize) -> (events: Vec<ViewId>)
        ensures
            final(self).buffer@ == old(self).buffer@,
            final(self).next_id == old(self).next_id,
            final(self).connected == old(self).connected,
            refreshed(old(self).views@, final(self).views@, old(self).buffer@),
            events@ == notified_ids(final(self).views@, lo as nat, hi as nat),
    {
        let mut events: Vec<ViewId> = Vec::new();
        let n = self.views.len();
        let mut i: usize = 0;
        while i < n
            invariant
                n == self.views@.len(),
                i <= n,
                self.buffer@ == old(self).buffer@,
                self.next_id == old(self).next_id,
                self.connected == old(self).connected,
                self.views@.len() == old(self).views@.len(),
                forall|j: int| i <= j < n ==> self.views@[j] == old(self).views@[j],
                refreshed(
                    old(self).views@.take(i as int),
                    self.views@.take(i as int),
                    old(self).buffer@,
                ),
                events@ == notified_ids(self.views@.take(i as int), lo as nat, hi as nat),
            decreases n - i,
        {
            let ghost vs0 = self.views@;
            let off = self.views[i].offset;
            let size = self.views[i].size;
            let bnd = self.views[i].bound;
            let vid = self.views[i].id;
            let w = fill_window(&self.buffer, off, size);
            let vref = &mut self.views[i];
            vref.data = w;
            proof {
                let vs1 = self.views@;
                assert(vs1.take(i as int) =~= vs0.take(i as int));
                assert(vs1.take(i + 1).drop_last() =~= vs1.take(i as int));
                assert(vs1.take(i + 1).last() == vs1[i as int]);
            }
            if bnd && window_overlaps(off, size, lo, hi) {
                events.push(vid);
            }
            i += 1;
        }
        proof {
            assert(self.views@.take(n as int) =~= self.views@);
            assert(old(self).views@.take(n as int) =~= old(self).views@);
        }
        events
    }

    /// Inserts `bytes` at `offset`, shifting the tail of the buffer.  The
    /// mutation is atomic: on an invalid range nothing changes and nothing
    /// is notified.  On success every viewport's window is refreshed and the
    /// identifiers of the bound viewports whose window meets the changed
    /// region come back in registry order, each exactly once.
    pub fn insert(&mut self, bytes: &Vec<u8>, offset: usize) -> (r: Result<Vec<ViewId>, EditError>)
        requires
            old(self).wf(),
        ensures
            final(self).wf(),
            !old(self).connected ==> r == Err::<Vec<ViewId>, EditError>(EditError::SessionClosed)
                && *final(self) == *old(self),
            old(self).connected && offset > old(self).buffer@.len() ==> r == Err::<
                Vec<ViewId>,
                EditError,
            >(EditError::EngineMutation) && *final(self) == *old(self),
            old(self).connected && offset <= old(self).buffer@.len() ==> {
                &&& r is Ok
                &&& final(self).buffer@ == insert_bytes(old(self).buffer@, offset as nat, bytes@)
                &&& refreshed(old(self).views@, final(self).views@, final(self).buffer@)
                &&& r.unwrap()@ == notified_ids(
                    final(self).views@,
                    offset as nat,
                    insert_region_end(old(self).buffer@.len(), offset as nat, bytes@.len()),
                )
                &&& final(self).connected
                &&& final(self).next_id == old(self).next_id
            },
    {
        if !self.connected {
            return Err(EditError::SessionClosed);
        }
        if offset > self.buffer.len() {
            return Err(EditError::EngineMutation);
        }
        let new_buf = replace_range(&self.buffer, offset, 0, bytes);
        self.buffer = new_buf;
        let hi = if bytes.len() == 0 {
            offset
        } else {
            self.buffer.len()
        };
        let events = self.bridge_deliver(offset, hi);
        Ok(events)
    }

    /// Inserts `bytes` at the front of the buffer.
    pub fn push(&mut self, bytes: &Vec<u8>) -> (r: Result<Vec<ViewId>, EditError>)
        requires
            old(self).wf(),
        ensures
            final(self).wf(),
            !old(self).connected ==> r == Err::<Vec<ViewId>, EditError>(EditError::SessionClosed)
                && *final(self) == *old(self),
            old(self).connected ==> {
                &&& r is Ok
                &&& final(self).buffer@ == insert_bytes(old(self).buffer@, 0, bytes@)
                &&& refreshed(old(self).views@, final(self).views@, final(self).buffer@)
                &&& r.unwrap()@ == notified_ids(
                    final(self).views@,
                    0,
                    insert_region_end(old(self).buffer@.len(), 0, bytes@.len()),
                )
                &&& final(self).connected
                &&& final(self).next_id == old(self).next_id
            },
    {
        self.insert(bytes, 0)
    }

    /// Overwrites the bytes at `[offset, offset + bytes.len())` in place.
    /// Atomic: on an invalid range nothing changes and nothing is notified.
    pub fn overwrite(&mut self, bytes: &Vec<u8>, offset: usize) -> (r: Result<
        Vec<ViewId>,
        EditError,
    >)
        requires
            old(self).wf(),
        ensures
            final(self).wf(),
            !old(self).connected ==> r == Err::<Vec<ViewId>, EditError>(EditError::SessionClosed)
                && *final(self) == *old(self),
            old(self).connected && offset + bytes@.len() > old(self).buffer@.len() ==> r == Err::<
                Vec<ViewId>,
                EditError,
            >(EditError::EngineMutation) && *final(self) == *old(self),
            old(self).connected && offset + bytes@.len() <= old(self).buffer@.len() ==> {
                &&& r is Ok
                &&& final(self).buffer@ == overwrite_bytes(old(self).buffer@, offset as nat, bytes@)
                &&& refreshed(old(self).views@, final(self).views@, final(self).buffer@)
                &&& r.unwrap()@ == notified_ids(
                    final(self).views@,
                    offset as nat,
                    overwrite_region_end(offset as nat, bytes@.len()),
                )
                &&& final(self).connected
                &&& final(self).next_id == old(self).next_id
            },
    {
        if !self.connected {
            return Err(EditError::SessionClosed);
        }
        if bytes.len() > self.buffer.len() || offset > self.buffer.len() - bytes.len() {
            return Err(EditError::EngineMutation);
        }
        let new_buf = replace_range(&self.buffer, offset, bytes.len(), bytes);
        self.buffer = new_buf;
        let events = self.bridge_deliver(offset, offset + bytes.len());
        Ok(events)
    }

    /// Deletes `count` bytes at `offset`, shifting the tail of the buffer.
    /// Atomic: on an invalid range nothing changes and nothing is notified.
    pub fn delete(&mut self, offset: usize, count: usize) -> (r: Result<Vec<ViewId>, EditError>)
        requires
            old(self).wf(),
        ensures
            final(self).wf(),
            !old(self).connected ==> r == Err::<Vec<ViewId>, EditError>(EditError::SessionClosed)
                && *final(self) == *old(self),
            old(self).connected && offset + count > old(self).buffer@.len() ==> r == Err::<
                Vec<ViewId>,
                EditError,
            >(EditError::EngineMutation) && *final(self) == *old(self),
            old(self).connected && offset + count <= old(self).buffer@.len() ==> {
                &&& r is Ok
                &&& final(self).buffer@ == delete_bytes(old(self).buffer@, offset as nat, count as nat)
                &&& refreshed(old(self).views@, final(self).views@, final(self).buffer@)
                &&& r.unwrap()@ == notified_ids(
                    final(self).views@,
                    offset as nat,
                    delete_region_end(old(self).buffer@.len(), offset as nat, count as nat),
                )
                &&& final(self).connected
                &&& final(self).next_id == old(self).next_id
            },
    {
        if !self.connected {
            return Err(EditError::SessionClosed);
        }
        if count > self.buffer.len() || offset > self.buffer.len() - count {
            return Err(EditError::EngineMutation);
        }
        let empty: Vec<u8> = Vec::new();
        let new_buf = replace_range(&self.buffer, offset, count, &empty);
        self.buffer = new_buf;
        let hi = if count == 0 {
            offset
        } else {
            self.buffer.len() + count
        };
        let events = self.bridge_deliver(offset, hi);
        Ok(events)
    }

    /// The buffer's current length in bytes.
    pub fn length(&self) -> (r: Result<usize, EditError>)
        ensures
            self.connected ==> r == Ok::<usize, EditError>(self.buffer.len()),
            !self.connected ==> r == Err::<usize, EditError>(EditError::SessionClosed),
    {
        if !self.connected {
            return Err(EditError::SessionClosed);
        }
        Ok(self.buffer.len())
    }

    /// Deregisters the viewport with handle `h`: the registration is removed
    /// from the engine and from the registry before the call returns, so no
    /// later mutation notifies it.  Deregistration is the only path that
    /// releases a single viewport; the order of the others is kept.
    pub fn close_view(&mut self, h: ViewId) -> (r: Result<(), EditError>)
        requires
            old(self).wf(),
        ensures
            final(self).wf(),
            !old(self).connected ==> r == Err::<(), EditError>(EditError::SessionClosed) && *final(self) == *old(self),
            old(self).connected && !old(self).has_view(h) ==> r == Err::<(), EditError>(
                EditError::UnknownViewport,
            ) && *final(self) == *old(self),
            old(self).connected && old(self).has_view(h) ==> {
                &&& r is Ok
                &&& final(self).views@ == without_id(old(self).views@, h)
                &&& !final(self).has_view(h)
                &&& final(self).buffer@ == old(self).buffer@
                &&& final(self).next_id == old(self).next_id
                &&& final(self).connected
            },
    {
        if !self.connected {
            return Err(EditError::SessionClosed);
        }
        match self.find_view_index(h) {
            Some(i) => {
                proof {
                    lemma_without_id_removes_index(self.views@, h, i as int);
                }
                self.views.remove(i);
                Ok(())
            },
            None => Err(EditError::UnknownViewport),
        }
    }

    /// Repositions the viewport with handle `h` to the window
    /// `(offset, size)` and recomputes its bytes from the current buffer at
    /// once, not lazily.  Every other viewport is untouched.
    pub fn update_view(&mut self, h: ViewId, offset: usize, size: usize) -> (r: Result<
        (),
        EditError,
    >)
        requires
            old(self).wf(),
        ensures
            final(self).wf(),
            !old(self).connected ==> r == Err::<(), EditError>(EditError::SessionClosed) && *final(self) == *old(self),
            old(self).connected && !old(self).has_view(h) ==> r == Err::<(), EditError>(
                EditError::UnknownViewport,
            ) && *final(self) == *old(self),
            old(self).connected && old(self).has_view(h) ==> {
                &&& r is Ok
                &&& final(self).views@.len() == old(self).views@.len()
                &&& forall|j: int|
                    0 <= j < old(self).views@.len() && old(self).views@[j].id != h ==> final(self).views@[j] == old(self).views@[j]
                &&& forall|j: int|
                    0 <= j < old(self).views@.len() && old(self).views@[j].id == h ==> {
                        &&& (#[trigger] final(self).views@[j]).id == h
                        &&& final(self).views@[j].bound == old(self).views@[j].bound
                        &&& final(self).views@[j].offset == offset
                        &&& final(self).views@[j].size == size
                        &&& final(self).views@[j].windows(old(self).buffer@)
                    }
                &&& final(self).buffer@ == old(self).buffer@
                &&& final(self).next_id == old(self).next_id
                &&& final(self).connected
            },
    {
        if !self.connected {
            return Err(EditError::SessionClosed);
        }
        match self.find_view_index(h) {
            Some(i) => {
                let data = fill_window(&self.buffer, offset, size);
                let vref = &mut self.views[i];
                vref.offset = offset;
                vref.size = size;
                vref.data = data;
                Ok(())
            },
            None => Err(EditError::UnknownViewport),
        }
    }

    /// Tears the session down: deregisters and releases every viewport
    /// first, then the engine connection.  Safe to call more than once;
    /// every later operation fails with `EditError::SessionClosed`.
    pub fn destroy(&mut self)
        ensures
            final(self).wf(),
            !final(self).connected,
            final(self).views@ == Seq::<Viewport>::empty(),
            final(self).buffer@ == Seq::<u8>::empty(),
            final(self).next_id == old(self).next_id,
    {
        self.views = Vec::new();
        self.buffer = Vec::new();
        self.connected = false;
    }
}

} // verus!
