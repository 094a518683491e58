//! The mathematical model: what a window sees, what each mutation does to
//! the buffer, and which windows a mutation touches.

use vstd::prelude::*;

use crate::viewport::{ViewId, Viewport};

verus! {

/// The bytes a window `(offset, size)` sees over `buf`: the slice starting at
/// `offset`, clamped to the bytes the buffer actually has.
pub open spec fn window_bytes(buf: Seq<u8>, offset: nat, size: nat) -> Seq<u8> {
    if offset >= buf.len() {
        Seq::empty()
    } else if offset + size >= buf.len() {
        buf.subrange(offset as int, buf.len() as int)
    } else {
        buf.subrange(offset as int, (offset + size) as int)
    }
}

/// Buffer content after inserting `bytes` at `offset`.
pub open spec fn insert_bytes(buf: Seq<u8>, offset: nat, bytes: Seq<u8>) -> Seq<u8>
    recommends
        offset <= buf.len(),
{
    buf.subrange(0, offset as int) + bytes + buf.subrange(offset as int, buf.len() as int)
}

/// Buffer content after overwriting the bytes at `offset` in place.
pub open spec fn overwrite_bytes(buf: Seq<u8>, offset: nat, bytes: Seq<u8>) -> Seq<u8>
    recommends
        offset + bytes.len() <= buf.len(),
{
    buf.subrange(0, offset as int) + bytes + buf.subrange(
        (offset + bytes.len()) as int,
        buf.len() as int,
    )
}

/// Buffer content after deleting `count` bytes at `offset`.
pub open spec fn delete_bytes(buf: Seq<u8>, offset: nat, count: nat) -> Seq<u8>
    recommends
        offset + count <= buf.len(),
{
    buf.subrange(0, offset as int) + buf.subrange((offset + count) as int, buf.len() as int)
}

/// End of the half-open region `[offset, _)` of byte positions an insert
/// changes: the inserted bytes plus everything they shift, so all positions
/// up to the new end of the buffer.  An insert of nothing changes nothing.
pub open spec fn insert_region_end(buf_len: nat, offset: nat, count: nat) -> nat {
    if count == 0 {
        offset
    } else {
        buf_len + count
    }
}

/// End of the region an overwrite of `count` bytes at `offset` changes.
pub open spec fn overwrite_region_end(offset: nat, count: nat) -> nat {
    offset + count
}

/// End of the region a delete of `count` bytes at `offset` changes: the
/// remaining tail shifts, so all positions up to the old end of the buffer.
pub open spec fn delete_region_end(buf_len: nat, offset: nat, count: nat) -> nat {
    if count == 0 {
        offset
    } else {
        buf_len
    }
}

/// Whether the half-open window `[w_off, w_off + w_size)` meets the half-open
/// changed region `[lo, hi)`: both are non-empty and neither ends before the
/// other starts.
pub open spec fn overlaps(w_off: nat, w_size: nat, lo: nat, hi: nat) -> bool {
    w_size > 0 && lo < hi && w_off < hi && lo < w_off + w_size
}

/// Whether the viewport is notified of a change to the region `[lo, hi)`:
/// it is bound and its window meets the region.
pub open spec fn is_notified(v: Viewport, lo: nat, hi: nat) -> bool {
    v.bound && overlaps(v.offset as nat, v.size as nat, lo, hi)
}

/// The identifiers of the viewports in `views` that a change to `[lo, hi)`
/// notifies, in registry order.
pub open spec fn notified_ids(views: Seq<Viewport>, lo: nat, hi: nat) -> Seq<ViewId>
    decreases views.len(),
{
    if views.len() == 0 {
        Seq::empty()
    } else {
        let prefix = notified_ids(views.drop_last(), lo, hi);
        if is_notified(views.last(), lo, hi) {
            prefix.push(views.last().id)
        } else {
            prefix
        }
    }
}

/// The registry with every viewport of identifier `id` removed; the order of
/// the others is kept.
pub open spec fn without_id(views: Seq<Viewport>, id: ViewId) -> Seq<Viewport>
    decreases views.len(),
{
    if views.len() == 0 {
        Seq::empty()
    } else {
        let prefix = without_id(views.drop_last(), id);
        if views.last().id == id {
            prefix
        } else {
            prefix.push(views.last())
        }
    }
}

/// How often `id` occurs among the notified identifiers `ids`.
pub open spec fn occurrences(ids: Seq<ViewId>, id: ViewId) -> nat
    decreases ids.len(),
{
    if ids.len() == 0 {
        0
    } else {
        occurrences(ids.drop_last(), id) + if ids.last() == id {
            1nat
        } else {
            0nat
        }
    }
}

/// The registry after a mutation: every viewport keeps its identifier,
/// window spec and binding, and its materialized bytes are the clamped
/// window of the new buffer `buf`.
pub open spec fn refreshed(old_views: Seq<Viewport>, new_views: Seq<Viewport>, buf: Seq<u8>) -> bool {
    &&& new_views.len() == old_views.len()
    &&& forall|i: int|
        0 <= i < old_views.len() ==> {
            &&& (#[trigger] new_views[i]).id == old_views[i].id
            &&& new_views[i].offset == old_views[i].offset
            &&& new_views[i].size == old_views[i].size
            &&& new_views[i].bound == old_views[i].bound
            &&& new_views[i].windows(buf)
        }
}

} // verus!
