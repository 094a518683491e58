//! Laws: properties of the model that hold across operations.

use vstd::prelude::*;

use crate::model::{
    delete_bytes, insert_bytes, is_notified, notified_ids, occurrences, refreshed, window_bytes,
    without_id,
};
use crate::viewport::{ViewId, Viewport};

verus! {

/// A viewport whose identifier no registry entry carries is never notified:
/// once deregistration has removed its entry, no mutation's delivery
/// mentions it.
pub proof fn lemma_deregistered_never_notified(views: Seq<Viewport>, id: ViewId, lo: nat, hi: nat)
    requires
        forall|j: int| 0 <= j < views.len() ==> (#[trigger] views[j]).id != id,
    ensures
        occurrences(notified_ids(views, lo, hi), id) == 0,
    decreases views.len(),
{
    if views.len() > 0 {
        let prefix = views.drop_last();
        assert(forall|j: int| 0 <= j < prefix.len() ==> (#[trigger] prefix[j]).id != id);
        lemma_deregistered_never_notified(prefix, id, lo, hi);
        if is_notified(views.last(), lo, hi) {
            let s = notified_ids(prefix, lo, hi);
            assert(s.push(views.last().id).drop_last() =~= s);
        }
    }
}

/// After deregistering `id`, a mutation of any region delivers no
/// notification for it, whatever the registry held before.
pub proof fn lemma_closed_viewport_silent(views: Seq<Viewport>, id: ViewId, lo: nat, hi: nat)
    ensures
        occurrences(notified_ids(without_id(views, id), lo, hi), id) == 0,
{
    lemma_without_id_has_no_id(views, id);
    lemma_deregistered_never_notified(without_id(views, id), id, lo, hi);
}

/// Deregistration leaves no entry carrying the removed identifier.
pub proof fn lemma_without_id_has_no_id(views: Seq<Viewport>, id: ViewId)
    ensures
        forall|j: int|
            0 <= j < without_id(views, id).len() ==> (#[trigger] without_id(views, id)[j]).id != id,
    decreases views.len(),
{
    if views.len() > 0 {
        lemma_without_id_has_no_id(views.drop_last(), id);
        let w = without_id(views.drop_last(), id);
        if views.last().id != id {
            assert forall|j: int| 0 <= j < w.push(views.last()).len() implies (#[trigger] w.push(
                views.last(),
            )[j]).id != id by {
                if j < w.len() {
                    assert(w.push(views.last())[j] == w[j]);
                } else {
                    assert(w.push(views.last())[j] == views.last());
                }
            }
        }
    }
}

/// Who gets notified depends only on each viewport's identifier, window and
/// binding — never on the bytes its cache happens to hold.
pub proof fn lemma_notified_ids_ignore_data(a: Seq<Viewport>, b: Seq<Viewport>, lo: nat, hi: nat)
    requires
        a.len() == b.len(),
        forall|i: int|
            0 <= i < a.len() ==> (#[trigger] b[i]).id == a[i].id && b[i].offset == a[i].offset
                && b[i].size == a[i].size && b[i].bound == a[i].bound,
    ensures
        notified_ids(a, lo, hi) == notified_ids(b, lo, hi),
    decreases a.len(),
{
    if a.len() > 0 {
        assert(forall|i: int|
            0 <= i < a.drop_last().len() ==> (#[trigger] b.drop_last()[i]).id
                == a.drop_last()[i].id && b.drop_last()[i].offset == a.drop_last()[i].offset
                && b.drop_last()[i].size == a.drop_last()[i].size && b.drop_last()[i].bound
                == a.drop_last()[i].bound);
        lemma_notified_ids_ignore_data(a.drop_last(), b.drop_last(), lo, hi);
        assert(b.last() == b[a.len() - 1]);
    }
}

/// A bound viewport whose window meets the changed region is notified
/// exactly once per mutation, never more.
pub proof fn lemma_notified_exactly_once(views: Seq<Viewport>, lo: nat, hi: nat, i: int)
    requires
        forall|p: int, q: int|
            0 <= p < q < views.len() ==> (#[trigger] views[p]).id != (#[trigger] views[q]).id,
        0 <= i < views.len(),
        is_notified(views[i], lo, hi),
    ensures
        occurrences(notified_ids(views, lo, hi), views[i].id) == 1,
    decreases views.len(),
{
    let prefix = views.drop_last();
    if i == views.len() - 1 {
        assert(forall|j: int| 0 <= j < prefix.len() ==> (#[trigger] prefix[j]).id != views[i].id);
        lemma_deregistered_never_notified(prefix, views[i].id, lo, hi);
        let s = notified_ids(prefix, lo, hi);
        assert(s.push(views[i].id).drop_last() =~= s);
    } else {
        lemma_notified_exactly_once(prefix, lo, hi, i);
        if is_notified(views.last(), lo, hi) {
            let s = notified_ids(prefix, lo, hi);
            assert(s.push(views.last().id).drop_last() =~= s);
        }
    }
}

/// A viewport that is plain, or whose window misses the changed region, is
/// not notified by that mutation.
pub proof fn lemma_untouched_viewport_not_notified(views: Seq<Viewport>, lo: nat, hi: nat, i: int)
    requires
        forall|p: int, q: int|
            0 <= p < q < views.len() ==> (#[trigger] views[p]).id != (#[trigger] views[q]).id,
        0 <= i < views.len(),
        !is_notified(views[i], lo, hi),
    ensures
        occurrences(notified_ids(views, lo, hi), views[i].id) == 0,
    decreases views.len(),
{
    let prefix = views.drop_last();
    if i == views.len() - 1 {
        assert(forall|j: int| 0 <= j < prefix.len() ==> (#[trigger] prefix[j]).id != views[i].id);
        lemma_deregistered_never_notified(prefix, views[i].id, lo, hi);
    } else {
        lemma_untouched_viewport_not_notified(prefix, lo, hi, i);
        if is_notified(views.last(), lo, hi) {
            let s = notified_ids(prefix, lo, hi);
            assert(s.push(views.last().id).drop_last() =~= s);
        }
    }
}

/// What every mutation delivers, in one statement.  A mutation of the
/// region `[lo, hi)` leaves the registry `refreshed` against the new buffer
/// and returns `notified_ids`; this law says that therein a bound viewport
/// whose window meets the region is notified exactly once and its content is
/// the new buffer's clamped window, and every other viewport is notified not
/// at all.
pub proof fn lemma_delivery_exact(
    old_views: Seq<Viewport>,
    new_views: Seq<Viewport>,
    buf: Seq<u8>,
    lo: nat,
    hi: nat,
    i: int,
)
    requires
        forall|p: int, q: int|
            0 <= p < q < old_views.len() ==> (#[trigger] old_views[p]).id != (
            #[trigger] old_views[q]).id,
        refreshed(old_views, new_views, buf),
        0 <= i < new_views.len(),
    ensures
        is_notified(new_views[i], lo, hi) ==> occurrences(
            notified_ids(new_views, lo, hi),
            new_views[i].id,
        ) == 1,
        !is_notified(new_views[i], lo, hi) ==> occurrences(
            notified_ids(new_views, lo, hi),
            new_views[i].id,
        ) == 0,
        new_views[i].data@ == window_bytes(buf, new_views[i].offset as nat, new_views[i].size as nat),
{
    assert(forall|p: int, q: int|
        0 <= p < q < new_views.len() ==> (#[trigger] new_views[p]).id != (
        #[trigger] new_views[q]).id);
    if is_notified(new_views[i], lo, hi) {
        lemma_notified_exactly_once(new_views, lo, hi, i);
    } else {
        lemma_untouched_viewport_not_notified(new_views, lo, hi, i);
    }
}

/// What a window materializes is exact: at most `size` bytes, fewer only
/// when the buffer has fewer than `size` bytes from `offset` onward, and
/// each byte is the buffer's byte at the corresponding position.
pub proof fn lemma_window_bytes_exact(buf: Seq<u8>, offset: nat, size: nat)
    ensures
        window_bytes(buf, offset, size).len() <= size,
        offset + size <= buf.len() ==> window_bytes(buf, offset, size).len() == size,
        offset <= buf.len() && offset + size > buf.len() ==> window_bytes(buf, offset, size).len()
            == buf.len() - offset,
        offset > buf.len() ==> window_bytes(buf, offset, size).len() == 0,
        forall|k: int|
            0 <= k < window_bytes(buf, offset, size).len() ==> window_bytes(buf, offset, size)[k]
                == buf[offset + k],
{
}

/// Round trip: inserting `bytes` at `offset` and then deleting that many
/// bytes at `offset` restores the buffer, and with it the content of every
/// window.
pub proof fn lemma_insert_then_delete_restores(buf: Seq<u8>, offset: nat, bytes: Seq<u8>)
    requires
        offset <= buf.len(),
    ensures
        delete_bytes(insert_bytes(buf, offset, bytes), offset, bytes.len()) == buf,
        forall|w_off: nat, w_size: nat|
            #[trigger] window_bytes(
                delete_bytes(insert_bytes(buf, offset, bytes), offset, bytes.len()),
                w_off,
                w_size,
            ) == window_bytes(buf, w_off, w_size),
{
    assert(delete_bytes(insert_bytes(buf, offset, bytes), offset, bytes.len()) =~= buf);
}

/// Removing an identifier that no registered viewport carries leaves the
/// registry as it was.
pub proof fn lemma_without_id_absent(views: Seq<Viewport>, id: ViewId)
    requires
        forall|j: int| 0 <= j < views.len() ==> (#[trigger] views[j]).id != id,
    ensures
        without_id(views, id) == views,
    decreases views.len(),
{
    if views.len() == 0 {
        assert(without_id(views, id) =~= views);
    } else {
        assert(forall|j: int|
            0 <= j < views.drop_last().len() ==> (#[trigger] views.drop_last()[j]).id != id);
        lemma_without_id_absent(views.drop_last(), id);
        assert(without_id(views, id) =~= views);
    }
}

/// Deregistering the one viewport that carries `id` removes exactly its
/// entry: the registry becomes the old registry with that index removed,
/// every other entry kept in order.
pub proof fn lemma_without_id_removes_index(views: Seq<Viewport>, id: ViewId, idx: int)
    requires
        0 <= idx < views.len(),
        views[idx].id == id,
        forall|j: int| 0 <= j < views.len() && j != idx ==> (#[trigger] views[j]).id != id,
    ensures
        without_id(views, id) == views.remove(idx),
    decreases views.len(),
{
    if idx == views.len() - 1 {
        assert(forall|j: int|
            0 <= j < views.drop_last().len() ==> (#[trigger] views.drop_last()[j]).id != id);
        lemma_without_id_absent(views.drop_last(), id);
        assert(without_id(views, id) =~= views.remove(idx));
    } else {
        assert(forall|j: int|
            0 <= j < views.drop_last().len() && j != idx ==> (#[trigger] views.drop_last()[j]).id
                != id);
        lemma_without_id_removes_index(views.drop_last(), id, idx);
        assert(without_id(views, id) =~= views.remove(idx));
    }
}

/// A window of size zero materializes no bytes, wherever it is positioned:
/// repositioning a viewport to any `(offset, 0)` yields empty content, never
/// an error.
pub proof fn lemma_empty_window(buf: Seq<u8>, offset: nat)
    ensures
        window_bytes(buf, offset, 0) == Seq::<u8>::empty(),
{
    assert(window_bytes(buf, offset, 0) =~= Seq::<u8>::empty());
}

} // verus!
