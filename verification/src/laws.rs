//! The library's cross-call guarantees, stated and proved over the same
//! models that the handle operations' contracts use: what a sequence of
//! open, read, write and close calls does to a registry view.

use vstd::prelude::*;
use crate::link::{queue_after_recv, queue_after_send, LinkModel};
use crate::registry::{is_live, lb_can_read, model_at, splice_at};

verus! {

/// Opening a handle and then closing it leaves that handle dead and every
/// slot that existed before exactly as it was: the close releases what the
/// open created and disturbs nothing else.
pub proof fn lemma_open_then_close(v: Seq<Option<LinkModel>>, m: LinkModel)
    ensures
        ({
            let opened = v.push(Some(m));
            let h = v.len() as int;
            let closed = opened.update(h, None);
            &&& is_live(opened, h)
            &&& model_at(opened, h) == m
            &&& !is_live(closed, h)
            &&& closed.len() == opened.len()
            &&& forall|j: int| 0 <= j < v.len() ==> #[trigger] closed[j] == v[j]
        }),
{
}

/// Round-trip fidelity on a loopback medium: a frame of length `L` written
/// to a fresh medium is the next frame read, with exactly its `L` bytes, and
/// copying it into any large-enough buffer reproduces it; afterwards the
/// medium is empty again.
pub proof fn lemma_loopback_round_trip(f: Seq<u8>, dst: Seq<u8>, off: int)
    requires
        0 <= off,
        off + f.len() <= dst.len(),
    ensures
        ({
            let q = queue_after_send(Seq::<Seq<u8>>::empty(), f);
            &&& lb_can_read(q, dst.len() as int, off)
            &&& q[0] == f
            &&& q[0].len() == f.len()
            &&& splice_at(dst, off, q[0]).subrange(off, off + f.len() as int) == f
            &&& queue_after_recv(q).len() == 0
        }),
{
    let q = queue_after_send(Seq::<Seq<u8>>::empty(), f);
    assert(splice_at(dst, off, q[0]).subrange(off, off + f.len() as int) =~= f);
}

/// With no frame pending, a receive attempt is refused as a timeout and
/// leaves the queue empty, so a second attempt on the same handle is refused
/// in exactly the same way; neither attempt harms the handle.
pub proof fn lemma_timeout_repeats(q: Seq<Seq<u8>>, dst_len: int, off: int)
    requires
        q.len() == 0,
    ensures
        !lb_can_read(q, dst_len, off),
        queue_after_recv(q) == q,
        !lb_can_read(queue_after_recv(q), dst_len, off),
{
}

/// Handle reuse: a read or write borrows the handle, it never consumes it.
/// Each operation on a live handle yields a registry in which that same
/// handle is live again, with the operation's resulting channel model, and
/// every other slot untouched — so a second read or write on the same handle
/// value is accepted just like the first.
pub proof fn lemma_handle_reuse(v: Seq<Option<LinkModel>>, h: int, m2: LinkModel)
    requires
        is_live(v, h),
    ensures
        ({
            let after = v.update(h, Some(m2));
            &&& is_live(after, h)
            &&& model_at(after, h) == m2
            &&& after.len() == v.len()
            &&& forall|j: int| 0 <= j < v.len() && j != h ==> #[trigger] after[j] == v[j]
        }),
{
}

/// A closed handle stays dead: after a close the slot holds nothing, and
/// every operation's contract answers `InvalidHandle` on a dead handle, so a
/// closed handle value can never again reach a channel.
pub proof fn lemma_closed_stays_dead(v: Seq<Option<LinkModel>>, h: int)
    requires
        0 <= h < v.len(),
    ensures
        !is_live(v.update(h, None), h),
{
}

} // verus!
