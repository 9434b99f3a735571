//! The raw-socket handle registry: hands out opaque handle values, keeps the
//! socket behind each value alive and stable across any number of read and
//! write calls, and releases it only on an explicit close.

use vstd::prelude::*;
use crate::errors::SockError;
use crate::link::{
    Link, LinkModel, model_after_recv, model_after_send, open_device,
};
use crate::resolve::{absent, enumerate_interfaces, found_at, resolve};

verus! {

/// The receive timeout, in seconds, of every channel this registry opens.
pub const RECV_TIMEOUT_SECS: u64 = 1;

/// One raw socket: the long-lived unit owning exactly one link channel,
/// created at open and destroyed only by an explicit close.
pub struct RawSock {
    link: Link,
}

impl View for RawSock {
    type V = LinkModel;

    closed spec fn view(&self) -> LinkModel {
        self.link@
    }
}

impl RawSock {
    /// Wraps one link channel as a raw socket.
    pub fn new(link: Link) -> (s: RawSock)
        ensures
            s@ == link@,
    {
        RawSock { link }
    }
}

/// The handle value `h` refers to a live, open handle of the registry view
/// `v`.
pub open spec fn is_live(v: Seq<Option<LinkModel>>, h: int) -> bool {
    0 <= h < v.len() && v[h] is Some
}

/// The channel model behind a live handle.
pub open spec fn model_at(v: Seq<Option<LinkModel>>, h: int) -> LinkModel {
    v[h]->Some_0
}

/// `dst` with `src` written over the range starting at `off`; every byte
/// outside that range keeps its old value.
pub open spec fn splice_at(dst: Seq<u8>, off: int, src: Seq<u8>) -> Seq<u8> {
    Seq::new(
        dst.len(),
        |k: int|
            if off <= k < off + src.len() {
                src[k - off]
            } else {
                dst[k]
            },
    )
}

/// A receive on the pending queue `q` is owed a frame that fits: a frame is
/// pending and lies within the destination range.
pub open spec fn lb_can_read(q: Seq<Seq<u8>>, dst_len: int, off: int) -> bool {
    q.len() > 0 && off + q[0].len() <= dst_len
}

/// The frames a receive on a channel of model `m` can yield: on a loopback
/// medium exactly the oldest pending frame; on a device channel the wire
/// decides, so any frame.
pub open spec fn recv_yields(m: LinkModel, f: Seq<u8>) -> bool {
    match m {
        LinkModel::Device => true,
        LinkModel::Loopback(q) => q.len() > 0 && f == q[0],
    }
}

/// The registry of every handle this process has opened. Its view has one
/// slot per handle value ever handed out: a live slot holds the model of its
/// channel, a closed slot holds nothing. Slot positions never move, so a
/// handle value keeps referring to the same socket from open to close.
pub struct Registry {
    slots: Vec<Option<RawSock>>,
}

impl View for Registry {
    type V = Seq<Option<LinkModel>>;

    closed spec fn view(&self) -> Seq<Option<LinkModel>> {
        self.slots@.map_values(
            |s: Option<RawSock>|
                match s {
                    Some(sock) => Some(sock@),
                    None => None,
                },
        )
    }
}

impl Registry {
    /// A registry with no handles.
    pub fn new() -> (r: Registry)
        ensures
            r@ == Seq::<Option<LinkModel>>::empty(),
    {
        let r = Registry { slots: Vec::new() };
        proof {
            assert(r@ =~= Seq::<Option<LinkModel>>::empty());
        }
        r
    }

    /// Opens a handle over a fresh loopback medium: the test double on which
    /// both sides of a read/write exchange share one simulated wire.
    pub fn open_loopback(&mut self) -> (h: usize)
        ensures
            h == old(self)@.len(),
            final(self)@ == old(self)@.push(Some(LinkModel::Loopback(Seq::<Seq<u8>>::empty()))),
    {
        let h = self.slots.len();
        self.slots.push(Some(RawSock::new(Link::new_loopback())));
        proof {
            assert(self@ =~= old(self)@.push(
                Some(LinkModel::Loopback(Seq::<Seq<u8>>::empty())),
            ));
        }
        h
    }

    /// Opens a handle on the interface of the enumeration `ifaces` whose name
    /// first matches `name` exactly. When no entry matches, the answer is
    /// `InterfaceNotFound` — and only then — and no handle is produced; when
    /// one matches, the platform decides whether the channel opens, and a
    /// refusal (`ChannelOpenError`, `UnsupportedChannelType`) likewise
    /// produces no handle.
    pub fn open_on(
        &mut self,
        ifaces: &Vec<(String, pnet::datalink::NetworkInterface)>,
        name: &String,
    ) -> (r: Result<usize, SockError>)
        ensures
            match r {
                Ok(h) => h == old(self)@.len() && final(self)@ == old(self)@.push(
                    Some(LinkModel::Device),
                ) && exists|i: int| #[trigger] found_at(ifaces@, name@, i),
                Err(e) => final(self)@ == old(self)@ && (e is InterfaceNotFound
                    || e is ChannelOpenError || e is UnsupportedChannelType) && (
                e is InterfaceNotFound <==> absent(ifaces@, name@)),
            },
    {
        let idx = match resolve(ifaces, name) {
            Ok(i) => i,
            Err(e) => {
                return Err(e);
            },
        };
        match open_device(&ifaces[idx].1, RECV_TIMEOUT_SECS) {
            Ok(ch) => {
                let h = self.slots.len();
                self.slots.push(Some(RawSock::new(Link::new_device(ch))));
                proof {
                    assert(self@ =~= old(self)@.push(Some(LinkModel::Device)));
                }
                Ok(h)
            },
            Err(e) => Err(e),
        }
    }

    /// Opens a handle on the interface named `name`: enumerates the
    /// interfaces visible to the process, resolves the name, and opens a
    /// device channel with the configured receive timeout. On any failure no
    /// handle is produced and the registry is unchanged.
    pub fn open(&mut self, name: &String) -> (r: Result<usize, SockError>)
        ensures
            match r {
                Ok(h) => h == old(self)@.len() && final(self)@ == old(self)@.push(
                    Some(LinkModel::Device),
                ),
                Err(e) => final(self)@ == old(self)@ && (e is InterfaceNotFound
                    || e is ChannelOpenError || e is UnsupportedChannelType),
            },
    {
        let ifaces = enumerate_interfaces();
        self.open_on(&ifaces, name)
    }

    /// Borrows the handle, receives the next frame, and copies it whole into
    /// `buffer` starting at `offset`, returning the frame's length. A lapse
    /// of the receive window is always reported as the `Timeout` error, never
    /// as a zero-length success. The handle stays live whatever the outcome:
    /// a `Timeout`, `IoError` or `BufferTooSmall` is scoped to this one call,
    /// and on every failure the buffer is left untouched (no partial copy). A
    /// received frame that does not fit the range is dropped with
    /// `BufferTooSmall`: the channel reuses its capture buffer between calls
    /// and keeps no frame across them. On a loopback handle the outcome is
    /// exact in the pending queue.
    pub fn read(&mut self, handle: usize, buffer: &mut Vec<u8>, offset: usize) -> (r: Result<
        usize,
        SockError,
    >)
        ensures
            final(buffer)@.len() == old(buffer)@.len(),
            !is_live(old(self)@, handle as int) ==> r == Err::<usize, SockError>(
                SockError::InvalidHandle,
            ) && final(self)@ == old(self)@ && final(buffer)@ == old(buffer)@,
            is_live(old(self)@, handle as int) ==> ({
                let m = model_at(old(self)@, handle as int);
                &&& final(self)@ == old(self)@.update(handle as int, Some(model_after_recv(m)))
                &&& match r {
                    Ok(n) => exists|f: Seq<u8>|
                        {
                            &&& #[trigger] recv_yields(m, f)
                            &&& n == f.len()
                            &&& offset + f.len() <= old(buffer)@.len()
                            &&& final(buffer)@ == splice_at(old(buffer)@, offset as int, f)
                        },
                    Err(e) => final(buffer)@ == old(buffer)@ && (e is Timeout || e is IoError
                        || e is BufferTooSmall),
                }
                &&& (m matches LinkModel::Loopback(q) ==> match r {
                    Ok(n) => lb_can_read(q, old(buffer)@.len() as int, offset as int) && n
                        == q[0].len() && final(buffer)@ == splice_at(
                        old(buffer)@,
                        offset as int,
                        q[0],
                    ),
                    Err(e) => if q.len() == 0 {
                        e == SockError::Timeout
                    } else {
                        !lb_can_read(q, old(buffer)@.len() as int, offset as int) && e
                            == SockError::BufferTooSmall
                    },
                })
            }),
    {
        if handle >= self.slots.len() {
            return Err(SockError::InvalidHandle);
        }
        if self.slots[handle].is_none() {
            return Err(SockError::InvalidHandle);
        }
        let slot = &mut self.slots[handle];
        match slot {
            None => {
                proof {
                    assert(false);
                }
                Err(SockError::InvalidHandle)
            },
            Some(sock) => {
                let got = sock.link.recv_frame();
                proof {
                    assert(self@ =~= old(self)@.update(
                        handle as int,
                        Some(model_after_recv(model_at(old(self)@, handle as int))),
                    ));
                }
                match got {
                    Err(e) => Err(e),
                    Ok(frame) => {
                        if offset > buffer.len() || frame.len() > buffer.len() - offset {
                            Err(SockError::BufferTooSmall)
                        } else {
                            copy_into(buffer, offset, &frame);
                            proof {
                                assert(recv_yields(
                                    model_at(old(self)@, handle as int),
                                    frame@,
                                ));
                            }
                            Ok(frame.len())
                        }
                    },
                }
            },
        }
    }

    /// Borrows the handle and sends the `length` bytes of `buffer` starting
    /// at `offset` as one whole frame. A range that leaves the buffer's
    /// bounds is `BufferTooSmall` and nothing is transmitted; a zero-length
    /// range is refused as `IoError`, since no link can transmit an empty
    /// frame. Otherwise the range is handed to the channel without an
    /// intermediate copy — on a device the fill callback writes it directly
    /// into the platform's transmit buffer — and a loopback medium always
    /// accepts it, while a device may answer `IoError`. The handle stays
    /// live whatever the outcome.
    pub fn write(&mut self, handle: usize, buffer: &Vec<u8>, offset: usize, length: usize) -> (r:
        Result<(), SockError>)
        ensures
            !is_live(old(self)@, handle as int) ==> r == Err::<(), SockError>(
                SockError::InvalidHandle,
            ) && final(self)@ == old(self)@,
            is_live(old(self)@, handle as int) ==> ({
                let m = model_at(old(self)@, handle as int);
                &&& (offset + length > buffer@.len() ==> r == Err::<(), SockError>(
                    SockError::BufferTooSmall,
                ) && final(self)@ == old(self)@)
                &&& (offset + length <= buffer@.len() && length == 0 ==> (r matches Err(e)
                    && e is IoError) && final(self)@ == old(self)@)
                &&& (offset + length <= buffer@.len() && length > 0 ==> ({
                    let f = buffer@.subrange(offset as int, offset as int + length as int);
                    &&& final(self)@ == old(self)@.update(
                        handle as int,
                        Some(model_after_send(m, f)),
                    )
                    &&& (m is Loopback ==> r is Ok)
                    &&& (r matches Err(e) ==> e is IoError)
                }))
            }),
    {
        if handle >= self.slots.len() {
            return Err(SockError::InvalidHandle);
        }
        if self.slots[handle].is_none() {
            return Err(SockError::InvalidHandle);
        }
        if offset > buffer.len() || length > buffer.len() - offset {
            return Err(SockError::BufferTooSmall);
        }
        let slot = &mut self.slots[handle];
        match slot {
            None => {
                proof {
                    assert(false);
                }
                Err(SockError::InvalidHandle)
            },
            Some(sock) => {
                let r = sock.link.send_frame(buffer, offset, length);
                proof {
                    if length == 0 {
                        assert(self@ =~= old(self)@);
                    } else {
                        assert(self@ =~= old(self)@.update(
                            handle as int,
                            Some(
                                model_after_send(
                                    model_at(old(self)@, handle as int),
                                    buffer@.subrange(
                                        offset as int,
                                        offset as int + length as int,
                                    ),
                                ),
                            ),
                        ));
                    }
                }
                r
            },
        }
    }

    /// Releases the handle and its channel. The slot becomes dead and is
    /// never handed out again, so any later read, write or close on this
    /// handle value reports `InvalidHandle`; every other handle is untouched.
    pub fn close(&mut self, handle: usize) -> (r: Result<(), SockError>)
        ensures
            !is_live(old(self)@, handle as int) ==> r == Err::<(), SockError>(
                SockError::InvalidHandle,
            ) && final(self)@ == old(self)@,
            is_live(old(self)@, handle as int) ==> r is Ok && final(self)@ == old(self)@.update(
                handle as int,
                None,
            ),
    {
        if handle >= self.slots.len() {
            return Err(SockError::InvalidHandle);
        }
        if self.slots[handle].is_none() {
            return Err(SockError::InvalidHandle);
        }
        let slot = &mut self.slots[handle];
        *slot = None;
        proof {
            assert(self@ =~= old(self)@.update(handle as int, None));
        }
        Ok(())
    }
}

/// Writes all of `src` into `dst` starting at `offset`; bytes outside the
/// range keep their values.
fn copy_into(dst: &mut Vec<u8>, offset: usize, src: &Vec<u8>)
    requires
        offset + src@.len() <= old(dst)@.len(),
    ensures
        final(dst)@ == splice_at(old(dst)@, offset as int, src@),
{
    let n = dst.len();
    let m = src.len();
    let mut i: usize = 0;
    while i < m
        invariant
            i <= m,
            m == src@.len(),
            n == dst@.len(),
            offset + m <= n,
            dst@.len() == old(dst)@.len(),
            forall|j: int|
                0 <= j < dst@.len() && !(offset <= j < offset + i) ==> #[trigger] dst@[j] == old(
                    dst,
                )@[j],
            forall|j: int| offset <= j < offset + i ==> #[trigger] dst@[j] == src@[j - offset],
        decreases m - i,
    {
        let v = src[i];
        dst[offset + i] = v;
        i = i + 1;
    }
    proof {
        assert(dst@ =~= splice_at(old(dst)@, offset as int, src@));
    }
}

} // verus!
