//! The link channel: a duplex Ethernet-frame channel bound to one network
//! interface. A channel is either a real device channel obtained from the
//! platform or an in-memory loopback medium, used by test harnesses in which
//! both sides share a simulated wire.

use vstd::prelude::*;
use crate::errors::SockError;

verus! {

/// A real platform channel: the frame sender and frame receiver that
/// `pnet::datalink::channel` hands out for one interface, owned exclusively.
/// The pair is held opaquely because the two sides are trait objects; every
/// use goes through the trusted calls below.
#[verifier::external_body]
pub struct DeviceChannel {
    tx: Box<dyn pnet::datalink::DataLinkSender>,
    rx: Box<dyn pnet::datalink::DataLinkReceiver>,
}

/// Relies on `pnet::datalink::channel`: asks the platform for a link-layer
/// channel on `iface` with the given receive timeout. An Ethernet duplex
/// channel is the only accepted kind; any other kind the platform might offer
/// is reported as `UnsupportedChannelType`, and a platform refusal as
/// `ChannelOpenError` carrying the platform's message. The timeout is
/// bounded because pnet converts it to milliseconds in a signed 64-bit
/// count, which an absurdly large number of seconds would overflow.
#[verifier::external_body]
pub fn open_device(iface: &pnet::datalink::NetworkInterface, timeout_secs: u64) -> (r: Result<
    DeviceChannel,
    SockError,
>)
    requires
        timeout_secs <= 1_000_000_000,
    ensures
        r matches Err(e) ==> (e is ChannelOpenError || e is UnsupportedChannelType),
{
    let mut config: pnet::datalink::Config = Default::default();
    config.read_timeout = Some(std::time::Duration::from_secs(timeout_secs));
    match pnet::datalink::channel(iface, config) {
        Ok(pnet::datalink::Channel::Ethernet(tx, rx)) => Ok(DeviceChannel { tx, rx }),
        Ok(_) => Err(SockError::UnsupportedChannelType),
        Err(e) => Err(SockError::ChannelOpenError(format!("{}", e))),
    }
}

/// Relies on `pnet::datalink::DataLinkReceiver::next`: blocks for up to the
/// channel's receive timeout and yields the next whole frame, copied out of
/// the capture buffer. A `TimedOut` platform error means no frame arrived
/// within the window; any other platform failure is an `IoError`. Which
/// frame, if any, arrives depends on the wire, so nothing more is promised.
#[verifier::external_body]
fn device_recv(ch: &mut DeviceChannel) -> (r: Result<Vec<u8>, SockError>)
    ensures
        r matches Err(e) ==> (e is Timeout || e is IoError),
{
    match ch.rx.next() {
        Ok(frame) => Ok(frame.to_vec()),
        Err(e) if e.kind() == std::io::ErrorKind::TimedOut => Err(SockError::Timeout),
        Err(e) => Err(SockError::IoError(format!("{}", e))),
    }
}

/// Relies on `pnet::datalink::DataLinkSender::build_and_send`: requests a
/// native transmit buffer of exactly the range's length and fills it in
/// place, the callback writing `buffer[offset..end]` directly into the
/// platform's buffer with no intermediate copy (the zero-copy send path).
/// `None` (the platform could not provide a buffer of that size) and a
/// platform send failure are both `IoError`. The range must be non-empty:
/// on a zero-sized request pnet splits its buffer into zero-sized chunks,
/// which panics.
#[verifier::external_body]
fn device_send(ch: &mut DeviceChannel, buffer: &Vec<u8>, offset: usize, end: usize) -> (r: Result<
    (),
    SockError,
>)
    requires
        offset < end <= buffer@.len(),
    ensures
        r matches Err(e) ==> e is IoError,
{
    let frame = &buffer[offset..end];
    match ch.tx.build_and_send(1, frame.len(), &mut |buf: &mut [u8]| {
        buf.copy_from_slice(frame);
    }) {
        Some(Ok(())) => Ok(()),
        Some(Err(e)) => Err(SockError::IoError(format!("{}", e))),
        None => Err(SockError::IoError(format!("no transmit buffer of the requested size"))),
    }
}

/// The loopback medium: a shared simulated wire holding, oldest first, the
/// frames written and not yet read. Sending appends a frame; receiving takes
/// the oldest, or times out at once when none is pending.
pub struct Loopback {
    queue: Vec<Vec<u8>>,
}

impl View for Loopback {
    type V = Seq<Seq<u8>>;

    closed spec fn view(&self) -> Seq<Seq<u8>> {
        self.queue@.map_values(|f: Vec<u8>| f@)
    }
}

impl Loopback {
    /// A fresh medium with no pending frames.
    pub fn new() -> (lb: Loopback)
        ensures
            lb@ == Seq::<Seq<u8>>::empty(),
    {
        let lb = Loopback { queue: Vec::new() };
        proof {
            assert(lb@ =~= Seq::<Seq<u8>>::empty());
        }
        lb
    }

    /// Appends the `length` bytes of `buffer` starting at `offset` to the
    /// pending queue as one frame: the simulated wire's own copy of what a
    /// device channel would transmit.
    fn push_frame(&mut self, buffer: &Vec<u8>, offset: usize, length: usize)
        requires
            offset + length <= buffer@.len(),
        ensures
            final(self)@ == old(self)@.push(
                buffer@.subrange(offset as int, offset as int + length as int),
            ),
    {
        let owned: Vec<u8> = copy_range(buffer, offset, length);
        self.queue.push(owned);
        proof {
            assert(self@ =~= old(self)@.push(
                buffer@.subrange(offset as int, offset as int + length as int),
            ));
        }
    }

    /// Takes the oldest pending frame, or nothing when the queue is empty.
    fn pop_frame(&mut self) -> (r: Option<Vec<u8>>)
        ensures
            old(self)@.len() == 0 ==> r is None && final(self)@ == old(self)@,
            old(self)@.len() > 0 ==> (r matches Some(f) && f@ == old(self)@[0] && final(self)@
                == old(self)@.drop_first()),
    {
        if self.queue.len() == 0 {
            None
        } else {
            let f = self.queue.remove(0);
            proof {
                assert(self@ =~= old(self)@.drop_first());
            }
            Some(f)
        }
    }
}

/// The `length` bytes of `src` starting at `offset`, as their own vector.
fn copy_range(src: &Vec<u8>, offset: usize, length: usize) -> (r: Vec<u8>)
    requires
        offset + length <= src@.len(),
    ensures
        r@ == src@.subrange(offset as int, offset as int + length as int),
{
    let n = src.len();
    let mut r: Vec<u8> = Vec::new();
    let mut i: usize = 0;
    while i < length
        invariant
            i <= length,
            n == src@.len(),
            offset + length <= n,
            r@ == src@.subrange(offset as int, offset as int + i as int),
        decreases length - i,
    {
        r.push(src[offset + i]);
        proof {
            assert(r@ =~= src@.subrange(offset as int, offset as int + i as int + 1));
        }
        i = i + 1;
    }
    r
}

/// What a channel looks like in contracts: a device channel is opaque (what
/// it carries depends on the wire); a loopback medium is exactly its queue of
/// pending frames.
pub enum LinkModel {
    Device,
    Loopback(Seq<Seq<u8>>),
}

/// The queue after a send: the frame joins the back.
pub open spec fn queue_after_send(q: Seq<Seq<u8>>, f: Seq<u8>) -> Seq<Seq<u8>> {
    q.push(f)
}

/// The queue after a receive attempt: the oldest frame leaves; an empty queue
/// stays empty.
pub open spec fn queue_after_recv(q: Seq<Seq<u8>>) -> Seq<Seq<u8>> {
    if q.len() > 0 {
        q.drop_first()
    } else {
        q
    }
}

/// The channel model after sending one frame.
pub open spec fn model_after_send(m: LinkModel, f: Seq<u8>) -> LinkModel {
    match m {
        LinkModel::Device => LinkModel::Device,
        LinkModel::Loopback(q) => LinkModel::Loopback(queue_after_send(q, f)),
    }
}

/// The channel model after one receive attempt.
pub open spec fn model_after_recv(m: LinkModel) -> LinkModel {
    match m {
        LinkModel::Device => LinkModel::Device,
        LinkModel::Loopback(q) => LinkModel::Loopback(queue_after_recv(q)),
    }
}

/// One duplex frame channel, bound to one interface (or to a simulated wire)
/// for its whole lifetime.
pub enum Link {
    Device(DeviceChannel),
    Loopback(Loopback),
}

impl View for Link {
    type V = LinkModel;

    closed spec fn view(&self) -> LinkModel {
        match self {
            Link::Device(_) => LinkModel::Device,
            Link::Loopback(lb) => LinkModel::Loopback(lb@),
        }
    }
}

impl Link {
    /// A channel over a fresh loopback medium.
    pub fn new_loopback() -> (l: Link)
        ensures
            l@ == LinkModel::Loopback(Seq::<Seq<u8>>::empty()),
    {
        Link::Loopback(Loopback::new())
    }

    /// A channel over an open device channel.
    pub fn new_device(ch: DeviceChannel) -> (l: Link)
        ensures
            l@ == LinkModel::Device,
    {
        Link::Device(ch)
    }

    /// Blocks for up to the receive timeout and yields the next whole frame.
    /// On a loopback medium the outcome is exact: the oldest pending frame,
    /// or `Timeout` when none is pending. On a device channel the wire
    /// decides; every outcome still leaves the channel bound and usable.
    pub fn recv_frame(&mut self) -> (r: Result<Vec<u8>, SockError>)
        ensures
            final(self)@ == model_after_recv(old(self)@),
            old(self)@ matches LinkModel::Loopback(q) ==> (if q.len() > 0 {
                r matches Ok(f) && f@ == q[0]
            } else {
                r == Err::<Vec<u8>, SockError>(SockError::Timeout)
            }),
            r matches Err(e) ==> (e is Timeout || e is IoError),
    {
        match self {
            Link::Device(ch) => device_recv(ch),
            Link::Loopback(lb) => match lb.pop_frame() {
                Some(f) => Ok(f),
                None => Err(SockError::Timeout),
            },
        }
    }

    /// Sends the `length` bytes of `buffer` starting at `offset` as one
    /// whole frame. On a device channel the bytes go through the zero-copy
    /// path: the fill callback writes them directly into the platform's
    /// transmit buffer, with no intermediate copy. A zero-length frame is
    /// refused as `IoError` (no link can transmit an empty frame) and the
    /// channel is left as it was. On a loopback medium a non-empty send
    /// always succeeds and appends the frame to the pending queue; on a
    /// device channel the platform decides, and a failure is an `IoError`
    /// scoped to this call.
    pub fn send_frame(&mut self, buffer: &Vec<u8>, offset: usize, length: usize) -> (r: Result<
        (),
        SockError,
    >)
        requires
            offset + length <= buffer@.len(),
        ensures
            length == 0 ==> (r matches Err(e) && e is IoError) && final(self)@ == old(self)@,
            length > 0 ==> ({
                let f = buffer@.subrange(offset as int, offset as int + length as int);
                &&& final(self)@ == model_after_send(old(self)@, f)
                &&& (old(self)@ is Loopback ==> r is Ok)
                &&& (r matches Err(e) ==> e is IoError)
            }),
    {
        if length == 0 {
            return Err(SockError::IoError("cannot transmit an empty frame".to_owned()));
        }
        let n = buffer.len();
        let end = offset + length;
        match self {
            Link::Device(ch) => device_send(ch, buffer, offset, end),
            Link::Loopback(lb) => {
                lb.push_frame(buffer, offset, length);
                Ok(())
            },
        }
    }
}

} // verus!
