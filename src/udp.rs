//! Traits and types for sending and receiving values that can present
//! themselves as a buffer of bytes, one value per datagram.
use vstd::prelude::*;

verus! {

/// The largest payload, in bytes, that one datagram carries.
pub const UDP_MAX_PAYLOAD: usize = 508;

/// How an I/O operation on a socket failed.
#[derive(Clone, Copy, Debug, PartialEq, Eq, Structural)]
pub enum IoKind {
    /// No datagram came before the receive timeout.
    TimedOut,
    /// The socket had nothing to hand out without blocking.
    WouldBlock,
    /// Any other failure.
    Other,
}

/// A socket failure: its kind, and the system's words for it.
#[derive(Debug)]
pub struct IoFailure {
    pub kind: IoKind,
    pub message: String,
}

impl IoFailure {
    /// Whether the receive found nothing to read in time.
    pub open spec fn timed_out(&self) -> bool {
        self.kind == IoKind::TimedOut || self.kind == IoKind::WouldBlock
    }

    /// Whether this is the expected, frequent end of a receive that found
    /// nothing to read in time, rather than a genuine fault.
    #[verifier::when_used_as_spec(timed_out)]
    pub fn is_timeout(&self) -> (r: bool)
        ensures
            r == self.timed_out(),
    {
        match self.kind {
            IoKind::TimedOut => true,
            IoKind::WouldBlock => true,
            IoKind::Other => false,
        }
    }
}

/// What a receive yields when it yields no value: a socket failure, or
/// the decoder's own error for a datagram it could not parse.
#[derive(Debug)]
pub enum Error<T> {
    /// The socket failed, or nothing came in time.
    Io(IoFailure),
    /// A datagram came that the decoder refused.
    ParseError(T),
}

/// A value that can be serialized into the payload of one datagram.
pub trait ToUdp {
    /// The bytes that stand for `self` on the wire.
    spec fn udp_bytes(&self) -> Seq<u8>;

    /// Serializes `self`; serialization never fails.
    fn to_udp(&self) -> (r: Vec<u8>)
        ensures
            r@ == self.udp_bytes(),
    ;
}

/// A value that can be parsed from the payload of one datagram.
pub trait FromUdp: Sized {
    /// What goes wrong when a payload does not hold a value.
    type Error;

    /// Whether `r` is what parsing `buf` yields: a function of the bytes alone.
    spec fn udp_parsed(buf: Seq<u8>, r: Result<Self, Self::Error>) -> bool;

    /// Parses a whole payload.
    fn from_udp(buf: &[u8]) -> (r: Result<Self, Self::Error>)
        ensures
            Self::udp_parsed(buf@, r),
    ;
}

/// The payload actually sent for serialized bytes: cropped to the
/// largest payload when longer.
pub open spec fn fit_payload(bytes: Seq<u8>) -> Seq<u8> {
    if bytes.len() > UDP_MAX_PAYLOAD {
        bytes.take(UDP_MAX_PAYLOAD as int)
    } else {
        bytes
    }
}

/// One outgoing datagram, with the warning that it was cropped.
pub struct Datagram {
    /// The bytes to transmit.
    pub payload: Vec<u8>,
    /// Whether the serialized value was longer than the largest payload
    /// and lost its tail.
    pub truncated: bool,
}

/// Serializes `item` into the datagram that carries it.
pub fn datagram<T: ToUdp>(item: &T) -> (r: Datagram)
    ensures
        r.payload@ == fit_payload(item.udp_bytes()),
        r.truncated == (item.udp_bytes().len() > UDP_MAX_PAYLOAD),
{
    let mut payload = item.to_udp();
    let truncated = payload.len() > UDP_MAX_PAYLOAD;
    if truncated {
        payload.truncate(UDP_MAX_PAYLOAD);
        assert(payload@ =~= item.udp_bytes().take(UDP_MAX_PAYLOAD as int));
    }
    Datagram { payload, truncated }
}

/// A value whose serialized form is longer than the largest payload goes
/// out as exactly the first `UDP_MAX_PAYLOAD` bytes of that form, with a
/// warning; any other goes out whole, without one.
pub proof fn lemma_truncation<T: ToUdp>(item: &T)
    ensures
        item.udp_bytes().len() > UDP_MAX_PAYLOAD ==> {
            &&& fit_payload(item.udp_bytes()).len() == UDP_MAX_PAYLOAD
            &&& forall|i: int|
                0 <= i < UDP_MAX_PAYLOAD ==> #[trigger] fit_payload(item.udp_bytes())[i]
                    == item.udp_bytes()[i]
        },
        item.udp_bytes().len() <= UDP_MAX_PAYLOAD ==> fit_payload(item.udp_bytes())
            == item.udp_bytes(),
{
}

} // verus!
