//! Requests that the host sends to the device, and their frames.
//!
//! | discriminant | payload                                  | request    |
//! |--------------|------------------------------------------|------------|
//! | 1            | all zero                                 | Version    |
//! | 2            | led, red, green, blue, 0, 0, 0           | Background |
//! | 3            | led, red, green, blue, seconds, 0, 0     | Foreground |
use vstd::prelude::*;

use crate::message::{LedColor, LedColorTimed, Message, RawMessage};

verus! {

/// Discriminant of a version request.
pub const VERSION_REQUEST_ID: u8 = 1;

/// Discriminant of a background request.
pub const BACKGROUND_REQUEST_ID: u8 = 2;

/// Discriminant of a foreground request.
pub const FOREGROUND_REQUEST_ID: u8 = 3;

/// A request that can be made of the device.
#[derive(Clone, Copy, PartialEq, Eq, Structural, Debug)]
#[non_exhaustive]
pub enum Request {
    Version,
    Background(LedColor),
    Foreground(LedColorTimed),
}

/// Whether a discriminant names a request.
pub open spec fn is_request_id(id: u8) -> bool {
    id == VERSION_REQUEST_ID || id == BACKGROUND_REQUEST_ID || id == FOREGROUND_REQUEST_ID
}

impl Request {
    /// The discriminant of this request.
    pub open spec fn id(self) -> u8 {
        match self {
            Request::Version => VERSION_REQUEST_ID,
            Request::Background(_) => BACKGROUND_REQUEST_ID,
            Request::Foreground(_) => FOREGROUND_REQUEST_ID,
        }
    }

    /// The frame that encodes this request.
    pub open spec fn frame(self) -> Seq<u8> {
        match self {
            Request::Version => seq![VERSION_REQUEST_ID, 0u8, 0u8, 0u8, 0u8, 0u8, 0u8, 0u8],
            Request::Background(c) => seq![BACKGROUND_REQUEST_ID, c.led, c.red, c.green, c.blue, 0u8, 0u8, 0u8],
            Request::Foreground(c) => seq![FOREGROUND_REQUEST_ID, c.led, c.red, c.green, c.blue, c.seconds, 0u8, 0u8],
        }
    }

    fn get_id(&self) -> (r: u8)
        ensures
            r == self.id(),
    {
        match self {
            Request::Version => VERSION_REQUEST_ID,
            Request::Background(_) => BACKGROUND_REQUEST_ID,
            Request::Foreground(_) => FOREGROUND_REQUEST_ID,
        }
    }

    /// Encodes this request as a frame.
    pub fn to_bytes(&self) -> (r: RawMessage)
        ensures
            r@ == self.frame(),
    {
        let r = match self {
            Request::Version => [self.get_id(), 0, 0, 0, 0, 0, 0, 0],
            Request::Background(c) => [self.get_id(), c.led, c.red, c.green, c.blue, 0, 0, 0],
            Request::Foreground(c) => [self.get_id(), c.led, c.red, c.green, c.blue, c.seconds, 0, 0],
        };
        assert(r@ =~= self.frame());
        r
    }
}

/// What the frame of a request holds, byte by byte.
pub proof fn lemma_request_frame_bytes(v: Request)
    ensures
        v.frame().len() == 8,
        v.frame()[0] == v.id(),
        v.frame()[6] == 0 && v.frame()[7] == 0,
        match v {
            Request::Version => {
                &&& v.frame()[1] == 0 && v.frame()[2] == 0 && v.frame()[3] == 0
                &&& v.frame()[4] == 0 && v.frame()[5] == 0
            },
            Request::Background(c) => {
                &&& v.frame()[1] == c.led && v.frame()[2] == c.red
                &&& v.frame()[3] == c.green && v.frame()[4] == c.blue
                &&& v.frame()[5] == 0
            },
            Request::Foreground(c) => {
                &&& v.frame()[1] == c.led && v.frame()[2] == c.red
                &&& v.frame()[3] == c.green && v.frame()[4] == c.blue
                &&& v.frame()[5] == c.seconds
            },
        },
{
}

/// Two requests with the same frame are the same request.
pub proof fn lemma_request_frame_injective(a: Request, b: Request)
    requires
        a.frame() == b.frame(),
    ensures
        a == b,
{
    lemma_request_frame_bytes(a);
    lemma_request_frame_bytes(b);
}

/// Whether a frame has the layout of some request: a known discriminant,
/// and zeros in every byte after that request's payload.
pub open spec fn has_request_layout(msg: RawMessage) -> bool {
    ||| msg[0] == VERSION_REQUEST_ID && msg[1] == 0 && msg[2] == 0 && msg[3] == 0 && msg[4] == 0
        && msg[5] == 0 && msg[6] == 0 && msg[7] == 0
    ||| msg[0] == BACKGROUND_REQUEST_ID && msg[5] == 0 && msg[6] == 0 && msg[7] == 0
    ||| msg[0] == FOREGROUND_REQUEST_ID && msg[6] == 0 && msg[7] == 0
}

/// A frame is the frame of some request exactly when it has a request's layout.
pub proof fn lemma_request_layout(msg: RawMessage)
    ensures
        (exists|v: Request| #[trigger] v.frame() == msg@) <==> has_request_layout(msg),
{
    assert(forall|i: int| 0 <= i < 8 ==> msg@[i] == msg[i]);
    if has_request_layout(msg) {
        let v = if msg[0] == VERSION_REQUEST_ID {
            Request::Version
        } else if msg[0] == BACKGROUND_REQUEST_ID {
            Request::Background(LedColor { led: msg[1], red: msg[2], green: msg[3], blue: msg[4] })
        } else {
            Request::Foreground(
                LedColorTimed {
                    led: msg[1],
                    red: msg[2],
                    green: msg[3],
                    blue: msg[4],
                    seconds: msg[5],
                },
            )
        };
        assert(msg@ =~= v.frame());
    }
    assert forall|v: Request| #[trigger] v.frame() == msg@ implies has_request_layout(msg) by {
        lemma_request_frame_bytes(v);
    }
}

/// Why a frame is not a request.
#[derive(Clone, Copy, PartialEq, Eq, Debug)]
#[non_exhaustive]
pub enum RequestError {
    /// The discriminant names no request.
    InvalidRequest(RawMessage),
    /// The discriminant names a request, but the payload does not have its shape.
    MalformedRequest(RawMessage),
}

impl RequestError {
    /// The frame that was refused.
    pub open spec fn message(self) -> RawMessage {
        match self {
            RequestError::InvalidRequest(msg) => msg,
            RequestError::MalformedRequest(msg) => msg,
        }
    }

    /// The discriminant of the refused frame.
    pub fn get_id(&self) -> (r: u8)
        ensures
            r == self.message()[0],
    {
        match self {
            RequestError::InvalidRequest(msg) => msg[0],
            RequestError::MalformedRequest(msg) => msg[0],
        }
    }
}

/// What a frame decodes to: the one request whose frame it is; otherwise a
/// malformed request where the discriminant names a request, and an invalid
/// one where it does not.
pub open spec fn decode_request(msg: RawMessage) -> Result<Request, RequestError> {
    if exists|v: Request| #[trigger] v.frame() == msg@ {
        Ok(choose|v: Request| #[trigger] v.frame() == msg@)
    } else if is_request_id(msg[0]) {
        Err(RequestError::MalformedRequest(msg))
    } else {
        Err(RequestError::InvalidRequest(msg))
    }
}

/// The frame of a request decodes to that request.
pub proof fn lemma_request_round_trip(v: Request, msg: RawMessage)
    requires
        msg@ == v.frame(),
    ensures
        decode_request(msg) == Ok::<Request, RequestError>(v),
{
    let w = choose|w: Request| #[trigger] w.frame() == msg@;
    lemma_request_frame_injective(v, w);
}

impl core::convert::TryFrom<RawMessage> for Request {
    type Error = RequestError;

    /// Decodes a frame.
    fn try_from(msg: RawMessage) -> (r: Result<Request, RequestError>)
        ensures
            r == decode_request(msg),
    {
        let r = if msg[0] == VERSION_REQUEST_ID && msg[1] == 0 && msg[2] == 0 && msg[3] == 0
            && msg[4] == 0 && msg[5] == 0 && msg[6] == 0 && msg[7] == 0 {
            Request::Version
        } else if msg[0] == BACKGROUND_REQUEST_ID && msg[5] == 0 && msg[6] == 0 && msg[7] == 0 {
            Request::Background(LedColor::new(msg[1], msg[2], msg[3], msg[4]))
        } else if msg[0] == FOREGROUND_REQUEST_ID && msg[6] == 0 && msg[7] == 0 {
            Request::Foreground(LedColorTimed::new(msg[1], msg[2], msg[3], msg[4], msg[5]))
        } else {
            proof {
                lemma_request_layout(msg);
            }
            if msg[0] == VERSION_REQUEST_ID || msg[0] == BACKGROUND_REQUEST_ID || msg[0]
                == FOREGROUND_REQUEST_ID {
                return Err(RequestError::MalformedRequest(msg));
            } else {
                return Err(RequestError::InvalidRequest(msg));
            }
        };
        proof {
            assert(msg@ =~= r.frame());
            lemma_request_round_trip(r, msg);
        }
        Ok(r)
    }
}

impl vstd::std_specs::convert::TryFromSpecImpl<RawMessage> for Request {
    open spec fn obeys_try_from_spec() -> bool {
        true
    }

    open spec fn try_from_spec(msg: RawMessage) -> Result<Request, RequestError> {
        decode_request(msg)
    }
}

impl From<Request> for RawMessage {
    fn from(req: Request) -> (r: RawMessage)
        ensures
            r@ == req.frame(),
    {
        req.to_bytes()
    }
}

impl vstd::std_specs::convert::FromSpecImpl<Request> for RawMessage {
    open spec fn obeys_from_spec() -> bool {
        true
    }

    open spec fn from_spec(req: Request) -> RawMessage {
        choose|r: RawMessage| r@ == req.frame()
    }
}

impl Message for Request {}

} // verus!
