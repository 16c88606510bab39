//! Responses that the device sends back to the host, and their frames.
//!
//! | discriminant | payload                                        | response       |
//! |--------------|------------------------------------------------|----------------|
//! | 0            | sub-code (1 unknown, 2 malformed), id, 0 ...   | ErrorResponse  |
//! | 1            | major, minor, patch, 0, 0, 0, 0                | Version        |
//! | 2            | all zero                                       | Background     |
//! | 3            | all zero                                       | Foreground     |
use vstd::prelude::*;

use crate::message::{Message, RawMessage, VersionNumber};
use crate::request::RequestError;

verus! {

/// Discriminant of an error response.
pub const ERROR_RESPONSE_ID: u8 = 0;

/// Discriminant of a version response.
pub const VERSION_RESPONSE_ID: u8 = 1;

/// Discriminant of a background acknowledgement.
pub const BACKGROUND_RESPONSE_ID: u8 = 2;

/// Discriminant of a foreground acknowledgement.
pub const FOREGROUND_RESPONSE_ID: u8 = 3;

/// A response the device can give back to the host.
#[derive(Clone, Copy, PartialEq, Eq, Structural, Debug)]
#[non_exhaustive]
pub enum Response {
    ErrorResponse(ErrorResponse),
    Version(VersionNumber),
    Background,
    Foreground,
}

/// The sub-codes of an error response.
#[derive(Clone, Copy, PartialEq, Eq, Structural, Debug)]
pub enum ErrorResponseCodes {
    UnknownResponseId,
    MalformedRequestForId,
}

impl ErrorResponseCodes {
    /// The byte that stands for this sub-code in a frame.
    pub open spec fn spec_code(self) -> u8 {
        match self {
            ErrorResponseCodes::UnknownResponseId => 1,
            ErrorResponseCodes::MalformedRequestForId => 2,
        }
    }

    /// The byte that stands for this sub-code in a frame.
    pub fn code(&self) -> (r: u8)
        ensures
            r == self.spec_code(),
    {
        match self {
            ErrorResponseCodes::UnknownResponseId => 1,
            ErrorResponseCodes::MalformedRequestForId => 2,
        }
    }
}

/// What the device reports when it cannot act on a request; each carries the
/// discriminant of the request it refused.
#[derive(Clone, Copy, PartialEq, Eq, Structural, Debug)]
pub enum ErrorResponse {
    UnknownRequestId(u8),
    MalformedRequestForId(u8),
}

impl Response {
    /// The discriminant of this response.
    pub open spec fn id(self) -> u8 {
        match self {
            Response::ErrorResponse(_) => ERROR_RESPONSE_ID,
            Response::Version(_) => VERSION_RESPONSE_ID,
            Response::Background => BACKGROUND_RESPONSE_ID,
            Response::Foreground => FOREGROUND_RESPONSE_ID,
        }
    }

    /// The frame that encodes this response.
    pub open spec fn frame(self) -> Seq<u8> {
        match self {
            Response::ErrorResponse(ErrorResponse::UnknownRequestId(id)) => seq![
                ERROR_RESPONSE_ID,
                ErrorResponseCodes::UnknownResponseId.spec_code(),
                id,
                0u8,
                0u8,
                0u8,
                0u8,
                0u8,
            ],
            Response::ErrorResponse(ErrorResponse::MalformedRequestForId(id)) => seq![
                ERROR_RESPONSE_ID,
                ErrorResponseCodes::MalformedRequestForId.spec_code(),
                id,
                0u8,
                0u8,
                0u8,
                0u8,
                0u8,
            ],
            Response::Version(v) => seq![VERSION_RESPONSE_ID, v.major, v.minor, v.patch, 0u8, 0u8, 0u8, 0u8],
            Response::Background => seq![BACKGROUND_RESPONSE_ID, 0u8, 0u8, 0u8, 0u8, 0u8, 0u8, 0u8],
            Response::Foreground => seq![FOREGROUND_RESPONSE_ID, 0u8, 0u8, 0u8, 0u8, 0u8, 0u8, 0u8],
        }
    }

    fn get_id(&self) -> (r: u8)
        ensures
            r == self.id(),
    {
        match self {
            Response::ErrorResponse(_) => ERROR_RESPONSE_ID,
            Response::Version(_) => VERSION_RESPONSE_ID,
            Response::Background => BACKGROUND_RESPONSE_ID,
            Response::Foreground => FOREGROUND_RESPONSE_ID,
        }
    }

    /// Encodes this response as a frame.
    pub fn to_bytes(&self) -> (r: RawMessage)
        ensures
            r@ == self.frame(),
    {
        let r = match self {
            Response::ErrorResponse(error) => match error {
                ErrorResponse::UnknownRequestId(id) => [
                    self.get_id(),
                    ErrorResponseCodes::UnknownResponseId.code(),
                    *id,
                    0,
                    0,
                    0,
                    0,
                    0,
                ],
                ErrorResponse::MalformedRequestForId(id) => [
                    self.get_id(),
                    ErrorResponseCodes::MalformedRequestForId.code(),
                    *id,
                    0,
                    0,
                    0,
                    0,
                    0,
                ],
            },
            Response::Version(v) => [self.get_id(), v.major, v.minor, v.patch, 0, 0, 0, 0],
            Response::Background => [self.get_id(), 0, 0, 0, 0, 0, 0, 0],
            Response::Foreground => [self.get_id(), 0, 0, 0, 0, 0, 0, 0],
        };
        assert(r@ =~= self.frame());
        r
    }
}

/// Why a frame from the device is not a response the host can use.
#[derive(Clone, Copy, PartialEq, Eq, Debug)]
pub enum ResponseError {
    /// The device reported an error.
    ErrorResponse(ErrorResponse),
    /// The frame has no known layout.
    UnknownResponse(RawMessage),
}

/// What the host reads from a frame: the one response whose frame it is, and
/// an unknown response where no response has that frame.
pub open spec fn decode_response(msg: RawMessage) -> Result<Response, ResponseError> {
    if exists|v: Response| #[trigger] v.frame() == msg@ {
        Ok(choose|v: Response| #[trigger] v.frame() == msg@)
    } else {
        Err(ResponseError::UnknownResponse(msg))
    }
}

/// What the frame of a response holds, byte by byte.
pub proof fn lemma_response_frame_bytes(v: Response)
    ensures
        v.frame().len() == 8,
        v.frame()[0] == v.id(),
        v.frame()[3] == 0 || v is Version,
        v.frame()[4] == 0 && v.frame()[5] == 0 && v.frame()[6] == 0 && v.frame()[7] == 0,
        match v {
            Response::ErrorResponse(ErrorResponse::UnknownRequestId(id)) => v.frame()[1] == 1
                && v.frame()[2] == id,
            Response::ErrorResponse(ErrorResponse::MalformedRequestForId(id)) => v.frame()[1] == 2
                && v.frame()[2] == id,
            Response::Version(n) => v.frame()[1] == n.major && v.frame()[2] == n.minor
                && v.frame()[3] == n.patch,
            _ => v.frame()[1] == 0 && v.frame()[2] == 0,
        },
{
}

/// Two responses with the same frame are the same response.
pub proof fn lemma_response_frame_injective(a: Response, b: Response)
    requires
        a.frame() == b.frame(),
    ensures
        a == b,
{
    lemma_response_frame_bytes(a);
    lemma_response_frame_bytes(b);
}

/// Whether a frame has the layout of some response: a known discriminant (and
/// for an error, a known sub-code), and zeros in every byte after that
/// response's payload.
pub open spec fn has_response_layout(msg: RawMessage) -> bool {
    &&& msg[4] == 0 && msg[5] == 0 && msg[6] == 0 && msg[7] == 0
    &&& {
        ||| msg[0] == ERROR_RESPONSE_ID && (msg[1] == 1 || msg[1] == 2) && msg[3] == 0
        ||| msg[0] == VERSION_RESPONSE_ID
        ||| (msg[0] == BACKGROUND_RESPONSE_ID || msg[0] == FOREGROUND_RESPONSE_ID) && msg[1] == 0
            && msg[2] == 0 && msg[3] == 0
    }
}

/// A frame is the frame of some response exactly when it has a response's layout.
pub proof fn lemma_response_layout(msg: RawMessage)
    ensures
        (exists|v: Response| #[trigger] v.frame() == msg@) <==> has_response_layout(msg),
{
    assert(forall|i: int| 0 <= i < 8 ==> msg@[i] == msg[i]);
    if has_response_layout(msg) {
        let v = if msg[0] == ERROR_RESPONSE_ID && msg[1] == 1 {
            Response::ErrorResponse(ErrorResponse::UnknownRequestId(msg[2]))
        } else if msg[0] == ERROR_RESPONSE_ID {
            Response::ErrorResponse(ErrorResponse::MalformedRequestForId(msg[2]))
        } else if msg[0] == VERSION_RESPONSE_ID {
            Response::Version(VersionNumber { major: msg[1], minor: msg[2], patch: msg[3] })
        } else if msg[0] == BACKGROUND_RESPONSE_ID {
            Response::Background
        } else {
            Response::Foreground
        };
        assert(msg@ =~= v.frame());
    }
    assert forall|v: Response| #[trigger] v.frame() == msg@ implies has_response_layout(msg) by {
        lemma_response_frame_bytes(v);
    }
}

/// The frame of a response decodes to that response.
pub proof fn lemma_response_round_trip(v: Response, msg: RawMessage)
    requires
        msg@ == v.frame(),
    ensures
        decode_response(msg) == Ok::<Response, ResponseError>(v),
{
    let w = choose|w: Response| #[trigger] w.frame() == msg@;
    lemma_response_frame_injective(v, w);
}

impl core::convert::TryFrom<RawMessage> for Response {
    type Error = ResponseError;

    /// Decodes a frame from the device.
    fn try_from(msg: RawMessage) -> (r: Result<Response, ResponseError>)
        ensures
            r == decode_response(msg),
    {
        let padded = msg[4] == 0 && msg[5] == 0 && msg[6] == 0 && msg[7] == 0;
        let r = if padded && msg[0] == ERROR_RESPONSE_ID && msg[3] == 0 && msg[1]
            == ErrorResponseCodes::UnknownResponseId.code() {
            Response::ErrorResponse(ErrorResponse::UnknownRequestId(msg[2]))
        } else if padded && msg[0] == ERROR_RESPONSE_ID && msg[3] == 0 && msg[1]
            == ErrorResponseCodes::MalformedRequestForId.code() {
            Response::ErrorResponse(ErrorResponse::MalformedRequestForId(msg[2]))
        } else if padded && msg[0] == VERSION_RESPONSE_ID {
            Response::Version(VersionNumber::new(msg[1], msg[2], msg[3]))
        } else if padded && msg[0] == BACKGROUND_RESPONSE_ID && msg[1] == 0 && msg[2] == 0
            && msg[3] == 0 {
            Response::Background
        } else if padded && msg[0] == FOREGROUND_RESPONSE_ID && msg[1] == 0 && msg[2] == 0
            && msg[3] == 0 {
            Response::Foreground
        } else {
            proof {
                lemma_response_layout(msg);
            }
            return Err(ResponseError::UnknownResponse(msg));
        };
        proof {
            assert(msg@ =~= r.frame());
            lemma_response_round_trip(r, msg);
        }
        Ok(r)
    }
}

impl vstd::std_specs::convert::TryFromSpecImpl<RawMessage> for Response {
    open spec fn obeys_try_from_spec() -> bool {
        true
    }

    open spec fn try_from_spec(msg: RawMessage) -> Result<Response, ResponseError> {
        decode_response(msg)
    }
}

/// The error that the device reports for a frame it could not decode.
pub open spec fn error_response_for(error: RequestError) -> ErrorResponse {
    match error {
        RequestError::InvalidRequest(msg) => ErrorResponse::UnknownRequestId(msg[0]),
        RequestError::MalformedRequest(msg) => ErrorResponse::MalformedRequestForId(msg[0]),
    }
}

impl From<RequestError> for ErrorResponse {
    fn from(error: RequestError) -> (r: ErrorResponse)
        ensures
            r == error_response_for(error),
    {
        match error {
            RequestError::InvalidRequest(msg) => ErrorResponse::UnknownRequestId(msg[0]),
            RequestError::MalformedRequest(msg) => ErrorResponse::MalformedRequestForId(msg[0]),
        }
    }
}

impl vstd::std_specs::convert::FromSpecImpl<RequestError> for ErrorResponse {
    open spec fn obeys_from_spec() -> bool {
        true
    }

    open spec fn from_spec(error: RequestError) -> ErrorResponse {
        error_response_for(error)
    }
}

impl From<ErrorResponse> for ResponseError {
    fn from(error: ErrorResponse) -> (r: ResponseError)
        ensures
            r == ResponseError::ErrorResponse(error),
    {
        ResponseError::ErrorResponse(error)
    }
}

impl vstd::std_specs::convert::FromSpecImpl<ErrorResponse> for ResponseError {
    open spec fn obeys_from_spec() -> bool {
        true
    }

    open spec fn from_spec(error: ErrorResponse) -> ResponseError {
        ResponseError::ErrorResponse(error)
    }
}

impl From<ErrorResponse> for Response {
    fn from(error: ErrorResponse) -> (r: Response)
        ensures
            r == Response::ErrorResponse(error),
    {
        Response::ErrorResponse(error)
    }
}

impl vstd::std_specs::convert::FromSpecImpl<ErrorResponse> for Response {
    open spec fn obeys_from_spec() -> bool {
        true
    }

    open spec fn from_spec(error: ErrorResponse) -> Response {
        Response::ErrorResponse(error)
    }
}

impl From<Response> for RawMessage {
    fn from(response: Response) -> (r: RawMessage)
        ensures
            r@ == response.frame(),
    {
        response.to_bytes()
    }
}

impl vstd::std_specs::convert::FromSpecImpl<Response> for RawMessage {
    open spec fn obeys_from_spec() -> bool {
        true
    }

    open spec fn from_spec(response: Response) -> RawMessage {
        choose|r: RawMessage| r@ == response.frame()
    }
}

impl Message for Response {}

} // verus!
