//! The command processor: each frame from the host is decoded, applied to the
//! light state, and answered with exactly one response frame.
use vstd::prelude::*;

use crate::engine::{LightState, Slot, NUM_LEDS};
use crate::led::{color_of, color_timed_of, Color};
use crate::message::{RawMessage, VersionNumber};
use crate::request::{
    decode_request, is_request_id, lemma_request_layout, Request, RequestError, BACKGROUND_REQUEST_ID, FOREGROUND_REQUEST_ID,
};
use crate::response::{error_response_for, ErrorResponse, Response};
use core::convert::TryFrom;

verus! {

/// The slots after a decoded request has been applied, and the response to
/// it. A request for an LED that does not exist is answered as a malformed
/// request and changes nothing; a frame that did not decode is answered with
/// the error it gave, and changes nothing.
pub open spec fn handled(
    slots: Seq<Slot>,
    version: VersionNumber,
    request: Result<Request, RequestError>,
) -> (Seq<Slot>, Response) {
    match request {
        Ok(Request::Version) => (slots, Response::Version(version)),
        Ok(Request::Background(c)) => if (c.led as int) < NUM_LEDS {
            (
                slots.update(
                    c.led as int,
                    Slot { background: color_of(c), foreground: slots[c.led as int].foreground },
                ),
                Response::Background,
            )
        } else {
            (slots, Response::ErrorResponse(ErrorResponse::MalformedRequestForId(BACKGROUND_REQUEST_ID)))
        },
        Ok(Request::Foreground(c)) => if (c.led as int) < NUM_LEDS {
            (
                slots.update(
                    c.led as int,
                    Slot { background: slots[c.led as int].background, foreground: color_timed_of(c) },
                ),
                Response::Foreground,
            )
        } else {
            (slots, Response::ErrorResponse(ErrorResponse::MalformedRequestForId(FOREGROUND_REQUEST_ID)))
        },
        Err(e) => (slots, Response::ErrorResponse(error_response_for(e))),
    }
}

/// Applies a decoded request, or the error that decoding gave, to the light
/// state, and returns the response. `version` is the device's own version.
pub fn handle_request(
    state: &mut LightState,
    version: VersionNumber,
    request: Result<Request, RequestError>,
) -> (r: Response)
    ensures
        (final(state)@, r) == handled(old(state)@, version, request),
{
    match request {
        Ok(Request::Version) => Response::Version(version),
        Ok(Request::Background(led_color)) => {
            match state.set_background(led_color.led, Color::from(led_color)) {
                Ok(()) => Response::Background,
                Err(_) => Response::ErrorResponse(
                    ErrorResponse::MalformedRequestForId(BACKGROUND_REQUEST_ID),
                ),
            }
        },
        Ok(Request::Foreground(led_color_timed)) => {
            let color = Color {
                red: led_color_timed.red,
                green: led_color_timed.green,
                blue: led_color_timed.blue,
            };
            match state.set_foreground(led_color_timed.led, color, led_color_timed.seconds) {
                Ok(()) => Response::Foreground,
                Err(_) => Response::ErrorResponse(
                    ErrorResponse::MalformedRequestForId(FOREGROUND_REQUEST_ID),
                ),
            }
        },
        Err(error) => Response::ErrorResponse(ErrorResponse::from(error)),
    }
}

/// Decodes a frame from the host, applies it to the light state, and returns
/// the frame of the response.
pub fn handle_message(state: &mut LightState, version: VersionNumber, msg: RawMessage) -> (r:
    RawMessage)
    ensures
        final(state)@ == handled(old(state)@, version, decode_request(msg)).0,
        r@ == handled(old(state)@, version, decode_request(msg)).1.frame(),
{
    let request = Request::try_from(msg);
    let response = handle_request(state, version, request);
    response.to_bytes()
}

/// A background request with a non-zero byte in its padding is refused as a
/// malformed background request, and the device answers so without changing
/// any LED.
pub proof fn lemma_background_padding_refused(
    slots: Seq<Slot>,
    version: VersionNumber,
    msg: RawMessage,
)
    requires
        msg[0] == BACKGROUND_REQUEST_ID,
        msg[5] != 0 || msg[6] != 0 || msg[7] != 0,
    ensures
        decode_request(msg) == Err::<Request, RequestError>(RequestError::MalformedRequest(msg)),
        handled(slots, version, decode_request(msg)) == (
            slots,
            Response::ErrorResponse(ErrorResponse::MalformedRequestForId(BACKGROUND_REQUEST_ID)),
        ),
{
    lemma_request_layout(msg);
}

/// A frame whose discriminant names no request is refused as an unknown
/// request carrying that discriminant, and the device answers so without
/// changing any LED.
pub proof fn lemma_unknown_request_refused(slots: Seq<Slot>, version: VersionNumber, msg: RawMessage)
    requires
        !is_request_id(msg[0]),
    ensures
        decode_request(msg) == Err::<Request, RequestError>(RequestError::InvalidRequest(msg)),
        handled(slots, version, decode_request(msg)) == (
            slots,
            Response::ErrorResponse(ErrorResponse::UnknownRequestId(msg[0])),
        ),
{
    lemma_request_layout(msg);
}

} // verus!
