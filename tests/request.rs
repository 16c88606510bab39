use status_lights::{LedColor, LedColorTimed, RawMessage, Request, RequestError};
use std::convert::TryFrom;

#[test]
fn test_version_request_to_bytes() {
    let message = Request::Version;
    assert_eq!(message.to_bytes(), [1, 0, 0, 0, 0, 0, 0, 0]);
}

#[test]
fn test_version_request_from_bytes() {
    let raw_message: [u8; 8] = [1, 0, 0, 0, 0, 0, 0, 0];
    let message = Request::try_from(raw_message).unwrap();
    assert_eq!(message, Request::Version);
}

#[test]
fn test_background_request_to_bytes() {
    let message = Request::Background(LedColor::new(1, 255, 255, 255));
    assert_eq!(message.to_bytes(), [2, 1, 255, 255, 255, 0, 0, 0]);
}

#[test]
fn test_background_request_from_bytes() {
    let raw_message: [u8; 8] = [2, 1, 255, 255, 255, 0, 0, 0];
    let message = Request::try_from(raw_message).unwrap();
    assert_eq!(
        message,
        Request::Background(LedColor::new(1, 255, 255, 255))
    );
}

#[test]
fn test_foreground_request_to_bytes() {
    let message = Request::Foreground(LedColorTimed::new(1, 255, 255, 255, 10));
    assert_eq!(message.to_bytes(), [3, 1, 255, 255, 255, 10, 0, 0]);
}

#[test]
fn test_foreground_request_from_bytes() {
    let raw_message: [u8; 8] = [3, 1, 255, 255, 255, 10, 0, 0];
    let message = Request::try_from(raw_message).unwrap();
    assert_eq!(
        message,
        Request::Foreground(LedColorTimed::new(1, 255, 255, 255, 10))
    );
}

#[test]
fn request_round_trips() {
    let requests = [
        Request::Version,
        Request::Background(LedColor::new(0, 0, 0, 0)),
        Request::Background(LedColor::new(255, 1, 2, 3)),
        Request::Foreground(LedColorTimed::new(3, 4, 5, 6, 0)),
        Request::Foreground(LedColorTimed::new(255, 255, 255, 255, 255)),
    ];
    for request in requests {
        assert_eq!(Request::try_from(request.to_bytes()), Ok(request));
        let raw: RawMessage = request.into();
        assert_eq!(raw, request.to_bytes());
    }
}

#[test]
fn background_request_with_padding_is_malformed() {
    for position in 5..8 {
        let mut raw: RawMessage = [2, 1, 255, 0, 0, 0, 0, 0];
        raw[position] = 7;
        assert_eq!(Request::try_from(raw), Err(RequestError::MalformedRequest(raw)));
    }
}

#[test]
fn version_request_with_payload_is_malformed() {
    let raw: RawMessage = [1, 0, 0, 0, 0, 0, 0, 1];
    assert_eq!(Request::try_from(raw), Err(RequestError::MalformedRequest(raw)));
}

#[test]
fn foreground_request_with_padding_is_malformed() {
    let raw: RawMessage = [3, 1, 2, 3, 4, 5, 6, 0];
    assert_eq!(Request::try_from(raw), Err(RequestError::MalformedRequest(raw)));
}

#[test]
fn unknown_request_id_is_invalid() {
    let raw: RawMessage = [9, 0, 0, 0, 0, 0, 0, 0];
    let error = Request::try_from(raw).unwrap_err();
    assert_eq!(error, RequestError::InvalidRequest(raw));
    assert_eq!(error.get_id(), 9);
    let zero: RawMessage = [0, 0, 0, 0, 0, 0, 0, 0];
    assert_eq!(Request::try_from(zero), Err(RequestError::InvalidRequest(zero)));
}
