use status_lights::{
    ErrorResponse, ErrorResponseCodes, RawMessage, RequestError, Response, ResponseError,
    VersionNumber,
};
use std::convert::TryFrom;

#[test]
fn test_version_response_to_bytes() {
    let message = Response::Version(VersionNumber::new(3, 4, 5));
    assert_eq!(message.to_bytes(), [1, 3, 4, 5, 0, 0, 0, 0]);
}

#[test]
fn test_version_response_from_bytes() {
    let raw_message: [u8; 8] = [1, 3, 4, 5, 0, 0, 0, 0];
    let message = Response::try_from(raw_message).unwrap();
    assert_eq!(message, Response::Version(VersionNumber::new(3, 4, 5)));
}

#[test]
fn test_background_response_to_bytes() {
    let message = Response::Background;
    assert_eq!(message.to_bytes(), [2, 0, 0, 0, 0, 0, 0, 0]);
}

// A background acknowledgement has no payload: a frame with 42 there has no
// known layout.
#[test]
fn test_background_response_from_bytes() {
    let raw_message: [u8; 8] = [2, 42, 0, 0, 0, 0, 0, 0];
    let message = Response::try_from(raw_message);
    assert_eq!(message, Err(ResponseError::UnknownResponse(raw_message)));
}

#[test]
fn test_foreground_response_to_bytes() {
    let message = Response::Foreground;
    assert_eq!(message.to_bytes(), [3, 0, 0, 0, 0, 0, 0, 0]);
}

// A foreground acknowledgement has no payload: a frame with 101 there has no
// known layout.
#[test]
fn test_foreground_response_from_bytes() {
    let raw_message: [u8; 8] = [3, 101, 0, 0, 0, 0, 0, 0];
    let message = Response::try_from(raw_message);
    assert_eq!(message, Err(ResponseError::UnknownResponse(raw_message)));
}

#[test]
fn acknowledgements_decode_from_zero_padding() {
    assert_eq!(Response::try_from([2, 0, 0, 0, 0, 0, 0, 0]), Ok(Response::Background));
    assert_eq!(Response::try_from([3, 0, 0, 0, 0, 0, 0, 0]), Ok(Response::Foreground));
}

#[test]
fn response_round_trips() {
    let responses = [
        Response::ErrorResponse(ErrorResponse::UnknownRequestId(9)),
        Response::ErrorResponse(ErrorResponse::MalformedRequestForId(2)),
        Response::Version(VersionNumber::new(0, 0, 0)),
        Response::Version(VersionNumber::new(255, 254, 253)),
        Response::Background,
        Response::Foreground,
    ];
    for response in responses {
        assert_eq!(Response::try_from(response.to_bytes()), Ok(response));
        let raw: RawMessage = response.into();
        assert_eq!(raw, response.to_bytes());
    }
}

#[test]
fn error_response_frames() {
    let unknown = Response::ErrorResponse(ErrorResponse::UnknownRequestId(9));
    assert_eq!(unknown.to_bytes(), [0, 1, 9, 0, 0, 0, 0, 0]);
    let malformed = Response::ErrorResponse(ErrorResponse::MalformedRequestForId(2));
    assert_eq!(malformed.to_bytes(), [0, 2, 2, 0, 0, 0, 0, 0]);
    assert_eq!(ErrorResponseCodes::UnknownResponseId.code(), 1);
    assert_eq!(ErrorResponseCodes::MalformedRequestForId.code(), 2);
}

#[test]
fn unknown_response_frames() {
    let unknown_id: RawMessage = [4, 0, 0, 0, 0, 0, 0, 0];
    assert_eq!(
        Response::try_from(unknown_id),
        Err(ResponseError::UnknownResponse(unknown_id))
    );
    let unknown_code: RawMessage = [0, 3, 1, 0, 0, 0, 0, 0];
    assert_eq!(
        Response::try_from(unknown_code),
        Err(ResponseError::UnknownResponse(unknown_code))
    );
    let padded_version: RawMessage = [1, 3, 4, 5, 0, 0, 0, 1];
    assert_eq!(
        Response::try_from(padded_version),
        Err(ResponseError::UnknownResponse(padded_version))
    );
    let padded_error: RawMessage = [0, 2, 2, 9, 0, 0, 0, 0];
    assert_eq!(
        Response::try_from(padded_error),
        Err(ResponseError::UnknownResponse(padded_error))
    );
}

#[test]
fn request_errors_become_error_responses() {
    let invalid = RequestError::InvalidRequest([9, 1, 2, 3, 4, 5, 6, 7]);
    assert_eq!(ErrorResponse::from(invalid), ErrorResponse::UnknownRequestId(9));
    let malformed = RequestError::MalformedRequest([2, 1, 2, 3, 4, 5, 6, 7]);
    assert_eq!(ErrorResponse::from(malformed), ErrorResponse::MalformedRequestForId(2));
    assert_eq!(
        ResponseError::from(ErrorResponse::UnknownRequestId(5)),
        ResponseError::ErrorResponse(ErrorResponse::UnknownRequestId(5))
    );
    assert_eq!(
        Response::from(ErrorResponse::MalformedRequestForId(3)),
        Response::ErrorResponse(ErrorResponse::MalformedRequestForId(3))
    );
}
