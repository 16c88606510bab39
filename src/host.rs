//! The host side of the protocol: which serial devices are status lights
//! devices, and what the host makes of the frame a device sends back.
use vstd::prelude::*;

use crate::message::{RawMessage, VersionNumber, DEVICE_MANUFACTURER, DEVICE_PRODUCT};
use crate::response::{decode_response, Response, ResponseError};
use core::convert::TryFrom;

verus! {

/// What can go wrong when the host talks to a device.
#[derive(Debug)]
pub enum ClientError {
    /// The device reported an error, or sent a frame of no known layout.
    ErrorReceivedFromDevice(ResponseError),
    /// The device at this path did not answer.
    NoResponseReceived(String),
    /// The frame could not be written to the device at this path.
    DeviceWriteError(String),
    /// The frame could not be read from the device at this path.
    DeviceReadError(String),
    /// The serial port could not be listed or opened.
    GeneralSerialError,
    /// The device answered with a well-formed response that does not answer
    /// the request that was sent.
    UnexpectedResponse(Response),
}

impl From<ResponseError> for ClientError {
    fn from(error: ResponseError) -> (r: ClientError)
        ensures
            r == ClientError::ErrorReceivedFromDevice(error),
    {
        ClientError::ErrorReceivedFromDevice(error)
    }
}

impl vstd::std_specs::convert::FromSpecImpl<ResponseError> for ClientError {
    open spec fn obeys_from_spec() -> bool {
        true
    }

    open spec fn from_spec(error: ResponseError) -> ClientError {
        ClientError::ErrorReceivedFromDevice(error)
    }
}

/// Whether a USB serial port reports the manufacturer and product of a status
/// lights device.
pub open spec fn is_known(manufacturer: Option<String>, product: Option<String>) -> bool {
    &&& manufacturer is Some
    &&& manufacturer->0@ == DEVICE_MANUFACTURER@
    &&& product is Some
    &&& product->0@ == DEVICE_PRODUCT@
}

/// Whether a USB serial port reports the manufacturer and product of a status
/// lights device.
pub fn is_known_device(manufacturer: &Option<String>, product: &Option<String>) -> (r: bool)
    ensures
        r == is_known(*manufacturer, *product),
{
    let known_manufacturer = String::from_str(DEVICE_MANUFACTURER);
    let known_product = String::from_str(DEVICE_PRODUCT);
    match (manufacturer, product) {
        (Some(m), Some(p)) => m.eq(&known_manufacturer) && p.eq(&known_product),
        _ => false,
    }
}

/// A serial port that leads to a status lights device, named by the serial
/// number that the device reports.
#[derive(Debug)]
pub struct AvailableDevice {
    path: String,
    name: String,
}

impl AvailableDevice {
    /// The path of the serial port.
    pub closed spec fn path_view(&self) -> Seq<char> {
        self.path@
    }

    /// The serial number of the device.
    pub closed spec fn name_view(&self) -> Seq<char> {
        self.name@
    }

    /// The device behind a serial port, where the port reports the
    /// manufacturer and product of a status lights device and a serial number.
    pub fn from_port(
        path: String,
        manufacturer: Option<String>,
        product: Option<String>,
        serial_number: Option<String>,
    ) -> (r: Option<AvailableDevice>)
        ensures
            r is Some <==> is_known(manufacturer, product) && serial_number is Some,
            r is Some ==> r->0.path_view() == path@ && r->0.name_view() == serial_number->0@,
    {
        if is_known_device(&manufacturer, &product) {
            match serial_number {
                Some(name) => Some(AvailableDevice { path, name }),
                None => None,
            }
        } else {
            None
        }
    }

    /// The path of the serial port.
    pub fn get_path(&self) -> (r: &String)
        ensures
            r@ == self.path_view(),
    {
        &self.path
    }

    /// The serial number of the device.
    pub fn get_name(&self) -> (r: &str)
        ensures
            r@ == self.name_view(),
    {
        self.name.as_str()
    }
}

/// The host's reading of a reply to a version request.
pub open spec fn version_reply(msg: RawMessage) -> Result<VersionNumber, ClientError> {
    match decode_response(msg) {
        Ok(Response::Version(v)) => Ok(v),
        Ok(Response::ErrorResponse(e)) => Err(
            ClientError::ErrorReceivedFromDevice(ResponseError::ErrorResponse(e)),
        ),
        Ok(other) => Err(ClientError::UnexpectedResponse(other)),
        Err(e) => Err(ClientError::ErrorReceivedFromDevice(e)),
    }
}

/// The host's reading of a reply to a request whose answer is the
/// acknowledgement `expected`.
pub open spec fn ack_reply(msg: RawMessage, expected: Response) -> Result<(), ClientError> {
    match decode_response(msg) {
        Ok(Response::ErrorResponse(e)) => Err(
            ClientError::ErrorReceivedFromDevice(ResponseError::ErrorResponse(e)),
        ),
        Ok(other) => if other == expected {
            Ok(())
        } else {
            Err(ClientError::UnexpectedResponse(other))
        },
        Err(e) => Err(ClientError::ErrorReceivedFromDevice(e)),
    }
}

/// Reads the reply to a version request: the device's version, the error it
/// reported, or the response that does not answer the request.
pub fn read_version_reply(msg: RawMessage) -> (r: Result<VersionNumber, ClientError>)
    ensures
        r == version_reply(msg),
{
    match Response::try_from(msg) {
        Ok(Response::Version(version)) => Ok(version),
        Ok(Response::ErrorResponse(e)) => Err(ClientError::from(ResponseError::from(e))),
        Ok(other) => Err(ClientError::UnexpectedResponse(other)),
        Err(e) => Err(ClientError::from(e)),
    }
}

fn read_ack(msg: RawMessage, expected: Response) -> (r: Result<(), ClientError>)
    ensures
        r == ack_reply(msg, expected),
{
    match Response::try_from(msg) {
        Ok(Response::ErrorResponse(e)) => Err(ClientError::from(ResponseError::from(e))),
        Ok(other) => if other == expected {
            Ok(())
        } else {
            Err(ClientError::UnexpectedResponse(other))
        },
        Err(e) => Err(ClientError::from(e)),
    }
}

/// Reads the reply to a background request.
pub fn read_background_reply(msg: RawMessage) -> (r: Result<(), ClientError>)
    ensures
        r == ack_reply(msg, Response::Background),
{
    read_ack(msg, Response::Background)
}

/// Reads the reply to a foreground request.
pub fn read_foreground_reply(msg: RawMessage) -> (r: Result<(), ClientError>)
    ensures
        r == ack_reply(msg, Response::Foreground),
{
    read_ack(msg, Response::Foreground)
}

} // verus!
