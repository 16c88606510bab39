//! Status lights: the wire protocol between a host and a multi-LED indicator
//! device, and the device-side light state engine that the protocol drives.
pub mod cli;
pub mod engine;
pub mod host;
pub mod led;
pub mod message;
pub mod processor;
pub mod request;
pub mod response;

pub use engine::{IndexOutOfRange, LightState, Slot, NUM_LEDS};
pub use led::{Color, ColorTimed, Rgb};
pub use message::{
    LedColor, LedColorTimed, Message, RawMessage, VersionNumber, DEVICE_MANUFACTURER,
    DEVICE_PRODUCT,
};
pub use request::{Request, RequestError};
pub use response::{ErrorResponse, ErrorResponseCodes, Response, ResponseError};
