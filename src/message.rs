//! Messages are sent as fixed frames of eight bytes. The first byte tells the
//! recipient what the message is, the remaining bytes carry its payload, padded
//! with zeros where the message holds fewer than eight bytes of information.
use vstd::prelude::*;

verus! {

/// One frame on the wire.
pub type RawMessage = [u8; 8];

/// The manufacturer string that a status lights device reports.
pub const DEVICE_MANUFACTURER: &'static str = "Gisleburt";

/// The product string that a status lights device reports.
pub const DEVICE_PRODUCT: &'static str = "Status Lights";

/// A message that converts to and from a frame.
pub trait Message: core::convert::TryFrom<RawMessage> + Into<RawMessage> {}

/// The version of the software running on the device.
#[derive(Clone, Copy, PartialEq, Eq, Structural, Debug)]
pub struct VersionNumber {
    pub major: u8,
    pub minor: u8,
    pub patch: u8,
}

impl VersionNumber {
    pub fn new(major: u8, minor: u8, patch: u8) -> (r: VersionNumber)
        ensures
            r == (VersionNumber { major, minor, patch }),
    {
        VersionNumber { major, minor, patch }
    }
}

/// The steady colour of one LED.
#[derive(Clone, Copy, PartialEq, Eq, Structural, Debug)]
pub struct LedColor {
    pub led: u8,
    pub red: u8,
    pub green: u8,
    pub blue: u8,
}

impl LedColor {
    pub fn new(led: u8, red: u8, green: u8, blue: u8) -> (r: LedColor)
        ensures
            r == (LedColor { led, red, green, blue }),
    {
        LedColor { led, red, green, blue }
    }
}

/// The colour of one LED and how many seconds it is to last.
#[derive(Clone, Copy, PartialEq, Eq, Structural, Debug)]
pub struct LedColorTimed {
    pub led: u8,
    pub red: u8,
    pub green: u8,
    pub blue: u8,
    pub seconds: u8,
}

impl LedColorTimed {
    pub fn new(led: u8, red: u8, green: u8, blue: u8, seconds: u8) -> (r: LedColorTimed)
        ensures
            r == (LedColorTimed { led, red, green, blue, seconds }),
    {
        LedColorTimed { led, red, green, blue, seconds }
    }
}

} // verus!
