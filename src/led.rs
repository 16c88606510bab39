//! Colours as the device stores them, and as the LED driver takes them.
use vstd::prelude::*;

use crate::message::{LedColor, LedColorTimed};

verus! {

/// One value for the LED driver: a red, a green and a blue intensity.
#[derive(Clone, Copy, PartialEq, Eq, Structural, Debug)]
pub struct Rgb {
    pub r: u8,
    pub g: u8,
    pub b: u8,
}

impl Rgb {
    /// The value of an LED that is off.
    pub open spec fn spec_off() -> Rgb {
        Rgb { r: 0, g: 0, b: 0 }
    }

    /// The value of an LED that is off.
    pub fn off() -> (r: Rgb)
        ensures
            r == Rgb::spec_off(),
    {
        Rgb { r: 0, g: 0, b: 0 }
    }
}

/// The steady colour of an LED. Pure black means that no colour is set.
#[derive(Clone, Copy, PartialEq, Eq, Structural, Debug)]
pub struct Color {
    pub red: u8,
    pub green: u8,
    pub blue: u8,
}

impl Color {
    /// Whether this is the black that stands for "no colour".
    pub open spec fn is_off(self) -> bool {
        self.red == 0 && self.green == 0 && self.blue == 0
    }

    /// This colour as a value for the LED driver.
    pub open spec fn rgb(self) -> Rgb {
        Rgb { r: self.red, g: self.green, b: self.blue }
    }

    /// The colour that is not set.
    pub fn default() -> (r: Color)
        ensures
            r == (Color { red: 0, green: 0, blue: 0 }),
    {
        Color { red: 0, green: 0, blue: 0 }
    }

    /// The value to show for this colour, or `None` where it is not set.
    pub fn to_rgb(&self) -> (r: Option<Rgb>)
        ensures
            r == (if self.is_off() { None } else { Some(self.rgb()) }),
    {
        if self.red == 0 && self.green == 0 && self.blue == 0 {
            None
        } else {
            Some(Rgb { r: self.red, g: self.green, b: self.blue })
        }
    }
}

/// The colour part of a message that sets a background.
pub open spec fn color_of(led_color: LedColor) -> Color {
    Color { red: led_color.red, green: led_color.green, blue: led_color.blue }
}

impl From<LedColor> for Color {
    fn from(led_color: LedColor) -> (r: Color)
        ensures
            r == color_of(led_color),
    {
        Color { red: led_color.red, green: led_color.green, blue: led_color.blue }
    }
}

impl vstd::std_specs::convert::FromSpecImpl<LedColor> for Color {
    open spec fn obeys_from_spec() -> bool {
        true
    }

    open spec fn from_spec(led_color: LedColor) -> Color {
        color_of(led_color)
    }
}

/// Milliseconds in a second.
pub const MS_PER_SECOND: u32 = 1000;

/// A colour that lasts for a time. A time of zero means that the colour does
/// not expire; a colour whose time runs out is reset to black.
#[derive(Clone, Copy, PartialEq, Eq, Structural, Debug)]
pub struct ColorTimed {
    pub red: u8,
    pub green: u8,
    pub blue: u8,
    pub ms_remaining: u32,
}

impl ColorTimed {
    /// Whether this is the black that stands for "no colour".
    pub open spec fn is_off(self) -> bool {
        self.red == 0 && self.green == 0 && self.blue == 0
    }

    /// This colour as a value for the LED driver.
    pub open spec fn rgb(self) -> Rgb {
        Rgb { r: self.red, g: self.green, b: self.blue }
    }

    /// A colour that lasts `seconds`, or that does not expire where `seconds` is zero.
    pub open spec fn timed(color: Color, seconds: u8) -> ColorTimed {
        ColorTimed {
            red: color.red,
            green: color.green,
            blue: color.blue,
            ms_remaining: (seconds * MS_PER_SECOND) as u32,
        }
    }

    /// What is left of this colour once `ms` milliseconds have passed.
    pub open spec fn reduced(self, ms: u32) -> ColorTimed {
        if self.ms_remaining == 0 {
            self
        } else if self.ms_remaining <= ms {
            ColorTimed { red: 0, green: 0, blue: 0, ms_remaining: 0 }
        } else {
            ColorTimed {
                red: self.red,
                green: self.green,
                blue: self.blue,
                ms_remaining: (self.ms_remaining - ms) as u32,
            }
        }
    }

    /// The colour that is not set.
    pub fn default() -> (r: ColorTimed)
        ensures
            r == (ColorTimed { red: 0, green: 0, blue: 0, ms_remaining: 0 }),
    {
        ColorTimed { red: 0, green: 0, blue: 0, ms_remaining: 0 }
    }

    /// The value to show for this colour, or `None` where it is not set.
    pub fn to_rgb(&self) -> (r: Option<Rgb>)
        ensures
            r == (if self.is_off() { None } else { Some(self.rgb()) }),
    {
        if self.red == 0 && self.green == 0 && self.blue == 0 {
            None
        } else {
            Some(Rgb { r: self.red, g: self.green, b: self.blue })
        }
    }

    /// Lets `ms` milliseconds pass. A colour without a time is left as it is;
    /// one whose time runs out becomes black.
    pub fn reduce_time(&mut self, ms: u32)
        ensures
            *final(self) == old(self).reduced(ms),
    {
        if self.ms_remaining == 0 {
            return;
        }
        self.ms_remaining = self.ms_remaining.saturating_sub(ms);
        if self.ms_remaining == 0 {
            self.red = 0;
            self.green = 0;
            self.blue = 0;
        }
    }
}

/// The colour part of a message that sets a foreground.
pub open spec fn color_timed_of(led_color_timed: LedColorTimed) -> ColorTimed {
    ColorTimed::timed(
        Color {
            red: led_color_timed.red,
            green: led_color_timed.green,
            blue: led_color_timed.blue,
        },
        led_color_timed.seconds,
    )
}

impl From<LedColorTimed> for ColorTimed {
    fn from(led_color_timed: LedColorTimed) -> (r: ColorTimed)
        ensures
            r == color_timed_of(led_color_timed),
    {
        ColorTimed {
            red: led_color_timed.red,
            green: led_color_timed.green,
            blue: led_color_timed.blue,
            ms_remaining: (led_color_timed.seconds as u32) * MS_PER_SECOND,
        }
    }
}

impl vstd::std_specs::convert::FromSpecImpl<LedColorTimed> for ColorTimed {
    open spec fn obeys_from_spec() -> bool {
        true
    }

    open spec fn from_spec(led_color_timed: LedColorTimed) -> ColorTimed {
        color_timed_of(led_color_timed)
    }
}

} // verus!
