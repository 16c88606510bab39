//! What the command line asks of the devices, and how versions are written.
use vstd::prelude::*;

use crate::message::{LedColor, LedColorTimed, VersionNumber};

verus! {

/// A background colour to set, and optionally the path of the one device to set it on.
#[derive(Clone, Debug)]
pub struct BackgroundOptions {
    pub led: u8,
    pub red: u8,
    pub green: u8,
    pub blue: u8,
    pub device: Option<String>,
}

impl From<BackgroundOptions> for LedColor {
    fn from(bg: BackgroundOptions) -> (r: LedColor)
        ensures
            r == (LedColor { led: bg.led, red: bg.red, green: bg.green, blue: bg.blue }),
    {
        LedColor { led: bg.led, red: bg.red, green: bg.green, blue: bg.blue }
    }
}

impl vstd::std_specs::convert::FromSpecImpl<BackgroundOptions> for LedColor {
    open spec fn obeys_from_spec() -> bool {
        true
    }

    open spec fn from_spec(bg: BackgroundOptions) -> LedColor {
        LedColor { led: bg.led, red: bg.red, green: bg.green, blue: bg.blue }
    }
}

/// A foreground colour to set, for how many seconds (none: without an end),
/// and optionally the path of the one device to set it on.
#[derive(Clone, Debug)]
pub struct ForegroundOptions {
    pub led: u8,
    pub red: u8,
    pub green: u8,
    pub blue: u8,
    pub seconds: Option<u8>,
    pub device: Option<String>,
}

/// The request payload for foreground options; no time given means zero
/// seconds, a colour without an end.
pub open spec fn led_color_timed_of(fg: ForegroundOptions) -> LedColorTimed {
    LedColorTimed {
        led: fg.led,
        red: fg.red,
        green: fg.green,
        blue: fg.blue,
        seconds: match fg.seconds {
            Some(s) => s,
            None => 0,
        },
    }
}

impl From<ForegroundOptions> for LedColorTimed {
    fn from(fg: ForegroundOptions) -> (r: LedColorTimed)
        ensures
            r == led_color_timed_of(fg),
    {
        LedColorTimed {
            led: fg.led,
            red: fg.red,
            green: fg.green,
            blue: fg.blue,
            seconds: fg.seconds.unwrap_or(0),
        }
    }
}

impl vstd::std_specs::convert::FromSpecImpl<ForegroundOptions> for LedColorTimed {
    open spec fn obeys_from_spec() -> bool {
        true
    }

    open spec fn from_spec(fg: ForegroundOptions) -> LedColorTimed {
        led_color_timed_of(fg)
    }
}

/// A command: list the devices, or set a colour on them.
#[derive(Debug)]
pub enum Opt {
    List,
    Background(BackgroundOptions),
    Foreground(ForegroundOptions),
}

impl Opt {
    /// The path of the one device that the command is for, if it names one.
    pub open spec fn device(&self) -> Option<String> {
        match self {
            Opt::List => None,
            Opt::Background(bg) => bg.device,
            Opt::Foreground(fg) => fg.device,
        }
    }

    /// The path of the one device that the command is for, if it names one.
    pub fn get_device(&self) -> (r: Option<&String>)
        ensures
            r is Some <==> self.device() is Some,
            r is Some ==> *r->0 == self.device()->0,
    {
        match self {
            Opt::List => None,
            Opt::Background(bg) => bg.device.as_ref(),
            Opt::Foreground(fg) => fg.device.as_ref(),
        }
    }

    /// Whether the command is for the device at `path`: it is for every
    /// device unless it names one.
    pub fn selects(&self, path: &String) -> (r: bool)
        ensures
            r == (self.device() is None || self.device()->0@ == path@),
    {
        match self.get_device() {
            None => true,
            Some(device) => device.eq(path),
        }
    }
}

/// The character of a decimal digit.
pub open spec fn digit_char(d: nat) -> char {
    if d == 0 {
        '0'
    } else if d == 1 {
        '1'
    } else if d == 2 {
        '2'
    } else if d == 3 {
        '3'
    } else if d == 4 {
        '4'
    } else if d == 5 {
        '5'
    } else if d == 6 {
        '6'
    } else if d == 7 {
        '7'
    } else if d == 8 {
        '8'
    } else {
        '9'
    }
}

/// The decimal digits of `n`, without leading zeros.
pub open spec fn decimal(n: nat) -> Seq<char>
    decreases n,
{
    if n < 10 {
        seq![digit_char(n)]
    } else {
        decimal(n / 10) + seq![digit_char(n % 10)]
    }
}

/// A version as it is written: `v`, then major, minor and patch in decimal,
/// separated by dots.
pub open spec fn version_text(version: VersionNumber) -> Seq<char> {
    seq!['v'] + decimal(version.major as nat) + seq!['.'] + decimal(version.minor as nat) + seq![
        '.',
    ] + decimal(version.patch as nat)
}

fn digit_str(d: u8) -> (r: &'static str)
    requires
        d < 10,
    ensures
        r@ == seq![digit_char(d as nat)],
{
    if d == 0 {
        proof { reveal_strlit("0"); }
        "0"
    } else if d == 1 {
        proof { reveal_strlit("1"); }
        "1"
    } else if d == 2 {
        proof { reveal_strlit("2"); }
        "2"
    } else if d == 3 {
        proof { reveal_strlit("3"); }
        "3"
    } else if d == 4 {
        proof { reveal_strlit("4"); }
        "4"
    } else if d == 5 {
        proof { reveal_strlit("5"); }
        "5"
    } else if d == 6 {
        proof { reveal_strlit("6"); }
        "6"
    } else if d == 7 {
        proof { reveal_strlit("7"); }
        "7"
    } else if d == 8 {
        proof { reveal_strlit("8"); }
        "8"
    } else {
        proof { reveal_strlit("9"); }
        "9"
    }
}

fn append_decimal(s: &mut String, n: u8)
    ensures
        final(s)@ == old(s)@ + decimal(n as nat),
{
    if n >= 100 {
        s.append(digit_str(n / 100));
    }
    if n >= 10 {
        s.append(digit_str((n / 10) % 10));
    }
    s.append(digit_str(n % 10));
    proof {
        let m = n as nat;
        if m >= 100 {
            assert(decimal(m / 100) == seq![digit_char(m / 100)]);
            assert(decimal(m / 10) == decimal(m / 10 / 10) + seq![digit_char((m / 10) % 10)]);
            assert(m / 10 / 10 == m / 100);
        } else if m >= 10 {
            assert(decimal(m / 10) == seq![digit_char(m / 10)]);
            assert(m / 10 == (m / 10) % 10);
        }
        assert(s@ =~= old(s)@ + decimal(m));
    }
}

/// Writes a version as `v<major>.<minor>.<patch>`.
pub fn format_version_number(version: &VersionNumber) -> (r: String)
    ensures
        r@ == version_text(*version),
{
    proof { reveal_strlit("v"); reveal_strlit("."); }
    let mut s = String::from_str("v");
    append_decimal(&mut s, version.major);
    s.append(".");
    append_decimal(&mut s, version.minor);
    s.append(".");
    append_decimal(&mut s, version.patch);
    assert(s@ =~= version_text(*version));
    s
}

} // verus!
