use status_lights::cli::{format_version_number, BackgroundOptions, ForegroundOptions, Opt};
use status_lights::{LedColor, LedColorTimed, VersionNumber};

fn background(device: Option<&str>) -> BackgroundOptions {
    BackgroundOptions { led: 1, red: 2, green: 3, blue: 4, device: device.map(|d| d.to_string()) }
}

fn foreground(seconds: Option<u8>, device: Option<&str>) -> ForegroundOptions {
    ForegroundOptions {
        led: 0,
        red: 9,
        green: 8,
        blue: 7,
        seconds,
        device: device.map(|d| d.to_string()),
    }
}

#[test]
fn device_is_taken_from_the_command() {
    assert_eq!(Opt::List.get_device(), None);
    let bg = Opt::Background(background(Some("/dev/ttyACM1")));
    assert_eq!(bg.get_device(), Some(&"/dev/ttyACM1".to_string()));
    let fg = Opt::Foreground(foreground(None, None));
    assert_eq!(fg.get_device(), None);
}

#[test]
fn command_selects_devices() {
    let path = "/dev/ttyACM1".to_string();
    let other = "/dev/ttyACM2".to_string();
    assert!(Opt::List.selects(&path));
    let bg = Opt::Background(background(Some("/dev/ttyACM1")));
    assert!(bg.selects(&path));
    assert!(!bg.selects(&other));
    let fg = Opt::Foreground(foreground(Some(5), None));
    assert!(fg.selects(&other));
}

#[test]
fn options_become_request_payloads() {
    assert_eq!(LedColor::from(background(None)), LedColor::new(1, 2, 3, 4));
    assert_eq!(
        LedColorTimed::from(foreground(Some(30), None)),
        LedColorTimed::new(0, 9, 8, 7, 30)
    );
    assert_eq!(
        LedColorTimed::from(foreground(None, Some("x"))),
        LedColorTimed::new(0, 9, 8, 7, 0)
    );
}

#[test]
fn versions_are_written_in_decimal() {
    assert_eq!(format_version_number(&VersionNumber::new(1, 2, 3)), "v1.2.3");
    assert_eq!(format_version_number(&VersionNumber::new(12, 0, 255)), "v12.0.255");
    assert_eq!(format_version_number(&VersionNumber::new(100, 10, 99)), "v100.10.99");
}
