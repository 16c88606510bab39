use status_lights::{Color, ColorTimed, IndexOutOfRange, LedColor, LedColorTimed, LightState, Rgb, NUM_LEDS};

fn rgb(r: u8, g: u8, b: u8) -> Rgb {
    Rgb { r, g, b }
}

fn color(red: u8, green: u8, blue: u8) -> Color {
    Color { red, green, blue }
}

#[test]
fn new_state_shows_nothing() {
    let mut state = LightState::new();
    assert_eq!(state.tick(500), [Rgb::off(); NUM_LEDS]);
    assert_eq!(state, LightState::new());
}

#[test]
fn background_shows_and_foreground_overrides_until_expiry() {
    let mut state = LightState::new();
    assert_eq!(state.set_background(0, color(10, 0, 0)), Ok(()));
    assert_eq!(state.tick(500)[0], rgb(10, 0, 0));
    assert_eq!(state.set_foreground(0, color(0, 10, 0), 2), Ok(()));
    assert_eq!(state.tick(500)[0], rgb(0, 10, 0));
    assert_eq!(state.tick(500)[0], rgb(0, 10, 0));
    assert_eq!(state.tick(500)[0], rgb(0, 10, 0));
    assert_eq!(state.tick(500)[0], rgb(10, 0, 0));
    assert_eq!(state.tick(500)[0], rgb(10, 0, 0));
}

#[test]
fn foreground_expires_at_its_last_millisecond() {
    let mut state = LightState::new();
    state.set_background(2, color(10, 0, 0)).unwrap();
    state.set_foreground(2, color(0, 0, 10), 1).unwrap();
    assert_eq!(state.tick(999)[2], rgb(0, 0, 10));
    assert_eq!(state.slot(2).foreground.ms_remaining, 1);
    assert_eq!(state.tick(1)[2], rgb(10, 0, 0));
    assert_eq!(state.slot(2).foreground, ColorTimed::default());
}

#[test]
fn foreground_without_time_never_expires() {
    let mut state = LightState::new();
    state.set_background(1, color(10, 0, 0)).unwrap();
    state.set_foreground(1, color(0, 10, 0), 0).unwrap();
    for _ in 0..5 {
        assert_eq!(state.tick(u32::MAX)[1], rgb(0, 10, 0));
    }
    assert_eq!(state.slot(1).foreground.ms_remaining, 0);
}

#[test]
fn index_past_the_last_led_is_refused() {
    let mut state = LightState::new();
    state.set_background(3, color(1, 2, 3)).unwrap();
    let before = state;
    assert_eq!(state.set_background(NUM_LEDS as u8, color(10, 0, 0)), Err(IndexOutOfRange));
    assert_eq!(state.set_foreground(NUM_LEDS as u8, color(10, 0, 0), 5), Err(IndexOutOfRange));
    assert_eq!(state.set_background(255, color(10, 0, 0)), Err(IndexOutOfRange));
    assert_eq!(state, before);
}

#[test]
fn foreground_time_counts_down_in_milliseconds() {
    let mut state = LightState::new();
    state.set_foreground(3, color(5, 6, 7), 3).unwrap();
    assert_eq!(state.slot(3).foreground.ms_remaining, 3000);
    state.tick(1200);
    assert_eq!(state.slot(3).foreground.ms_remaining, 1800);
    assert_eq!(state.slot(3).foreground.red, 5);
}

#[test]
fn black_foreground_lets_background_show() {
    let mut state = LightState::new();
    state.set_background(0, color(1, 1, 1)).unwrap();
    state.set_foreground(0, color(0, 0, 0), 5).unwrap();
    assert_eq!(state.tick(0)[0], rgb(1, 1, 1));
}

#[test]
fn reduce_time_counts_down_and_resets() {
    let mut timed = ColorTimed { red: 1, green: 2, blue: 3, ms_remaining: 1500 };
    timed.reduce_time(500);
    assert_eq!(timed, ColorTimed { red: 1, green: 2, blue: 3, ms_remaining: 1000 });
    timed.reduce_time(2000);
    assert_eq!(timed, ColorTimed::default());
    let mut untimed = ColorTimed { red: 1, green: 2, blue: 3, ms_remaining: 0 };
    untimed.reduce_time(2000);
    assert_eq!(untimed, ColorTimed { red: 1, green: 2, blue: 3, ms_remaining: 0 });
}

#[test]
fn colors_convert_from_messages() {
    assert_eq!(Color::from(LedColor::new(3, 4, 5, 6)), color(4, 5, 6));
    assert_eq!(
        ColorTimed::from(LedColorTimed::new(3, 4, 5, 6, 10)),
        ColorTimed { red: 4, green: 5, blue: 6, ms_remaining: 10000 }
    );
    assert_eq!(
        ColorTimed::from(LedColorTimed::new(0, 1, 1, 1, 255)).ms_remaining,
        255000
    );
}

#[test]
fn black_is_no_color() {
    assert_eq!(Color::default().to_rgb(), None);
    assert_eq!(color(0, 0, 1).to_rgb(), Some(rgb(0, 0, 1)));
    assert_eq!(ColorTimed::default().to_rgb(), None);
    assert_eq!(
        ColorTimed { red: 9, green: 0, blue: 0, ms_remaining: 0 }.to_rgb(),
        Some(rgb(9, 0, 0))
    );
}
