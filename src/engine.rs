//! The light state engine: one slot per LED, each with a steady background
//! colour and a foreground colour that may expire, and the render tick that
//! lets time pass and composes the frame to show.
use vstd::prelude::*;

use crate::led::{Color, ColorTimed, Rgb};

verus! {

/// How many LEDs the device drives.
pub const NUM_LEDS: usize = 4;

/// The state of one LED.
#[derive(Clone, Copy, PartialEq, Eq, Structural, Debug)]
pub struct Slot {
    pub background: Color,
    pub foreground: ColorTimed,
}

impl Slot {
    /// A slot with no colour set.
    pub open spec fn spec_off() -> Slot {
        Slot {
            background: Color { red: 0, green: 0, blue: 0 },
            foreground: ColorTimed { red: 0, green: 0, blue: 0, ms_remaining: 0 },
        }
    }

    /// What the LED shows: the foreground where one is set, else the
    /// background where one is set, else nothing.
    pub open spec fn shown(self) -> Rgb {
        if !self.foreground.is_off() {
            self.foreground.rgb()
        } else if !self.background.is_off() {
            self.background.rgb()
        } else {
            Rgb::spec_off()
        }
    }

    /// This slot once `ms` milliseconds have passed.
    pub open spec fn after(self, ms: u32) -> Slot {
        Slot { background: self.background, foreground: self.foreground.reduced(ms) }
    }

    /// This slot once each of `elapsed` has passed, in order.
    pub open spec fn after_all(self, elapsed: Seq<u32>) -> Slot
        decreases elapsed.len(),
    {
        if elapsed.len() == 0 {
            self
        } else {
            self.after(elapsed[0]).after_all(elapsed.drop_first())
        }
    }

    /// A slot with no colour set.
    pub fn off() -> (r: Slot)
        ensures
            r == Slot::spec_off(),
    {
        Slot { background: Color::default(), foreground: ColorTimed::default() }
    }

    /// What the LED shows.
    pub fn to_rgb(&self) -> (r: Rgb)
        ensures
            r == self.shown(),
    {
        match self.foreground.to_rgb() {
            Some(rgb) => rgb,
            None => match self.background.to_rgb() {
                Some(rgb) => rgb,
                None => Rgb::off(),
            },
        }
    }
}

/// An LED index at or beyond the number of LEDs.
#[derive(Clone, Copy, PartialEq, Eq, Structural, Debug)]
pub struct IndexOutOfRange;

/// The colours of all LEDs of the device. It is owned by one activity at a
/// time: whoever renders and whoever handles commands take it in turn, so no
/// slot is ever seen half updated.
#[derive(Clone, Copy, PartialEq, Eq, Debug)]
pub struct LightState {
    slots: [Slot; NUM_LEDS],
}

impl View for LightState {
    type V = Seq<Slot>;

    closed spec fn view(&self) -> Seq<Slot> {
        self.slots@
    }
}

/// There is one slot for each LED.
pub broadcast proof fn lemma_light_state_len(state: LightState)
    ensures
        #[trigger] state@.len() == NUM_LEDS,
{
}

/// The frame that a state shows.
pub open spec fn frame_of(slots: Seq<Slot>) -> Seq<Rgb> {
    Seq::new(slots.len(), |i: int| slots[i].shown())
}

/// The slots once `ms` milliseconds have passed.
pub open spec fn slots_after(slots: Seq<Slot>, ms: u32) -> Seq<Slot> {
    Seq::new(slots.len(), |i: int| slots[i].after(ms))
}

impl LightState {
    /// All LEDs off, as at start-up.
    pub fn new() -> (r: LightState)
        ensures
            r@ == Seq::new(NUM_LEDS as nat, |i: int| Slot::spec_off()),
    {
        let r = LightState { slots: [Slot::off(), Slot::off(), Slot::off(), Slot::off()] };
        assert(r@ =~= Seq::new(NUM_LEDS as nat, |i: int| Slot::spec_off()));
        r
    }

    /// The slot of LED `index`.
    pub fn slot(&self, index: usize) -> (r: Slot)
        requires
            index < NUM_LEDS,
        ensures
            r == self@[index as int],
    {
        self.slots[index]
    }

    /// Sets the background colour of LED `index`. Fails, and changes nothing,
    /// where there is no such LED.
    pub fn set_background(&mut self, index: u8, color: Color) -> (r: Result<(), IndexOutOfRange>)
        ensures
            r is Ok <==> (index as usize) < NUM_LEDS,
            r is Ok ==> final(self)@ == old(self)@.update(
                index as int,
                Slot { background: color, foreground: old(self)@[index as int].foreground },
            ),
            r is Err ==> final(self)@ == old(self)@,
    {
        let i = index as usize;
        if i >= NUM_LEDS {
            return Err(IndexOutOfRange);
        }
        let slot = self.slots[i];
        self.slots[i] = Slot { background: color, foreground: slot.foreground };
        assert(self@ =~= old(self)@.update(index as int, Slot { background: color, foreground: slot.foreground }));
        Ok(())
    }

    /// Sets the foreground colour of LED `index` for `seconds`, or without an
    /// end where `seconds` is zero. Fails, and changes nothing, where there is
    /// no such LED.
    pub fn set_foreground(&mut self, index: u8, color: Color, seconds: u8) -> (r: Result<
        (),
        IndexOutOfRange,
    >)
        ensures
            r is Ok <==> (index as usize) < NUM_LEDS,
            r is Ok ==> final(self)@ == old(self)@.update(
                index as int,
                Slot {
                    background: old(self)@[index as int].background,
                    foreground: ColorTimed::timed(color, seconds),
                },
            ),
            r is Err ==> final(self)@ == old(self)@,
    {
        let i = index as usize;
        if i >= NUM_LEDS {
            return Err(IndexOutOfRange);
        }
        let slot = self.slots[i];
        let foreground = ColorTimed {
            red: color.red,
            green: color.green,
            blue: color.blue,
            ms_remaining: (seconds as u32) * crate::led::MS_PER_SECOND,
        };
        self.slots[i] = Slot { background: slot.background, foreground };
        assert(self@ =~= old(self)@.update(index as int, Slot { background: slot.background, foreground }));
        Ok(())
    }

    /// Lets `elapsed_ms` milliseconds pass, then returns what each LED shows.
    /// Foreground colours with a time count down, and those that run out are
    /// reset; nothing else changes.
    pub fn tick(&mut self, elapsed_ms: u32) -> (r: [Rgb; NUM_LEDS])
        ensures
            final(self)@ == slots_after(old(self)@, elapsed_ms),
            r@ == frame_of(final(self)@),
    {
        let mut frame = [Rgb::off(), Rgb::off(), Rgb::off(), Rgb::off()];
        let mut i: usize = 0;
        while i < NUM_LEDS
            invariant
                i <= NUM_LEDS,
                forall|j: int| 0 <= j < i ==> self.slots[j] == old(self).slots[j].after(elapsed_ms),
                forall|j: int| i <= j < NUM_LEDS ==> self.slots[j] == old(self).slots[j],
                forall|j: int| 0 <= j < i ==> frame[j] == self.slots[j].shown(),
            decreases NUM_LEDS - i,
        {
            let mut slot = self.slots[i];
            slot.foreground.reduce_time(elapsed_ms);
            self.slots[i] = slot;
            frame[i] = slot.to_rgb();
            i = i + 1;
        }
        assert(self@ =~= slots_after(old(self)@, elapsed_ms));
        assert(frame@ =~= frame_of(self@));
        frame
    }
}

/// A foreground colour set without a time is never reset: however much time
/// passes, over however many ticks, the slot stays as it is and shows that
/// colour.
pub proof fn lemma_untimed_foreground_stays(background: Color, color: Color, elapsed: Seq<u32>)
    requires
        !color.is_off(),
    ensures
        (Slot { background, foreground: ColorTimed::timed(color, 0) }).after_all(elapsed) == (Slot {
            background,
            foreground: ColorTimed::timed(color, 0),
        }),
        (Slot { background, foreground: ColorTimed::timed(color, 0) }).after_all(elapsed).shown()
            == color.rgb(),
    decreases elapsed.len(),
{
    let slot = Slot { background, foreground: ColorTimed::timed(color, 0) };
    if elapsed.len() > 0 {
        assert(slot.after(elapsed[0]) == slot);
        lemma_untimed_foreground_stays(background, color, elapsed.drop_first());
    }
}

} // verus!
