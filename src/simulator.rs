//! The capability object: one value that owns the colour table, the
//! keyboard layout, the storage arena and the clock, and answers every call
//! that the application makes of the device.
use vstd::prelude::*;
use crate::clock::{Clock, millis_of};
use crate::color::ColorTable;
use crate::display::{HEIGHT, WIDTH, Sprite, native_pixels, sprite_to_buffer};
use crate::input::{
    ButtonEvent,
    ButtonInput,
    KeyMapping,
    PhysicalKey,
    button_mapping,
    layout_has_fuzz_candidate,
    mapping_table,
    random_fuzz_button,
    scan_keys,
    scan_result,
};
use crate::storage::{STORAGE_SIZE, Storage, in_bounds, read_back, written};

verus! {

/// The two switches read once at startup.
#[derive(Clone, Copy, Debug, PartialEq, Eq, Structural)]
pub struct SimulatorConfig {
    /// Ask the application to run its self-tests.
    pub run_tests: bool,
    /// Feed the application random button presses instead of the keyboard.
    pub fuzz: bool,
}

/// The button event that a scan result stands for.
pub open spec fn press_of(b: Option<ButtonInput>) -> Option<ButtonEvent> {
    match b {
        Some(input) => Some(ButtonEvent::Press(input)),
        None => None,
    }
}

pub struct Simulator {
    config: SimulatorConfig,
    colors: ColorTable,
    layout: Vec<KeyMapping>,
    storage: Storage,
    clock: Clock,
    fuzzer_first_input: bool,
}

impl Simulator {
    pub closed spec fn wf(&self) -> bool {
        &&& self.colors.wf()
        &&& self.layout@ == mapping_table()
        &&& self.storage.wf()
    }

    pub closed spec fn config(&self) -> SimulatorConfig {
        self.config
    }

    /// The contents of the storage arena.
    pub closed spec fn arena(&self) -> Seq<u8> {
        self.storage@
    }

    /// The last clock reading given, in microseconds.
    pub closed spec fn clock_reading(&self) -> u64 {
        self.clock@
    }

    /// Whether the next fuzz event is still the opening `Exe` press.
    pub closed spec fn fuzz_opening_pending(&self) -> bool {
        self.fuzzer_first_input
    }

    /// Builds the simulator: tables filled, arena zeroed, clock started.
    pub fn new(config: SimulatorConfig) -> (s: Simulator)
        ensures
            s.wf(),
            s.config() == config,
            s.arena().len() == STORAGE_SIZE,
            forall|i: int| 0 <= i < STORAGE_SIZE ==> #[trigger] s.arena()[i] == 0,
            s.clock_reading() == 0,
            s.fuzz_opening_pending(),
    {
        Simulator {
            config,
            colors: ColorTable::new(),
            layout: button_mapping(),
            storage: Storage::new(),
            clock: Clock::new(),
            fuzzer_first_input: true,
        }
    }

    /// Names this hardware as the simulator.
    pub fn hardware_revision(&self) -> (r: String)
        ensures
            r@ == "Simulator"@,
    {
        String::from_str("Simulator")
    }

    /// Memory accounting is not modelled: always `(0, 0)`.
    pub fn memory_usage(&self) -> (r: (usize, usize))
        ensures
            r == (0usize, 0usize),
    {
        (0, 0)
    }

    /// Whether the application should run its self-tests.
    pub fn should_run_tests(&mut self) -> (r: bool)
        ensures
            r == old(self).config().run_tests,
            *final(self) == *old(self),
    {
        self.config.run_tests
    }

    /// Whether button events come from the fuzz generator.
    pub fn is_fuzzing(&self) -> (r: bool)
        ensures
            r == self.config().fuzz,
    {
        self.config.fuzz
    }

    pub fn width(&self) -> (r: u16)
        ensures
            r == WIDTH,
    {
        WIDTH
    }

    pub fn height(&self) -> (r: u16)
        ensures
            r == HEIGHT,
    {
        HEIGHT
    }

    /// The native pixels of a sprite, ready for the display surface.
    pub fn frame_buffer(&self, sprite: &Sprite) -> (r: Vec<u32>)
        requires
            self.wf(),
        ensures
            r@ == native_pixels(sprite.data@),
    {
        sprite_to_buffer(&self.colors, sprite)
    }

    /// One cycle of waiting for a button on the keyboard: given the keys
    /// freshly pressed in this cycle and whether a shift key is held, the
    /// press of the first layout line that fires, or `None` when the window
    /// should be pumped and the keyboard read again.
    pub fn scan_keyboard(&self, pressed: &Vec<PhysicalKey>, shift_down: bool) -> (r: Option<
        ButtonEvent,
    >)
        requires
            self.wf(),
        ensures
            r == press_of(scan_result(mapping_table(), pressed@, shift_down)),
    {
        match scan_keys(&self.layout, pressed, shift_down) {
            Some(input) => Some(ButtonEvent::Press(input)),
            None => None,
        }
    }

    /// The next event of fuzz mode. The first is always a press of `Exe`;
    /// every later one is a random layout button other than `Menu`.
    pub fn fuzz_input(&mut self) -> (r: ButtonEvent)
        requires
            old(self).wf(),
        ensures
            final(self).wf(),
            final(self).config() == old(self).config(),
            final(self).arena() == old(self).arena(),
            final(self).clock_reading() == old(self).clock_reading(),
            !final(self).fuzz_opening_pending(),
            old(self).fuzz_opening_pending() ==> r == ButtonEvent::Press(ButtonInput::Exe),
            !old(self).fuzz_opening_pending() ==> (r matches ButtonEvent::Press(b)
                && b != ButtonInput::Menu
                && exists|k: int| 0 <= k < mapping_table().len()
                    && (#[trigger] mapping_table()[k]).input == b),
    {
        if self.fuzzer_first_input {
            self.fuzzer_first_input = false;
            return ButtonEvent::Press(ButtonInput::Exe);
        }
        proof {
            layout_has_fuzz_candidate();
        }
        ButtonEvent::Press(random_fuzz_button(&self.layout))
    }

    /// Non-blocking polling is not offered: always `None`.
    pub fn poll_event(&mut self) -> (r: Option<ButtonEvent>)
        ensures
            r.is_none(),
            *final(self) == *old(self),
    {
        None
    }

    /// The arena is always there.
    pub fn is_connected(&mut self) -> (r: bool)
        ensures
            r,
            *final(self) == *old(self),
    {
        true
    }

    /// The arena is never busy.
    pub fn is_busy(&mut self) -> (r: bool)
        ensures
            !r,
            *final(self) == *old(self),
    {
        false
    }

    /// Copies `bytes` into the arena at `address`.
    pub fn write(&mut self, address: u16, bytes: &[u8]) -> (r: Option<()>)
        requires
            old(self).wf(),
            in_bounds(address, bytes@.len() as int),
        ensures
            final(self).wf(),
            final(self).config() == old(self).config(),
            final(self).clock_reading() == old(self).clock_reading(),
            final(self).fuzz_opening_pending() == old(self).fuzz_opening_pending(),
            final(self).arena() == written(old(self).arena(), address as int, bytes@),
            r == Some(()),
    {
        self.storage.write(address, bytes)
    }

    /// Fills `bytes` from the arena at `address`.
    pub fn read(&mut self, address: u16, bytes: &mut [u8]) -> (r: Option<()>)
        requires
            old(self).wf(),
            in_bounds(address, old(bytes)@.len() as int),
        ensures
            *final(self) == *old(self),
            final(bytes)@ == read_back(old(self).arena(), address as int, old(bytes)@.len() as int),
            r == Some(()),
    {
        self.storage.read(address, bytes)
    }

    /// Nothing shares the arena, so there is nothing to arbitrate.
    pub fn acquire_priority(&mut self)
        ensures
            *final(self) == *old(self),
    {
    }

    /// Nothing shares the arena, so there is nothing to arbitrate.
    pub fn release_priority(&mut self)
        ensures
            *final(self) == *old(self),
    {
    }

    /// Microseconds since the simulator was built; never less than the
    /// reading before.
    pub fn micros(&mut self) -> (r: u64)
        requires
            old(self).wf(),
        ensures
            final(self).wf(),
            final(self).config() == old(self).config(),
            final(self).arena() == old(self).arena(),
            final(self).fuzz_opening_pending() == old(self).fuzz_opening_pending(),
            r >= old(self).clock_reading(),
            final(self).clock_reading() == r,
    {
        self.clock.micros()
    }

    /// Milliseconds since the simulator was built: the microsecond reading
    /// taken by this call, divided by a thousand and truncated.
    pub fn millis(&mut self) -> (r: u64)
        requires
            old(self).wf(),
        ensures
            final(self).wf(),
            final(self).config() == old(self).config(),
            final(self).arena() == old(self).arena(),
            final(self).fuzz_opening_pending() == old(self).fuzz_opening_pending(),
            final(self).clock_reading() >= old(self).clock_reading(),
            r == millis_of(final(self).clock_reading()),
    {
        self.clock.millis()
    }
}

} // verus!
