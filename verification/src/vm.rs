use crate::audio::{audible, audio_window, AudioConfig, AudioHandler, SampleBufferSource};
use crate::cpu::{Cpu, Fault, Machine};
use crate::keyboard::{key_held, names, Key, KeyboardHandler};
use crate::memory::{overlay, put16, Memory, MemoryError};
use crate::screen::{
    lemma_palette_channels, palette_color, palette_rgb, pixel_at, screen_window, screenshot_name,
    ScreenHandler, Screenshot,
};
use vstd::prelude::*;

verus! {

/// The machine's memory holds 16 MiB: every 24-bit address names a byte.
pub const MEMORY_SIZE: usize = 16 * 1024 * 1024;

pub const SCREEN_WIDTH: usize = 256;

pub const SCREEN_HEIGHT: usize = 256;

/// One byte for each pixel of the screen.
pub const SCREEN_BUFFER_SIZE: usize = SCREEN_WIDTH * SCREEN_HEIGHT;

/// One frame's worth of sound: 256 samples.
pub const AUDIO_BUFFER_SIZE: usize = 256;

/// 256 samples in each of 60 frames a second.
pub const AUDIO_SAMPLES_PER_SECOND: u32 = 15360;

/// Where the 16 keys' bits are kept: two bytes, big-endian.
pub const KEYBOARD_REGISTER_ADDR: usize = 0x000000;

/// Where a frame's first instruction is looked up: three bytes, big-endian.
pub const PROGRAM_COUNTER_ADDR: usize = 0x000002;

/// Where the page of the screen is chosen: one byte.
pub const SCREEN_REGISTER_ADDR: usize = 0x000005;

/// Where the page of the sound is chosen: two bytes, big-endian.
pub const AUDIO_REGISTER_ADDR: usize = 0x000006;

/// Frames per second.
pub const FRAME_RATE: u32 = 60;

/// Instructions executed in each frame.
pub const CYCLES_PER_FRAME: usize = 65536;

/// The time from one frame to the next, in nanoseconds: a sixtieth of a
/// second, to the nearest nanosecond.
pub const FRAME_PERIOD_NANOS: u64 = 16_666_667;

/// What one frame gives the host to present.
pub struct Frame {
    /// The colour of each of the screen's 65536 pixels, row after row.
    pub screen: Vec<u32>,
    /// The frame's sound, where it is to be queued for playing.
    pub audio: Option<SampleBufferSource<AUDIO_BUFFER_SIZE>>,
}

/// What the host has seen since the last frame.
pub struct HostInput {
    /// The window is still open.
    pub window_open: bool,
    /// The key that ends the run is down.
    pub escape_down: bool,
    /// The keys that went down.
    pub pressed: Vec<Key>,
    /// The keys that came up.
    pub released: Vec<Key>,
}

/// What the host is to do after the machine has taken in its input.
pub enum RunStep {
    /// End the run.
    Stop,
    /// Present the frame.
    Present(Frame),
}

/// What the host is to do at the end of a frame.
#[derive(Clone, Copy, Debug, PartialEq, Eq, Structural)]
pub enum Pace {
    /// Wait for so many nanoseconds: the frame was done early.
    Sleep(u64),
    /// Go on at once, and say if you like that the frame took so many
    /// nanoseconds, which is no less than a frame may take.
    Overrun(u64),
}

/// The time that has gone by from `started` to `now`, both in
/// nanoseconds on one clock: none, where the clock went back.
pub open spec fn elapsed(started: u64, now: u64) -> int {
    if now >= started {
        now - started
    } else {
        0
    }
}

/// What a run carries from one frame to the next. Times are counted in
/// nanoseconds on a clock of the host.
#[derive(Clone, Copy, Debug, PartialEq, Eq, Structural)]
pub struct RunState {
    /// When the frame under way was begun.
    pub frame_started: u64,
    /// The number that the next screenshot gets.
    pub screenshot_index: u32,
}

impl RunState {
    /// The state of a run that starts at `now`: its first frame begins
    /// then, and its first screenshot is number 1.
    pub fn new(now: u64) -> (state: RunState)
        ensures
            state.frame_started == now,
            state.screenshot_index == 1,
    {
        RunState { frame_started: now, screenshot_index: 1 }
    }

    /// A frame begins at `now`.
    pub fn begin(&mut self, now: u64)
        ensures
            final(self).frame_started == now,
            final(self).screenshot_index == old(self).screenshot_index,
    {
        self.frame_started = now;
    }

    /// The end of a frame at `now`: where less than a frame period has
    /// gone by since the frame began, the host sleeps for the rest of
    /// the period; otherwise it goes on at once and hears how long the
    /// frame took. No frame is ever left out to make up for a late one.
    pub fn pace(&self, now: u64) -> (pace: Pace)
        ensures
            elapsed(self.frame_started, now) < FRAME_PERIOD_NANOS ==> pace == Pace::Sleep(
                (FRAME_PERIOD_NANOS - elapsed(self.frame_started, now)) as u64,
            ),
            elapsed(self.frame_started, now) >= FRAME_PERIOD_NANOS ==> pace == Pace::Overrun(
                elapsed(self.frame_started, now) as u64,
            ),
    {
        let taken = if now >= self.frame_started {
            now - self.frame_started
        } else {
            0
        };
        if taken < FRAME_PERIOD_NANOS {
            Pace::Sleep(FRAME_PERIOD_NANOS - taken)
        } else {
            Pace::Overrun(taken)
        }
    }
}

/// The machine with its peripherals: the engine and its memory, and the
/// handlers of keyboard, sound and screen.
pub struct VirtualMachine {
    pub cpu: Cpu,
    pub audio_handler: AudioHandler,
    pub keyboard_handler: KeyboardHandler,
    pub screen_handler: ScreenHandler,
}

impl VirtualMachine {
    /// Memory holds 16 MiB, and each handler works on its own register.
    pub open spec fn well_formed(&self) -> bool {
        &&& self.cpu.memory@.len() == MEMORY_SIZE
        &&& self.audio_handler.register() == AUDIO_REGISTER_ADDR
        &&& self.audio_handler.config() == (AudioConfig {
            sample_rate: AUDIO_SAMPLES_PER_SECOND,
            channels: 1,
        })
        &&& self.keyboard_handler.register() == Some(KEYBOARD_REGISTER_ADDR)
        &&& self.screen_handler.memory_register_addr == SCREEN_REGISTER_ADDR
        &&& self.screen_handler.well_formed()
    }

    /// Memory as it is when the engine starts on the frame that leads
    /// from `self` to `after`: the keys' new bits stand in their
    /// register.
    pub open spec fn frame_memory(&self, after: &VirtualMachine) -> Seq<u8> {
        put16(
            self.cpu.memory@,
            KEYBOARD_REGISTER_ADDR as int,
            after.keyboard_handler.state() as int,
        )
    }

    /// What a frame does: `self` is the machine before it, `after` the
    /// machine after it, and `r` what it hands to the host.
    pub open spec fn frame_done(
        &self,
        after: &VirtualMachine,
        pressed: Seq<Key>,
        released: Seq<Key>,
        r: Result<Frame, Fault>,
    ) -> bool {
        let start = Machine::frame_start(self.frame_memory(after));
        let window = screen_window(after.cpu.memory@, SCREEN_REGISTER_ADDR as int);
        let sound = audio_window(after.cpu.memory@, AUDIO_REGISTER_ADDR as int);
        &&& after.well_formed()
        &&& forall|index: u8|
            index < 16 ==> #[trigger] key_held(after.keyboard_handler.state(), index) == (!names(
                released,
                index,
            ) && (names(pressed, index) || key_held(self.keyboard_handler.state(), index)))
        &&& after.cpu.machine() == start.run(CYCLES_PER_FRAME as nat)
        &&& r is Ok <==> start.executed(CYCLES_PER_FRAME as nat) == CYCLES_PER_FRAME
        &&& r matches Err(fault) ==> {
            &&& fault.cycle == start.executed(CYCLES_PER_FRAME as nat)
            &&& fault.program_counter == after.cpu.program_counter
        }
        &&& r matches Ok(frame) ==> {
            &&& frame.screen@.len() == SCREEN_BUFFER_SIZE
            &&& forall|i: int|
                0 <= i < SCREEN_BUFFER_SIZE ==> #[trigger] frame.screen@[i] == palette_color(
                    window[i] as int,
                )
            &&& frame.audio is Some <==> audible(sound)
            &&& frame.audio matches Some(source) ==> {
                &&& source.buffer() == sound
                &&& source.index() == 0
                &&& source.config() == (AudioConfig {
                    sample_rate: AUDIO_SAMPLES_PER_SECOND,
                    channels: 1,
                })
            }
        }
    }

    /// A machine with zeroed memory and no key held, about to fetch at
    /// 0x200.
    pub fn new() -> (vm: VirtualMachine)
        ensures
            vm.well_formed(),
            vm.cpu.memory@ == Seq::new(MEMORY_SIZE as nat, |i: int| 0u8),
            vm.cpu.program_counter == 0x200,
            vm.keyboard_handler.state() == 0,
    {
        let cpu = Cpu::new(Memory::new(MEMORY_SIZE));
        let audio_handler = AudioHandler::new(AUDIO_REGISTER_ADDR);
        let mut keyboard_handler = KeyboardHandler::new();
        keyboard_handler.attach_memory(KEYBOARD_REGISTER_ADDR);
        let screen_handler = ScreenHandler::new(SCREEN_REGISTER_ADDR);
        VirtualMachine { cpu, audio_handler, keyboard_handler, screen_handler }
    }

    /// Copies the program `rom` to the start of memory, if it holds no
    /// more than 16 MiB; otherwise changes nothing and reports the sizes.
    pub fn load_rom(&mut self, rom: &[u8]) -> (r: Result<(), MemoryError>)
        requires
            old(self).well_formed(),
        ensures
            final(self).well_formed(),
            r is Ok <==> rom@.len() <= MEMORY_SIZE,
            r is Ok ==> final(self).cpu.memory@ == overlay(old(self).cpu.memory@, 0, rom@),
            r is Err ==> final(self).cpu.memory@ == old(self).cpu.memory@ && r == Err::<
                (),
                MemoryError,
            >(
                MemoryError::SizeMismatch {
                    offset: 0,
                    length: rom@.len() as usize,
                    capacity: MEMORY_SIZE,
                },
            ),
            final(self).cpu.program_counter == old(self).cpu.program_counter,
            final(self).keyboard_handler == old(self).keyboard_handler,
    {
        self.cpu.memory.copy_from(0, rom)
    }

    /// One frame: takes in the keys, lets the engine carry out its 65536
    /// instruction cycles, then reads the frame's sound and picture out
    /// of memory. Where an instruction reaches outside memory the frame
    /// ends there and the fault is handed back.
    pub fn process_frame(&mut self, pressed: &[Key], released: &[Key]) -> (r: Result<
        Frame,
        Fault,
    >)
        requires
            old(self).well_formed(),
        ensures
            old(self).frame_done(final(self), pressed@, released@, r),
    {
        self.keyboard_handler.handle_events(pressed, released, &mut self.cpu.memory);
        let ghost start = Machine::frame_start(self.cpu.memory@);
        match self.cpu.tick() {
            Ok(()) => {},
            Err(fault) => {
                proof {
                    start.lemma_run_keeps_len(CYCLES_PER_FRAME as nat);
                }
                return Err(fault);
            },
        }
        proof {
            start.lemma_run_keeps_len(CYCLES_PER_FRAME as nat);
        }
        let audio = self.audio_handler.append_buffer_to_sink(&self.cpu.memory);
        let screen = self.screen_handler.render_frame(&self.cpu.memory);
        Ok(Frame { screen, audio })
    }

    /// The start of one pass of a run: where the window is closed or
    /// the run is to end, nothing happens and the host stops; otherwise
    /// the machine does one frame for the host to present.
    pub fn run(&mut self, input: &HostInput) -> (r: Result<RunStep, Fault>)
        requires
            old(self).well_formed(),
        ensures
            final(self).well_formed(),
            !(input.window_open && !input.escape_down) ==> {
                &&& r matches Ok(RunStep::Stop)
                &&& *final(self) == *old(self)
            },
            input.window_open && !input.escape_down ==> {
                &&& r matches Err(fault) ==> old(self).frame_done(
                    final(self),
                    input.pressed@,
                    input.released@,
                    Err(fault),
                )
                &&& r matches Ok(step) ==> step matches RunStep::Present(frame) && old(
                    self,
                ).frame_done(final(self), input.pressed@, input.released@, Ok(frame))
            },
    {
        if !(input.window_open && !input.escape_down) {
            return Ok(RunStep::Stop);
        }
        match self.process_frame(input.pressed.as_slice(), input.released.as_slice()) {
            Ok(frame) => Ok(RunStep::Present(frame)),
            Err(fault) => Err(fault),
        }
    }

    /// After a frame has been presented: where a screenshot was asked
    /// for, the screenshot of that frame under the run's next number,
    /// which then goes up by one.
    pub fn screenshot(&self, state: &mut RunState, asked: bool) -> (shot: Option<Screenshot>)
        requires
            self.well_formed(),
            asked ==> old(state).screenshot_index < u32::MAX,
        ensures
            final(state).frame_started == old(state).frame_started,
            shot is Some <==> asked,
            final(state).screenshot_index == old(state).screenshot_index + (if asked {
                1int
            } else {
                0int
            }),
            shot matches Some(shot) ==> {
                &&& shot.file_name@ == screenshot_name(old(state).screenshot_index as nat)
                &&& shot.width == SCREEN_WIDTH
                &&& shot.height == SCREEN_HEIGHT
                &&& shot.rgb@.len() == 3 * SCREEN_BUFFER_SIZE
                &&& forall|i: int|
                    0 <= i < SCREEN_BUFFER_SIZE ==> #[trigger] pixel_at(shot.rgb@, i)
                        == palette_rgb(
                        screen_window(self.cpu.memory@, SCREEN_REGISTER_ADDR as int)[i] as int,
                    )
            },
    {
        if !asked {
            return None;
        }
        let shot = self.screen_handler.save_screen_png(&self.cpu.memory, state.screenshot_index);
        state.screenshot_index += 1;
        proof {
            let window = screen_window(self.cpu.memory@, SCREEN_REGISTER_ADDR as int);
            assert forall|i: int| 0 <= i < SCREEN_BUFFER_SIZE implies #[trigger] pixel_at(
                shot.rgb@,
                i,
            ) == palette_rgb(window[i] as int) by {
                lemma_palette_channels(window[i] as int);
            }
        }
        Some(shot)
    }

    /// Whether the machine is as its parts were made: memory holds
    /// 16 MiB, and each handler works on its own register.
    pub fn is_well_formed(&self) -> (ok: bool)
        ensures
            ok == self.well_formed(),
    {
        self.cpu.memory.len() == MEMORY_SIZE
            && self.audio_handler.memory_register_addr() == AUDIO_REGISTER_ADDR
            && self.audio_handler.audio_config() == (AudioConfig {
            sample_rate: AUDIO_SAMPLES_PER_SECOND,
            channels: 1,
        }) && self.keyboard_handler.memory_register_addr() == Some(KEYBOARD_REGISTER_ADDR)
            && self.screen_handler.memory_register_addr == SCREEN_REGISTER_ADDR
            && self.screen_handler.has_palette()
    }
}

} // verus!
