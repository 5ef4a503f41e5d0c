use crate::audio::audio_window;
use crate::cpu::{Fault, Machine};
use crate::keyboard::keys_mask;
use crate::memory::{be24, overlay, put16, MemoryError};
use crate::screen::{palette_color, screen_window, ScreenHandler};
use crate::vm::CYCLES_PER_FRAME;
use vstd::prelude::*;

verus! {

const MEMORY_SIZE: usize = 16_777_216;

pub const SCREEN_WIDTH: usize = 256;

pub const SCREEN_HEIGHT: usize = 256;

/// The whole machine in one value: memory and engine, together with the
/// keys that go in and the picture and the sound that come out.
pub struct Emulator {
    /// Where the next instruction is fetched.
    pub program_counter: usize,
    /// The colour of each palette index.
    pub palette: [u32; 256],
    pub memory: Vec<u8>,
    /// The colours of the last frame's pixels, row after row.
    pub screen: [u32; 65536],
    /// The samples of the last frame's sound.
    pub sample_buffer: [u8; 256],
    /// Which of the 16 pad keys are held.
    pub keys: [bool; 16],
}

impl Emulator {
    /// Memory holds 16 MiB, and the palette holds the colour cube.
    pub open spec fn well_formed(&self) -> bool {
        &&& self.memory@.len() == 0x100_0000
        &&& forall|i: int| 0 <= i < 256 ==> #[trigger] self.palette[i] == palette_color(i)
    }

    /// Memory and program counter as a mathematical value.
    pub open spec fn machine(&self) -> Machine {
        Machine { memory: self.memory@, pc: self.program_counter as int }
    }

    /// Memory at the start of a frame: the bits of the held keys are
    /// stored in their register.
    pub open spec fn with_keys(&self) -> Seq<u8> {
        put16(self.memory@, 0, keys_mask(self.keys@, 16) as int)
    }

    /// Copies `rom` to the start of memory, if it fits; otherwise leaves
    /// memory as it was and reports the sizes.
    pub fn load_rom(&mut self, rom: Vec<u8>) -> (r: Result<(), MemoryError>)
        ensures
            r is Ok <==> rom@.len() <= old(self).memory@.len(),
            r is Ok ==> final(self).memory@ == overlay(old(self).memory@, 0, rom@),
            r is Err ==> final(self).memory@ == old(self).memory@ && r == Err::<(), MemoryError>(
                MemoryError::SizeMismatch {
                    offset: 0,
                    length: rom@.len() as usize,
                    capacity: old(self).memory@.len() as usize,
                },
            ),
            final(self).program_counter == old(self).program_counter,
            final(self).palette == old(self).palette,
            final(self).screen == old(self).screen,
            final(self).sample_buffer == old(self).sample_buffer,
            final(self).keys == old(self).keys,
    {
        let length = rom.len();
        let capacity = self.memory.len();
        if length > capacity {
            return Err(MemoryError::SizeMismatch { offset: 0, length, capacity });
        }
        let mut i: usize = 0;
        while i < length
            invariant
                i <= length <= capacity,
                length == rom@.len(),
                capacity == self.memory@.len(),
                capacity == old(self).memory@.len(),
                forall|j: int| i <= j < capacity ==> self.memory@[j] == old(self).memory@[j],
                forall|j: int| 0 <= j < i ==> self.memory@[j] == rom@[j],
                self.program_counter == old(self).program_counter,
                self.palette == old(self).palette,
                self.screen == old(self).screen,
                self.sample_buffer == old(self).sample_buffer,
                self.keys == old(self).keys,
            decreases length - i,
        {
            self.memory[i] = rom[i];
            i += 1;
        }
        assert(self.memory@ =~= overlay(old(self).memory@, 0, rom@));
        Ok(())
    }

    /// Puts the colours of `new_frame`'s palette indices on the screen.
    pub fn render(&mut self, new_frame: [u8; 65536])
        ensures
            forall|i: int|
                0 <= i < 65536 ==> #[trigger] final(self).screen[i] == old(
                    self,
                ).palette[new_frame[i] as int],
            final(self).program_counter == old(self).program_counter,
            final(self).palette == old(self).palette,
            final(self).memory == old(self).memory,
            final(self).sample_buffer == old(self).sample_buffer,
            final(self).keys == old(self).keys,
    {
        let mut idx: usize = 0;
        while idx < 65536
            invariant
                idx <= 65536,
                forall|i: int| 0 <= i < idx ==> self.screen[i] == self.palette[new_frame[i] as int],
                self.program_counter == old(self).program_counter,
                self.palette == old(self).palette,
                self.memory == old(self).memory,
                self.sample_buffer == old(self).sample_buffer,
                self.keys == old(self).keys,
            decreases 65536 - idx,
        {
            self.screen[idx] = self.palette[new_frame[idx] as usize];
            idx += 1;
        }
    }

    /// The three-byte big-endian field at the start of `slice`.
    pub fn read_24_bits(&self, slice: &[u8]) -> (value: usize)
        requires
            slice@.len() >= 3,
        ensures
            value == be24(slice@, 0),
            value < 0x100_0000,
    {
        let a = slice[0];
        let b = slice[1];
        let c = slice[2];
        assert(((a as usize) << 16) | ((b as usize) << 8) | (c as usize) == a * 0x1_0000 + b * 0x100
            + c) by (bit_vector);
        ((a as usize) << 16) | ((b as usize) << 8) | c as usize
    }

    /// Carries out the instruction at the program counter, or reports
    /// that it reaches outside memory and changes nothing.
    pub fn execute_instruction(&mut self) -> (r: Result<(), Fault>)
        ensures
            r is Ok <==> old(self).machine().can_step(),
            r is Ok ==> final(self).machine() == old(self).machine().step(),
            r is Err ==> final(self).machine() == old(self).machine() && r == Err::<(), Fault>(
                Fault { cycle: 0, program_counter: old(self).program_counter },
            ),
            final(self).palette == old(self).palette,
            final(self).screen == old(self).screen,
            final(self).sample_buffer == old(self).sample_buffer,
            final(self).keys == old(self).keys,
    {
        let pc = self.program_counter;
        let len = self.memory.len();
        if len < 9 || pc > len - 9 {
            return Err(Fault { cycle: 0, program_counter: pc });
        }
        let ghost before = self.memory@;
        let addr_a = self.read_24_bits(&self.memory[pc..pc + 3]);
        let addr_b = self.read_24_bits(&self.memory[pc + 3..pc + 6]);
        let addr_jump = self.read_24_bits(&self.memory[pc + 6..pc + 9]);
        if addr_a >= len || addr_b >= len {
            return Err(Fault { cycle: 0, program_counter: pc });
        }
        self.memory[addr_b] = self.memory[addr_a];
        self.program_counter = addr_jump;
        assert(self.machine().memory =~= old(self).machine().step().memory);
        Ok(())
    }

    /// One frame: stores the keys' bits in their register, loads the
    /// program counter from its register, carries out 65536 instruction
    /// cycles, then takes the picture and the sound of the frame from
    /// the pages that memory chooses. Where an instruction reaches
    /// outside memory the frame ends there, and picture and sound stay
    /// as they were.
    #[verifier::loop_isolation(false)]
    pub fn tick(&mut self) -> (r: Result<(), Fault>)
        requires
            old(self).well_formed(),
        ensures
            final(self).well_formed(),
            final(self).machine() == Machine::frame_start(old(self).with_keys()).run(
                CYCLES_PER_FRAME as nat,
            ),
            r is Ok <==> Machine::frame_start(old(self).with_keys()).executed(
                CYCLES_PER_FRAME as nat,
            ) == CYCLES_PER_FRAME,
            r matches Err(fault) ==> {
                &&& fault.cycle == Machine::frame_start(old(self).with_keys()).executed(
                    CYCLES_PER_FRAME as nat,
                )
                &&& fault.program_counter == final(self).program_counter
                &&& final(self).screen == old(self).screen
                &&& final(self).sample_buffer == old(self).sample_buffer
            },
            r is Ok ==> {
                &&& forall|i: int|
                    0 <= i < 65536 ==> #[trigger] final(self).screen[i] == palette_color(
                        screen_window(final(self).memory@, 5)[i] as int,
                    )
                &&& final(self).sample_buffer@ == audio_window(final(self).memory@, 6)
            },
            final(self).palette == old(self).palette,
            final(self).keys == old(self).keys,
    {
        // set key presses
        let mut key_values: u16 = 0;
        let mut i: usize = 0;
        while i < 16
            invariant
                i <= 16,
                key_values == keys_mask(self.keys@, i as nat),
            decreases 16 - i,
        {
            if self.keys[i] {
                key_values |= 1u16 << (i as u8);
            }
            i += 1;
        }
        assert((key_values >> 8) == (key_values / 0x100) % 0x100 && (key_values >> 8) <= 0xFF)
            by (bit_vector);
        assert((key_values & 0xFF) == key_values % 0x100 && (key_values & 0xFF) <= 0xFF)
            by (bit_vector);
        self.memory[0] = (key_values >> 8) as u8;
        self.memory[1] = (key_values & 0xFF) as u8;
        assert(self.memory@ =~= old(self).with_keys());

        self.program_counter = self.read_24_bits(&self.memory[2..5]);
        let ghost start = Machine::frame_start(old(self).with_keys());
        assert(self.machine() == start);

        let mut cycle: usize = 0;
        while cycle < CYCLES_PER_FRAME
            invariant
                cycle <= CYCLES_PER_FRAME,
                start == Machine::frame_start(old(self).with_keys()),
                start.memory.len() == 0x100_0000,
                start.executed(cycle as nat) == cycle,
                self.machine() == start.run(cycle as nat),
                self.palette == old(self).palette,
                self.screen == old(self).screen,
                self.sample_buffer == old(self).sample_buffer,
                self.keys == old(self).keys,
            decreases CYCLES_PER_FRAME - cycle,
        {
            match self.execute_instruction() {
                Ok(()) => {},
                Err(_) => {
                    proof {
                        start.lemma_halted_stays(cycle as nat, CYCLES_PER_FRAME as nat);
                        start.lemma_run_keeps_len(cycle as nat);
                    }
                    return Err(Fault { cycle, program_counter: self.program_counter });
                },
            }
            cycle += 1;
        }
        proof {
            start.lemma_run_keeps_len(CYCLES_PER_FRAME as nat);
        }

        let page = self.memory[5];
        let graphics_addr = (page as usize) * 65536;
        let mut new_frame = [0u8; 65536];
        let mut i: usize = 0;
        while i < 65536
            invariant
                i <= 65536,
                graphics_addr + 65536 <= self.memory@.len(),
                forall|j: int| 0 <= j < i ==> new_frame[j] == self.memory@[graphics_addr + j],
            decreases 65536 - i,
        {
            new_frame[i] = self.memory[graphics_addr + i];
            i += 1;
        }
        assert(new_frame@ =~= screen_window(self.memory@, 5));
        self.render(new_frame);

        let audio_addr = self.memory[6] as usize * 65536 + self.memory[7] as usize * 256;
        let mut samples = [0u8; 256];
        let mut i: usize = 0;
        while i < 256
            invariant
                i <= 256,
                audio_addr + 256 <= self.memory@.len(),
                forall|j: int| 0 <= j < i ==> samples[j] == self.memory@[audio_addr + j],
            decreases 256 - i,
        {
            samples[i] = self.memory[audio_addr + i];
            i += 1;
        }
        assert(samples@ =~= audio_window(self.memory@, 6));
        self.sample_buffer = samples;
        Ok(())
    }
}

impl Default for Emulator {
    /// A machine with zeroed memory, no key held, a black screen and
    /// silence, about to fetch at 0x200.
    fn default() -> (emulator: Emulator)
        ensures
            emulator.well_formed(),
            emulator.program_counter == 0x200,
            emulator.memory@ == Seq::new(0x100_0000, |i: int| 0u8),
            emulator.screen@ == Seq::new(65536, |i: int| 0u32),
            emulator.sample_buffer@ == Seq::new(256, |i: int| 0u8),
            emulator.keys@ == Seq::new(16, |i: int| false),
    {
        // The palette never changes, so it is worked out once.
        let palette = ScreenHandler::init_palette();
        let memory: Vec<u8> = vec![0u8; MEMORY_SIZE];
        let screen = [0u32; 65536];
        let sample_buffer = [0u8; 256];
        let keys = [false; 16];
        assert(memory@ =~= Seq::new(0x100_0000, |i: int| 0u8));
        assert(screen@ =~= Seq::new(65536, |i: int| 0u32));
        assert(sample_buffer@ =~= Seq::new(256, |i: int| 0u8));
        assert(keys@ =~= Seq::new(16, |i: int| false));
        Emulator { program_counter: 0x200, memory, palette, screen, sample_buffer, keys }
    }
}

} // verus!
