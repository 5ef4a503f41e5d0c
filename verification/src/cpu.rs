use crate::memory::{be24, Memory};
use crate::vm::{CYCLES_PER_FRAME, MEMORY_SIZE, PROGRAM_COUNTER_ADDR};
use vstd::prelude::*;

verus! {

/// The machine as a mathematical value: what memory holds, and where the
/// next instruction is fetched.
pub struct Machine {
    pub memory: Seq<u8>,
    pub pc: int,
}

impl Machine {
    /// Where the instruction at `pc` reads its byte.
    pub open spec fn source(self) -> int {
        be24(self.memory, self.pc)
    }

    /// Where the instruction at `pc` stores the byte.
    pub open spec fn destination(self) -> int {
        be24(self.memory, self.pc + 3)
    }

    /// Where the instruction at `pc` goes on.
    pub open spec fn jump(self) -> int {
        be24(self.memory, self.pc + 6)
    }

    /// The nine bytes of the instruction, and the two bytes it names, all
    /// lie inside memory.
    pub open spec fn can_step(self) -> bool {
        &&& 0 <= self.pc
        &&& self.pc + 9 <= self.memory.len()
        &&& self.source() < self.memory.len()
        &&& self.destination() < self.memory.len()
    }

    /// One instruction cycle: all three fields are read, one byte is
    /// copied, and the jump is taken.
    pub open spec fn step(self) -> Machine {
        Machine {
            memory: self.memory.update(self.destination(), self.memory[self.source()]),
            pc: self.jump(),
        }
    }

    /// Up to `n` instruction cycles: the machine halts, and stays as it
    /// is, at the first instruction that reaches outside memory.
    pub open spec fn run(self, n: nat) -> Machine
        decreases n,
    {
        if n == 0 {
            self
        } else {
            let before = self.run((n - 1) as nat);
            if before.can_step() {
                before.step()
            } else {
                before
            }
        }
    }

    /// How many of `n` instruction cycles are carried out before the
    /// machine halts.
    pub open spec fn executed(self, n: nat) -> nat
        decreases n,
    {
        if n == 0 {
            0
        } else {
            let done = self.executed((n - 1) as nat);
            if done == n - 1 && self.run(done).can_step() {
                n
            } else {
                done
            }
        }
    }

    /// The machine at the start of a frame: the program counter is loaded
    /// from its register in memory.
    pub open spec fn frame_start(memory: Seq<u8>) -> Machine {
        Machine { memory, pc: be24(memory, PROGRAM_COUNTER_ADDR as int) }
    }

    /// Never more cycles are carried out than were asked for.
    pub proof fn lemma_executed_bound(self, n: nat)
        ensures
            self.executed(n) <= n,
        decreases n,
    {
        if n > 0 {
            self.lemma_executed_bound((n - 1) as nat);
        }
    }

    /// Where all of `n` cycles are carried out, each of them is one
    /// instruction cycle: none is left out, and none halts.
    pub proof fn lemma_executed_all(self, n: nat, k: nat)
        requires
            self.executed(n) == n,
            k < n,
        ensures
            self.executed(k) == k,
            self.run(k).can_step(),
            self.run(k + 1) == self.run(k).step(),
        decreases n,
    {
        self.lemma_executed_bound((n - 1) as nat);
        if k < n - 1 {
            self.lemma_executed_all((n - 1) as nat, k);
        }
    }

    /// Once the machine has halted after `k` cycles, asking for more
    /// changes nothing.
    pub proof fn lemma_halted_stays(self, k: nat, n: nat)
        requires
            k <= n,
            self.executed(k) == k,
            !self.run(k).can_step(),
        ensures
            self.run(n) == self.run(k),
            self.executed(n) == k,
        decreases n,
    {
        if n > k {
            self.lemma_halted_stays(k, (n - 1) as nat);
        }
    }

    /// Running never changes how many bytes memory holds.
    pub proof fn lemma_run_keeps_len(self, n: nat)
        ensures
            self.run(n).memory.len() == self.memory.len(),
        decreases n,
    {
        if n > 0 {
            self.lemma_run_keeps_len((n - 1) as nat);
        }
    }

    /// An instruction that jumps to itself and does not store into its
    /// own nine bytes does its copy once; from then on the machine
    /// stands still, however many cycles it runs.
    pub proof fn lemma_standing_instruction(self, n: nat)
        requires
            self.can_step(),
            self.jump() == self.pc,
            !(self.pc <= self.destination() < self.pc + 9),
            n >= 1,
        ensures
            self.run(n) == self.step(),
            self.executed(n) == n,
        decreases n,
    {
        if n == 1 {
            assert(self.run(0) == self);
            assert(self.executed(0) == 0);
        } else {
            self.lemma_standing_instruction((n - 1) as nat);
            let once = self.step();
            assert(once.source() == self.source());
            assert(once.destination() == self.destination());
            assert(once.jump() == self.jump());
            assert(once.step().memory =~= once.memory);
        }
    }

    /// An instruction that copies a byte onto itself leaves memory as it
    /// was, and still takes its jump.
    pub proof fn lemma_copy_onto_itself(self)
        requires
            self.can_step(),
            self.source() == self.destination(),
        ensures
            self.step().memory == self.memory,
            self.step().pc == self.jump(),
    {
        assert(self.step().memory =~= self.memory);
    }
}

/// An instruction reached outside memory, which ends the run.
#[derive(Clone, Copy, Debug, PartialEq, Eq, Structural)]
pub struct Fault {
    /// How many instruction cycles of the call were carried out before.
    pub cycle: usize,
    /// Where the instruction that could not be carried out was fetched.
    pub program_counter: usize,
}

/// The execution engine: a program counter, and the memory it works on.
pub struct Cpu {
    /// Where the next instruction is fetched.
    pub program_counter: usize,
    pub memory: Memory,
}

impl Cpu {
    /// The engine's state as a mathematical value.
    pub open spec fn machine(&self) -> Machine {
        Machine { memory: self.memory@, pc: self.program_counter as int }
    }

    /// An engine on `memory`, about to fetch at 0x200.
    pub fn new(memory: Memory) -> (cpu: Cpu)
        ensures
            cpu.memory == memory,
            cpu.program_counter == 0x200,
    {
        Cpu { program_counter: 0x200, memory }
    }

    /// Carries out the instruction at the program counter, or reports
    /// that it reaches outside memory and changes nothing.
    pub fn execute_instruction(&mut self) -> (r: Result<(), Fault>)
        ensures
            r is Ok <==> old(self).machine().can_step(),
            r is Ok ==> final(self).machine() == old(self).machine().step(),
            r is Err ==> final(self).machine() == old(self).machine() && r == Err::<(), Fault>(
                Fault { cycle: 0, program_counter: old(self).program_counter },
            ),
    {
        let pc = self.program_counter;
        let len = self.memory.len();
        if len < 9 || pc > len - 9 {
            return Err(Fault { cycle: 0, program_counter: pc });
        }
        let addr_a = self.memory.read_24_bits(pc);
        let addr_b = self.memory.read_24_bits(pc + 3);
        let addr_jump = self.memory.read_24_bits(pc + 6);
        if addr_a >= len || addr_b >= len {
            return Err(Fault { cycle: 0, program_counter: pc });
        }
        let byte = self.memory[addr_a];
        self.memory.write8(addr_b, byte);
        self.program_counter = addr_jump;
        assert(self.machine().memory =~= old(self).machine().step().memory);
        Ok(())
    }

    /// One frame: loads the program counter from its register, then
    /// carries out 65536 instruction cycles, or as many as come before
    /// one that reaches outside memory.
    pub fn tick(&mut self) -> (r: Result<(), Fault>)
        requires
            PROGRAM_COUNTER_ADDR + 3 <= old(self).memory@.len(),
        ensures
            final(self).machine() == Machine::frame_start(old(self).memory@).run(
                CYCLES_PER_FRAME as nat,
            ),
            r is Ok <==> Machine::frame_start(old(self).memory@).executed(CYCLES_PER_FRAME as nat)
                == CYCLES_PER_FRAME,
            r matches Err(fault) ==> {
                &&& fault.cycle == Machine::frame_start(old(self).memory@).executed(
                    CYCLES_PER_FRAME as nat,
                )
                &&& fault.program_counter == final(self).program_counter
            },
    {
        let ghost start = Machine::frame_start(self.memory@);
        self.program_counter = self.memory.read_24_bits(PROGRAM_COUNTER_ADDR);
        let mut cycle: usize = 0;
        while cycle < CYCLES_PER_FRAME
            invariant
                cycle <= CYCLES_PER_FRAME,
                start == Machine::frame_start(old(self).memory@),
                start.executed(cycle as nat) == cycle,
                self.machine() == start.run(cycle as nat),
            decreases CYCLES_PER_FRAME - cycle,
        {
            match self.execute_instruction() {
                Ok(()) => {},
                Err(_) => {
                    proof {
                        start.lemma_halted_stays(cycle as nat, CYCLES_PER_FRAME as nat);
                    }
                    return Err(Fault { cycle, program_counter: self.program_counter });
                },
            }
            cycle += 1;
        }
        Ok(())
    }
}

impl Default for Cpu {
    /// An engine on a zeroed memory of 16 MiB, about to fetch at 0x200.
    fn default() -> (cpu: Cpu)
        ensures
            cpu.memory@ == Seq::new(MEMORY_SIZE as nat, |i: int| 0u8),
            cpu.program_counter == 0x200,
    {
        Cpu { program_counter: 0x200, memory: Memory::new(MEMORY_SIZE) }
    }
}

} // verus!
