use bytepusher::cpu::{Cpu, Fault};
use bytepusher::memory::Memory;

fn instruction(memory: &mut Memory, at: usize, source: usize, destination: usize, jump: usize) {
    memory.write_24_bits(at, source);
    memory.write_24_bits(at + 3, destination);
    memory.write_24_bits(at + 6, jump);
}

#[test]
fn new_cpu_fetches_at_0x200() {
    let cpu = Cpu::new(Memory::new(16));
    assert_eq!(cpu.program_counter, 0x200);
    assert_eq!(cpu.memory.len(), 16);
}

#[test]
fn default_cpu_has_16_mib() {
    let cpu = Cpu::default();
    assert_eq!(cpu.program_counter, 0x200);
    assert_eq!(cpu.memory.len(), 16 * 1024 * 1024);
    assert_eq!(cpu.memory.read8(0), 0);
    assert_eq!(cpu.memory.read8(16 * 1024 * 1024 - 1), 0);
}

#[test]
fn one_instruction_copies_one_byte_and_jumps() {
    let mut memory = Memory::new(64);
    instruction(&mut memory, 9, 40, 41, 20);
    memory.write8(40, 0xAB);
    let mut cpu = Cpu::new(memory);
    cpu.program_counter = 9;
    assert_eq!(cpu.execute_instruction(), Ok(()));
    assert_eq!(cpu.memory.read8(41), 0xAB);
    assert_eq!(cpu.memory.read8(40), 0xAB);
    assert_eq!(cpu.program_counter, 20);
    let mut expected = vec![0u8; 64];
    expected[11] = 40;
    expected[14] = 41;
    expected[17] = 20;
    expected[40] = 0xAB;
    expected[41] = 0xAB;
    assert_eq!(cpu.memory.slice(0, 64), expected);
}

#[test]
fn copy_onto_itself_changes_nothing_and_jumps() {
    let mut memory = Memory::new(64);
    instruction(&mut memory, 0, 30, 30, 18);
    memory.write8(30, 0x5A);
    let before = memory.slice(0, 64);
    let mut cpu = Cpu::new(memory);
    cpu.program_counter = 0;
    assert_eq!(cpu.execute_instruction(), Ok(()));
    assert_eq!(cpu.memory.read8(30), 0x5A);
    assert_eq!(cpu.memory.slice(0, 64), before);
    assert_eq!(cpu.program_counter, 18);
}

#[test]
fn jump_is_read_before_the_copy() {
    // The instruction overwrites the last byte of its own jump field.
    let mut memory = Memory::new(64);
    instruction(&mut memory, 0, 30, 8, 18);
    memory.write8(30, 27);
    let mut cpu = Cpu::new(memory);
    cpu.program_counter = 0;
    assert_eq!(cpu.execute_instruction(), Ok(()));
    assert_eq!(cpu.program_counter, 18);
    assert_eq!(cpu.memory.read_24_bits(6), 27);
}

#[test]
fn instruction_can_rewrite_the_next_one() {
    let mut memory = Memory::new(64);
    // First: store 50 as the source of the second instruction.
    instruction(&mut memory, 0, 40, 11, 9);
    instruction(&mut memory, 9, 41, 60, 0);
    memory.write8(40, 50);
    memory.write8(41, 0x11);
    memory.write8(50, 0x22);
    let mut cpu = Cpu::new(memory);
    cpu.program_counter = 0;
    assert_eq!(cpu.execute_instruction(), Ok(()));
    assert_eq!(cpu.execute_instruction(), Ok(()));
    assert_eq!(cpu.memory.read8(60), 0x22);
    assert_eq!(cpu.program_counter, 0);
}

#[test]
fn instruction_that_does_not_fit_is_a_fault() {
    let mut cpu = Cpu::new(Memory::new(16));
    cpu.program_counter = 8;
    assert_eq!(cpu.execute_instruction(), Err(Fault { cycle: 0, program_counter: 8 }));
    assert_eq!(cpu.program_counter, 8);
    assert_eq!(cpu.memory.slice(0, 16), vec![0u8; 16]);
    cpu.program_counter = 7;
    assert_eq!(cpu.execute_instruction(), Ok(()));
    assert_eq!(cpu.program_counter, 0);
}

#[test]
fn instruction_in_a_short_memory_is_a_fault() {
    let mut cpu = Cpu::new(Memory::new(8));
    cpu.program_counter = 0;
    assert_eq!(cpu.execute_instruction(), Err(Fault { cycle: 0, program_counter: 0 }));
    cpu.program_counter = usize::MAX;
    assert_eq!(cpu.execute_instruction(), Err(Fault { cycle: 0, program_counter: usize::MAX }));
}

#[test]
fn source_outside_memory_is_a_fault() {
    let mut memory = Memory::new(32);
    instruction(&mut memory, 0, 32, 10, 0);
    let before = memory.slice(0, 32);
    let mut cpu = Cpu::new(memory);
    cpu.program_counter = 0;
    assert_eq!(cpu.execute_instruction(), Err(Fault { cycle: 0, program_counter: 0 }));
    assert_eq!(cpu.memory.slice(0, 32), before);
}

#[test]
fn destination_outside_memory_is_a_fault() {
    let mut memory = Memory::new(32);
    instruction(&mut memory, 0, 10, 0xFF_FFFF, 0);
    let before = memory.slice(0, 32);
    let mut cpu = Cpu::new(memory);
    cpu.program_counter = 0;
    assert_eq!(cpu.execute_instruction(), Err(Fault { cycle: 0, program_counter: 0 }));
    assert_eq!(cpu.memory.slice(0, 32), before);
    assert_eq!(cpu.program_counter, 0);
}

#[test]
fn tick_loads_the_program_counter_from_its_register() {
    let mut memory = Memory::new(64);
    memory.write_24_bits(2, 20);
    instruction(&mut memory, 20, 40, 41, 20);
    memory.write8(40, 0x77);
    let mut cpu = Cpu::new(memory);
    assert_eq!(cpu.program_counter, 0x200);
    assert_eq!(cpu.tick(), Ok(()));
    assert_eq!(cpu.memory.read8(41), 0x77);
    assert_eq!(cpu.program_counter, 20);
}

#[test]
fn tick_carries_out_exactly_65536_cycles() {
    const CODE: usize = 0x100;
    const MARKS: usize = 0x10_0000;
    const COUNT: usize = 65536;
    let mut memory = Memory::new(0x20_0000);
    memory.write_24_bits(2, CODE);
    memory.write8(8, 0xFF);
    for k in 0..=COUNT {
        instruction(&mut memory, CODE + 9 * k, 8, MARKS + k, CODE + 9 * (k + 1));
    }
    let mut cpu = Cpu::new(memory);
    assert_eq!(cpu.tick(), Ok(()));
    assert!(cpu.memory.slice(MARKS, COUNT).iter().all(|&b| b == 0xFF));
    assert_eq!(cpu.memory.read8(MARKS + COUNT), 0);
    assert_eq!(cpu.program_counter, CODE + 9 * COUNT);
}

#[test]
fn tick_goes_on_through_a_program_that_stands_still() {
    let mut memory = Memory::new(32);
    memory.write_24_bits(2, 9);
    instruction(&mut memory, 9, 20, 20, 9);
    let before = memory.slice(0, 32);
    let mut cpu = Cpu::new(memory);
    assert_eq!(cpu.tick(), Ok(()));
    assert_eq!(cpu.program_counter, 9);
    assert_eq!(cpu.memory.slice(0, 32), before);
}

#[test]
fn tick_ends_at_the_first_fault() {
    let mut memory = Memory::new(64);
    memory.write_24_bits(2, 9);
    instruction(&mut memory, 9, 40, 41, 18);
    instruction(&mut memory, 18, 40, 42, 60);
    memory.write8(40, 0x33);
    let mut cpu = Cpu::new(memory);
    assert_eq!(cpu.tick(), Err(Fault { cycle: 2, program_counter: 60 }));
    assert_eq!(cpu.memory.read8(41), 0x33);
    assert_eq!(cpu.memory.read8(42), 0x33);
    assert_eq!(cpu.program_counter, 60);
}

#[test]
fn tick_faults_at_once_on_a_bad_program_counter() {
    let mut memory = Memory::new(64);
    memory.write_24_bits(2, 0xFF_FFFF);
    let before = memory.slice(0, 64);
    let mut cpu = Cpu::new(memory);
    assert_eq!(cpu.tick(), Err(Fault { cycle: 0, program_counter: 0xFF_FFFF }));
    assert_eq!(cpu.memory.slice(0, 64), before);
}

#[test]
fn program_counter_in_the_last_bytes_of_16_mib_is_a_fault() {
    let mut cpu = Cpu::default();
    cpu.memory.write_24_bits(2, 0xFF_FFF8);
    assert_eq!(cpu.tick(), Err(Fault { cycle: 0, program_counter: 0xFF_FFF8 }));
    cpu.memory.write_24_bits(2, 0xFF_FFF7);
    cpu.memory.write_24_bits(0xFF_FFFD, 0xFF_FFFF);
    assert_eq!(cpu.tick(), Err(Fault { cycle: 1, program_counter: 0xFF_FFFF }));
}

#[test]
fn zeroed_machine_runs_a_whole_frame() {
    let mut cpu = Cpu::default();
    assert_eq!(cpu.tick(), Ok(()));
    assert_eq!(cpu.program_counter, 0);
    assert!(cpu.memory.slice(0, 64).iter().all(|&b| b == 0));
}
