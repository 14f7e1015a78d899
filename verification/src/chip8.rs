use vstd::prelude::*;
use crate::cpu::Cpu;
use crate::display::{blank_screen, Display};
use crate::error::Chip8Error;
use crate::ram::{fresh_memory, load_at, Ram};
use crate::state::{CpuState, Input, Machine, Progress};

verus! {

/// The whole machine: memory, processor and screen.
pub struct Chip8 {
    memory: Ram,
    cpu: Cpu,
    display: Display,
}

impl View for Chip8 {
    type V = Machine;

    closed spec fn view(&self) -> Machine {
        Machine { cpu: self.cpu@, mem: self.memory@, screen: self.display@ }
    }
}

/// The machine at power-on: the font in memory, a blank screen, the
/// processor at the program start.
pub open spec fn power_on() -> Machine {
    Machine { cpu: CpuState::initial(), mem: fresh_memory(), screen: blank_screen() }
}

impl Chip8 {
    /// A machine at power-on.
    pub fn new() -> (chip8: Chip8)
        ensures
            chip8@ == power_on(),
            chip8@.wf(),
    {
        Chip8 { memory: Ram::new(), cpu: Cpu::new(), display: Display::new() }
    }

    /// Copies the program `rom` into memory at the program start. A
    /// program longer than the memory above the program start is refused,
    /// and nothing changes.
    pub fn load_rom(&mut self, rom: &Vec<u8>) -> (r: Result<(), Chip8Error>)
        ensures
            match load_at(old(self)@.mem, rom@) {
                Ok(mem) => r.is_ok() && final(self)@ == (Machine { mem, ..old(self)@ }),
                Err(e) => r == Err::<(), Chip8Error>(e) && final(self)@ == old(self)@,
            },
    {
        self.memory.read_rom(rom)
    }

    /// Runs one cycle: the instruction at the program counter is fetched,
    /// decoded and carried out, and the program counter moved. Where the
    /// instruction waits for a key press that `input` does not hold, the
    /// cycle ends as `AwaitingKey` and nothing has changed. Where the cycle
    /// fails, nothing has changed either.
    pub fn execute_instruction(&mut self, input: &Input) -> (r: Result<Progress, Chip8Error>)
        ensures
            match old(self)@.step(*input) {
                Ok((next, progress)) => r == Ok::<Progress, Chip8Error>(progress) && final(self)@
                    == next,
                Err(e) => r == Err::<Progress, Chip8Error>(e) && final(self)@ == old(self)@,
            },
    {
        self.cpu.execute_instruction(&mut self.memory, &mut self.display, input)
    }

    /// One tick of the 60 Hz clock: each timer that is not zero goes down
    /// by one.
    pub fn tick_timers(&mut self)
        ensures
            final(self)@ == (Machine { cpu: old(self)@.cpu.tick(), ..old(self)@ }),
    {
        self.cpu.tick_timers();
    }

    /// Whether the tone is to sound: it does while the sound timer is not zero.
    pub fn sound_on(&self) -> (on: bool)
        ensures
            on == (self@.cpu.st > 0),
    {
        self.cpu.sound_on()
    }

    /// The processor, to read.
    pub fn cpu(&self) -> (cpu: &Cpu)
        ensures
            cpu@ == self@.cpu,
    {
        &self.cpu
    }

    /// The memory, to read.
    pub fn memory(&self) -> (ram: &Ram)
        ensures
            ram@ == self@.mem,
    {
        &self.memory
    }

    /// The screen, to read.
    pub fn display(&self) -> (display: &Display)
        ensures
            display@ == self@.screen,
    {
        &self.display
    }
}

} // verus!
