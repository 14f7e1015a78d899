use vstd::prelude::*;
use crate::display::{blank_screen, collides, draw, PIXELS};
use crate::error::Chip8Error;
use crate::opcode::Instruction;
use crate::ram::{read_range_at, write_range_at, RAM_SIZE};

verus! {

/// Number of general-purpose registers.
pub const REGISTERS: usize = 16;

/// Number of return addresses that the stack holds.
pub const STACK_SIZE: usize = 16;

/// Number of the register that instructions use as a flag.
pub const FLAG: usize = 0xF;

/// Address at which execution starts.
pub const PROGRAM_START: u16 = 0x200;

/// Number of bytes of an instruction.
pub const OPCODE_SIZE: u16 = 2;

/// Highest address at which a whole instruction fits in memory.
pub const PC_MAX: u16 = 4094;

/// What an instruction does to the program counter.
#[derive(Clone, Copy, Debug, PartialEq, Eq, Structural)]
pub enum ProgramCounter {
    /// Go on with the instruction that follows.
    Next,
    /// Skip the instruction that follows.
    Skip,
    /// Go on at the given address.
    Jump(u16),
}

/// How a cycle ended.
#[derive(Clone, Copy, Debug, PartialEq, Eq, Structural)]
pub enum Progress {
    /// The instruction at the program counter was carried out.
    Executed,
    /// The instruction at the program counter waits for a key press that
    /// the input did not hold. Nothing has changed; the cycle is to be run
    /// again once a key has been pressed.
    AwaitingKey,
}

/// What the machine takes from its surroundings within one cycle.
#[derive(Clone, Copy, Debug)]
pub struct Input {
    /// The keys that are down: bit `k` is set while key `k` is.
    pub keys: u16,
    /// The key whose press ended the last wait for one, if there was one.
    /// Only the codes 0 to 15 are keys.
    pub key: Option<u8>,
    /// A byte drawn at random.
    pub random: u8,
}

impl Input {
    /// Whether the key `key` is down. Codes above 15 are no keys and never down.
    pub open spec fn key_down(self, key: u8) -> bool {
        key < 16 && (self.keys >> (key as u16)) & 1 == 1
    }

    /// The key press that the input holds, if it holds one.
    pub open spec fn pressed(self) -> Option<u8> {
        match self.key {
            Some(k) if k < 16 => Some(k),
            _ => None,
        }
    }

    /// An input with no key down, no key press, and `random` as the random byte.
    pub fn idle(random: u8) -> (input: Input)
        ensures
            input.keys == 0,
            input.key.is_none(),
            input.random == random,
    {
        Input { keys: 0, key: None, random }
    }

    /// Tells whether the key `key` is down.
    pub fn is_key_down(&self, key: u8) -> (down: bool)
        ensures
            down == self.key_down(key),
    {
        key < 16 && (self.keys >> (key as u16)) & 1 == 1
    }

    /// The key press that the input holds, if it holds one.
    pub fn key_press(&self) -> (key: Option<u8>)
        ensures
            key == self.pressed(),
    {
        match self.key {
            Some(k) => if k < 16 {
                Some(k)
            } else {
                None
            },
            None => None,
        }
    }
}

/// The processor as contracts see it.
pub struct CpuState {
    /// The registers `V0` to `VF`.
    pub regs: Seq<u8>,
    /// The index register `I`.
    pub i: u16,
    /// The program counter.
    pub pc: u16,
    /// The stack pointer: the number of return addresses on the stack, and
    /// the slot that the next one goes to.
    pub sp: u8,
    /// The slots of the stack.
    pub stack: Seq<u16>,
    /// The delay timer.
    pub dt: u8,
    /// The sound timer.
    pub st: u8,
}

/// The byte that a flag is stored as.
pub open spec fn flag_byte(flag: bool) -> u8 {
    if flag {
        1
    } else {
        0
    }
}

/// The decimal digits of a byte: hundreds, tens, units.
pub open spec fn bcd(value: u8) -> Seq<u8> {
    seq![(value / 100) as u8, (value / 10 % 10) as u8, (value % 10) as u8]
}

/// The program counter after `action`, from `pc`.
pub open spec fn next_pc(pc: u16, action: ProgramCounter) -> u16 {
    match action {
        ProgramCounter::Next => (pc + OPCODE_SIZE) as u16,
        ProgramCounter::Skip => (pc + 2 * OPCODE_SIZE) as u16,
        ProgramCounter::Jump(addr) => addr,
    }
}

/// The instruction word at `pc`: the byte there is its high half, the byte
/// after it its low half. There is none where the two bytes do not both
/// lie inside memory.
pub open spec fn fetch_at(mem: Seq<u8>, pc: u16) -> Result<u16, Chip8Error> {
    if pc > PC_MAX {
        Err(Chip8Error::AddressOutOfRange)
    } else {
        Ok((mem[pc as int] * 256 + mem[pc + 1]) as u16)
    }
}

/// `Skip` if `cond` holds, else `Next`.
pub open spec fn skip_if(cond: bool) -> ProgramCounter {
    if cond {
        ProgramCounter::Skip
    } else {
        ProgramCounter::Next
    }
}

impl CpuState {
    /// The processor at power-on: everything zero, the program counter at
    /// the program start.
    pub open spec fn initial() -> CpuState {
        CpuState {
            regs: Seq::new(REGISTERS as nat, |r: int| 0u8),
            i: 0,
            pc: PROGRAM_START,
            sp: 0,
            stack: Seq::new(STACK_SIZE as nat, |s: int| 0u16),
            dt: 0,
            st: 0,
        }
    }

    /// Whether this is a state that a processor can be in.
    pub open spec fn wf(self) -> bool {
        &&& self.regs.len() == REGISTERS
        &&& self.stack.len() == STACK_SIZE
        &&& self.sp <= STACK_SIZE
    }

    /// The value of register `x`.
    pub open spec fn reg(self, x: u8) -> u8 {
        self.regs[x as int]
    }

    /// The state with `value` in register `x`.
    pub open spec fn set_reg(self, x: u8, value: u8) -> CpuState {
        CpuState { regs: self.regs.update(x as int, value), ..self }
    }

    /// The state with `value` in register `x` and then `flag` in `VF`: where
    /// `x` is `VF` itself, the flag is what stays.
    pub open spec fn set_reg_and_flag(self, x: u8, value: u8, flag: bool) -> CpuState {
        CpuState {
            regs: self.regs.update(x as int, value).update(FLAG as int, flag_byte(flag)),
            ..self
        }
    }

    /// The state with `addr` in `I`.
    pub open spec fn set_index(self, addr: u16) -> CpuState {
        CpuState { i: addr, ..self }
    }

    /// The state with `addr` pushed on the stack.
    pub open spec fn push(self, addr: u16) -> CpuState {
        CpuState { stack: self.stack.update(self.sp as int, addr), sp: (self.sp + 1) as u8, ..self }
    }

    /// The state with the top of the stack taken off.
    pub open spec fn pop(self) -> CpuState {
        CpuState { sp: (self.sp - 1) as u8, ..self }
    }

    /// The address on top of the stack.
    pub open spec fn top(self) -> u16 {
        self.stack[self.sp - 1]
    }

    /// The state with the registers `V0` to `Vx` taken from `bytes`.
    pub open spec fn load_regs(self, x: u8, bytes: Seq<u8>) -> CpuState {
        CpuState {
            regs: Seq::new(
                REGISTERS as nat,
                |r: int| if r <= x { bytes[r] } else { self.regs[r] },
            ),
            ..self
        }
    }

    /// The state after one tick of the 60 Hz clock: each timer that is not
    /// zero is one less.
    pub open spec fn tick(self) -> CpuState {
        CpuState {
            dt: if self.dt > 0 { (self.dt - 1) as u8 } else { 0 },
            st: if self.st > 0 { (self.st - 1) as u8 } else { 0 },
            ..self
        }
    }
}

/// The whole machine as contracts see it.
pub struct Machine {
    /// The processor.
    pub cpu: CpuState,
    /// The 4096 bytes of memory.
    pub mem: Seq<u8>,
    /// The 2048 pixels of the screen, row after row.
    pub screen: Seq<bool>,
}

/// What an instruction leaves behind.
pub struct Effect {
    /// The machine after the instruction, the program counter not yet moved.
    pub machine: Machine,
    /// Where the program counter is to go, or `None` where the instruction
    /// waits for a key and has done nothing.
    pub action: Option<ProgramCounter>,
}

impl Machine {
    /// Whether this is a state that a machine can be in.
    pub open spec fn wf(self) -> bool {
        &&& self.cpu.wf()
        &&& self.mem.len() == RAM_SIZE
        &&& self.screen.len() == PIXELS
    }

    /// This machine with `cpu` as its processor, and `action` to follow.
    pub open spec fn cpu_effect(self, cpu: CpuState, action: ProgramCounter) -> Result<
        Effect,
        Chip8Error,
    > {
        Ok(Effect { machine: Machine { cpu, ..self }, action: Some(action) })
    }

    /// This machine as it is, and `action` to follow.
    pub open spec fn only(self, action: ProgramCounter) -> Result<Effect, Chip8Error> {
        Ok(Effect { machine: self, action: Some(action) })
    }

    /// What `RET` does: the top of the stack is taken off and jumped to,
    /// unless the stack is empty.
    pub open spec fn ret(self) -> Result<Effect, Chip8Error> {
        if self.cpu.sp == 0 {
            Err(Chip8Error::StackUnderflow)
        } else {
            self.cpu_effect(self.cpu.pop(), ProgramCounter::Jump(self.cpu.top()))
        }
    }

    /// What `CALL addr` does: the address after the call is pushed and
    /// `addr` jumped to, unless the stack is full.
    pub open spec fn call(self, addr: u16) -> Result<Effect, Chip8Error> {
        if self.cpu.sp >= STACK_SIZE {
            Err(Chip8Error::StackOverflow)
        } else {
            self.cpu_effect(
                self.cpu.push((self.cpu.pc + OPCODE_SIZE) as u16),
                ProgramCounter::Jump(addr),
            )
        }
    }

    /// What `DRW Vx, Vy, n` does: the `n` bytes at `I` are drawn as a sprite
    /// at column `Vx`, row `Vy`, and `VF` tells whether that put a lit pixel
    /// out. Fails where the sprite does not lie inside memory.
    pub open spec fn draw_sprite(self, x: u8, y: u8, n: u8) -> Result<Effect, Chip8Error> {
        match read_range_at(self.mem, self.cpu.i as int, n as int) {
            Err(e) => Err(e),
            Ok(sprite) => {
                let col = self.cpu.reg(x) as int;
                let row = self.cpu.reg(y) as int;
                Ok(
                    Effect {
                        machine: Machine {
                            cpu: self.cpu.set_reg(
                                FLAG as u8,
                                flag_byte(collides(self.screen, col, row, sprite)),
                            ),
                            screen: draw(self.screen, col, row, sprite),
                            ..self
                        },
                        action: Some(ProgramCounter::Next),
                    },
                )
            },
        }
    }

    /// What storing `bytes` at `I` does: all of them are written, or, where
    /// one of them cannot be, none.
    pub open spec fn store(self, bytes: Seq<u8>) -> Result<Effect, Chip8Error> {
        match write_range_at(self.mem, self.cpu.i as int, bytes) {
            Err(e) => Err(e),
            Ok(mem) => Ok(
                Effect { machine: Machine { mem, ..self }, action: Some(ProgramCounter::Next) },
            ),
        }
    }

    /// What `LD Vx, [I]` does: `V0` to `Vx` are read from memory at `I`.
    /// Fails where those bytes do not lie inside memory.
    pub open spec fn load(self, x: u8) -> Result<Effect, Chip8Error> {
        match read_range_at(self.mem, self.cpu.i as int, x + 1) {
            Err(e) => Err(e),
            Ok(bytes) => self.cpu_effect(self.cpu.load_regs(x, bytes), ProgramCounter::Next),
        }
    }

    /// What `LD Vx, K` does: with a key press at hand the key goes to `Vx`;
    /// without one the instruction waits and nothing changes.
    pub open spec fn wait_key(self, x: u8, input: Input) -> Result<Effect, Chip8Error> {
        match input.pressed() {
            Some(key) => self.cpu_effect(self.cpu.set_reg(x, key), ProgramCounter::Next),
            None => Ok(Effect { machine: self, action: None }),
        }
    }

    /// What carrying out `instr` does to the machine, the program counter
    /// left where it is: the machine afterwards and where the program
    /// counter is to go, or the error, in which case nothing has changed.
    pub open spec fn execute(self, instr: Instruction, input: Input) -> Result<
        Effect,
        Chip8Error,
    > {
        let cpu = self.cpu;
        match instr {
            Instruction::Cls => Ok(
                Effect {
                    machine: Machine { screen: blank_screen(), ..self },
                    action: Some(ProgramCounter::Next),
                },
            ),
            Instruction::Ret => self.ret(),
            Instruction::Jump { addr } => self.only(ProgramCounter::Jump(addr)),
            Instruction::Call { addr } => self.call(addr),
            Instruction::SkipEqByte { x, kk } => self.only(skip_if(cpu.reg(x) == kk)),
            Instruction::SkipNeByte { x, kk } => self.only(skip_if(cpu.reg(x) != kk)),
            Instruction::SkipEqReg { x, y } => self.only(skip_if(cpu.reg(x) == cpu.reg(y))),
            Instruction::LoadByte { x, kk } => self.cpu_effect(
                cpu.set_reg(x, kk),
                ProgramCounter::Next,
            ),
            Instruction::AddByte { x, kk } => self.cpu_effect(
                cpu.set_reg(x, ((cpu.reg(x) + kk) % 256) as u8),
                ProgramCounter::Next,
            ),
            Instruction::LoadReg { x, y } => self.cpu_effect(
                cpu.set_reg(x, cpu.reg(y)),
                ProgramCounter::Next,
            ),
            Instruction::Or { x, y } => self.cpu_effect(
                cpu.set_reg(x, cpu.reg(x) | cpu.reg(y)),
                ProgramCounter::Next,
            ),
            Instruction::And { x, y } => self.cpu_effect(
                cpu.set_reg(x, cpu.reg(x) & cpu.reg(y)),
                ProgramCounter::Next,
            ),
            Instruction::Xor { x, y } => self.cpu_effect(
                cpu.set_reg(x, cpu.reg(x) ^ cpu.reg(y)),
                ProgramCounter::Next,
            ),
            Instruction::AddReg { x, y } => self.cpu_effect(
                cpu.set_reg_and_flag(
                    x,
                    ((cpu.reg(x) + cpu.reg(y)) % 256) as u8,
                    cpu.reg(x) + cpu.reg(y) > 255,
                ),
                ProgramCounter::Next,
            ),
            Instruction::Sub { x, y } => self.cpu_effect(
                cpu.set_reg_and_flag(
                    x,
                    ((cpu.reg(x) - cpu.reg(y)) % 256) as u8,
                    cpu.reg(x) >= cpu.reg(y),
                ),
                ProgramCounter::Next,
            ),
            Instruction::ShiftRight { x } => self.cpu_effect(
                cpu.set_reg_and_flag(x, (cpu.reg(x) / 2) as u8, cpu.reg(x) % 2 == 1),
                ProgramCounter::Next,
            ),
            Instruction::SubNeg { x, y } => self.cpu_effect(
                cpu.set_reg_and_flag(
                    x,
                    ((cpu.reg(y) - cpu.reg(x)) % 256) as u8,
                    cpu.reg(y) >= cpu.reg(x),
                ),
                ProgramCounter::Next,
            ),
            Instruction::ShiftLeft { x } => self.cpu_effect(
                cpu.set_reg_and_flag(x, (cpu.reg(x) * 2 % 256) as u8, cpu.reg(x) >= 128),
                ProgramCounter::Next,
            ),
            Instruction::SkipNeReg { x, y } => self.only(skip_if(cpu.reg(x) != cpu.reg(y))),
            Instruction::LoadIndex { addr } => self.cpu_effect(
                cpu.set_index(addr),
                ProgramCounter::Next,
            ),
            Instruction::JumpOffset { addr } => self.only(
                ProgramCounter::Jump(((addr + cpu.reg(0)) % 65536) as u16),
            ),
            Instruction::Random { x, kk } => self.cpu_effect(
                cpu.set_reg(x, input.random & kk),
                ProgramCounter::Next,
            ),
            Instruction::Draw { x, y, n } => self.draw_sprite(x, y, n),
            Instruction::SkipKey { x } => self.only(skip_if(input.key_down(cpu.reg(x)))),
            Instruction::SkipNoKey { x } => self.only(skip_if(!input.key_down(cpu.reg(x)))),
            Instruction::LoadDelay { x } => self.cpu_effect(
                cpu.set_reg(x, cpu.dt),
                ProgramCounter::Next,
            ),
            Instruction::WaitKey { x } => self.wait_key(x, input),
            Instruction::SetDelay { x } => self.cpu_effect(
                CpuState { dt: cpu.reg(x), ..cpu },
                ProgramCounter::Next,
            ),
            Instruction::SetSound { x } => self.cpu_effect(
                CpuState { st: cpu.reg(x), ..cpu },
                ProgramCounter::Next,
            ),
            Instruction::AddIndex { x } => self.cpu_effect(
                cpu.set_index(((cpu.i + cpu.reg(x)) % 65536) as u16),
                ProgramCounter::Next,
            ),
            Instruction::LoadFont { x } => self.cpu_effect(
                cpu.set_index((cpu.reg(x) * 5) as u16),
                ProgramCounter::Next,
            ),
            Instruction::StoreBcd { x } => self.store(bcd(cpu.reg(x))),
            Instruction::StoreRegs { x } => self.store(cpu.regs.subrange(0, x + 1)),
            Instruction::LoadRegs { x } => self.load(x),
        }
    }

    /// The instruction word at the program counter.
    pub open spec fn fetch(self) -> Result<u16, Chip8Error> {
        fetch_at(self.mem, self.cpu.pc)
    }

    /// This machine with the program counter moved as `action` says.
    pub open spec fn advance(self, action: ProgramCounter) -> Machine {
        Machine { cpu: CpuState { pc: next_pc(self.cpu.pc, action), ..self.cpu }, ..self }
    }

    /// What one cycle does: the instruction at the program counter is
    /// fetched, decoded and carried out, and the program counter moved. An
    /// instruction that waits for a key leaves the machine as it is. So does
    /// every error.
    pub open spec fn step(self, input: Input) -> Result<(Machine, Progress), Chip8Error> {
        match self.fetch() {
            Err(e) => Err(e),
            Ok(word) => match Instruction::of_word(word) {
                None => Err(Chip8Error::UnknownOpcode),
                Some(instr) => match self.execute(instr, input) {
                    Err(e) => Err(e),
                    Ok(effect) => match effect.action {
                        None => Ok((self, Progress::AwaitingKey)),
                        Some(action) => Ok((effect.machine.advance(action), Progress::Executed)),
                    },
                },
            },
        }
    }
}

} // verus!
