use vstd::prelude::*;
use crate::display::{blank_screen, Display};
use crate::error::Chip8Error;
use crate::opcode::Instruction;
use crate::ram::{font_address, read_range_at, write_range_at, Ram};
use crate::state::{
    bcd, fetch_at, next_pc, skip_if, CpuState, Input, Machine, Progress, ProgramCounter, FLAG,
    OPCODE_SIZE, PC_MAX, PROGRAM_START, REGISTERS, STACK_SIZE,
};

verus! {

/// The processor: sixteen registers, the index register, the program
/// counter, a stack of sixteen return addresses and the two timers.
#[derive(Debug)]
pub struct Cpu {
    regs: [u8; 16],
    i: u16,
    pc: u16,
    sp: u8,
    stack: [u16; 16],
    dt: u8,
    st: u8,
}

impl View for Cpu {
    type V = CpuState;

    closed spec fn view(&self) -> CpuState {
        CpuState {
            regs: self.regs@,
            i: self.i,
            pc: self.pc,
            sp: self.sp,
            stack: self.stack@,
            dt: self.dt,
            st: self.st,
        }
    }
}

impl Cpu {
    #[verifier::type_invariant]
    spec fn inv(&self) -> bool {
        self.sp <= STACK_SIZE
    }

    /// A processor at power-on.
    pub fn new() -> (cpu: Cpu)
        ensures
            cpu@ == CpuState::initial(),
            cpu@.wf(),
    {
        let cpu = Cpu {
            regs: [0; 16],
            i: 0,
            pc: PROGRAM_START,
            sp: 0,
            stack: [0; 16],
            dt: 0,
            st: 0,
        };
        assert(cpu.regs@ =~= CpuState::initial().regs);
        assert(cpu.stack@ =~= CpuState::initial().stack);
        cpu
    }

    /// `00E0 - CLS`: clears the screen.
    pub fn op_cls(&self, display: &mut Display) -> (action: ProgramCounter)
        ensures
            final(display)@ == blank_screen(),
            action == ProgramCounter::Next,
    {
        display.clear();
        ProgramCounter::Next
    }

    /// `00EE - RET`: takes the top of the stack off and jumps to it. With
    /// an empty stack it fails and changes nothing.
    pub fn op_ret(&mut self) -> (r: Result<ProgramCounter, Chip8Error>)
        ensures
            final(self)@.wf(),
            old(self)@.sp == 0 ==> r == Err::<ProgramCounter, Chip8Error>(
                Chip8Error::StackUnderflow,
            ) && final(self)@ == old(self)@,
            old(self)@.sp > 0 ==> r == Ok::<ProgramCounter, Chip8Error>(
                ProgramCounter::Jump(old(self)@.top()),
            ) && final(self)@ == old(self)@.pop(),
    {
        proof {
            use_type_invariant(&*self);
        }
        if self.sp == 0 {
            return Err(Chip8Error::StackUnderflow);
        }
        self.sp -= 1;
        Ok(ProgramCounter::Jump(self.stack[self.sp as usize]))
    }

    /// `1nnn - JP addr`: jumps to `nnn`.
    pub fn op_jmp_addr(&self, nnn: u16) -> (action: ProgramCounter)
        ensures
            action == ProgramCounter::Jump(nnn),
    {
        ProgramCounter::Jump(nnn)
    }

    /// `2nnn - CALL addr`: pushes the address of the instruction after this
    /// one and jumps to `nnn`. With a full stack it fails and changes nothing.
    pub fn op_call_addr(&mut self, nnn: u16) -> (r: Result<ProgramCounter, Chip8Error>)
        requires
            old(self)@.pc <= PC_MAX,
        ensures
            final(self)@.wf(),
            old(self)@.sp >= STACK_SIZE ==> r == Err::<ProgramCounter, Chip8Error>(
                Chip8Error::StackOverflow,
            ) && final(self)@ == old(self)@,
            old(self)@.sp < STACK_SIZE ==> r == Ok::<ProgramCounter, Chip8Error>(
                ProgramCounter::Jump(nnn),
            ) && final(self)@ == old(self)@.push((old(self)@.pc + OPCODE_SIZE) as u16),
    {
        proof {
            use_type_invariant(&*self);
        }
        if self.sp as usize >= STACK_SIZE {
            return Err(Chip8Error::StackOverflow);
        }
        self.stack[self.sp as usize] = self.pc + OPCODE_SIZE;
        self.sp += 1;
        Ok(ProgramCounter::Jump(nnn))
    }

    /// `3xkk - SE Vx, byte`: skips the next instruction if `Vx` equals `kk`.
    pub fn op_se_byte(&self, vx: u8, kk: u8) -> (action: ProgramCounter)
        requires
            vx < REGISTERS,
        ensures
            action == skip_if(self@.reg(vx) == kk),
    {
        let vx_reg = self.regs[vx as usize];
        if vx_reg == kk {
            ProgramCounter::Skip
        } else {
            ProgramCounter::Next
        }
    }

    /// `4xkk - SNE Vx, byte`: skips the next instruction if `Vx` differs from `kk`.
    pub fn op_sne_byte(&self, vx: u8, kk: u8) -> (action: ProgramCounter)
        requires
            vx < REGISTERS,
        ensures
            action == skip_if(self@.reg(vx) != kk),
    {
        let vx_reg = self.regs[vx as usize];
        if vx_reg != kk {
            ProgramCounter::Skip
        } else {
            ProgramCounter::Next
        }
    }

    /// `5xy0 - SE Vx, Vy`: skips the next instruction if `Vx` equals `Vy`.
    pub fn op_se_regs(&self, vx: u8, vy: u8) -> (action: ProgramCounter)
        requires
            vx < REGISTERS,
            vy < REGISTERS,
        ensures
            action == skip_if(self@.reg(vx) == self@.reg(vy)),
    {
        let vx_reg = self.regs[vx as usize];
        let vy_reg = self.regs[vy as usize];
        if vx_reg == vy_reg {
            ProgramCounter::Skip
        } else {
            ProgramCounter::Next
        }
    }

    /// `6xkk - LD Vx, byte`: puts `kk` into `Vx`.
    pub fn op_ld_byte(&mut self, vx: u8, kk: u8) -> (action: ProgramCounter)
        requires
            vx < REGISTERS,
        ensures
            final(self)@ == old(self)@.set_reg(vx, kk),
            action == ProgramCounter::Next,
    {
        proof {
            use_type_invariant(&*self);
        }
        self.regs[vx as usize] = kk;
        ProgramCounter::Next
    }

    /// `7xkk - ADD Vx, byte`: adds `kk` to `Vx`, dropping any carry; `VF`
    /// is left alone.
    pub fn op_add_byte(&mut self, vx: u8, kk: u8) -> (action: ProgramCounter)
        requires
            vx < REGISTERS,
        ensures
            final(self)@ == old(self)@.set_reg(vx, ((old(self)@.reg(vx) + kk) % 256) as u8),
            action == ProgramCounter::Next,
    {
        proof {
            use_type_invariant(&*self);
        }
        let res: u16 = (self.regs[vx as usize] as u16) + (kk as u16);
        self.regs[vx as usize] = (res % 256) as u8;
        ProgramCounter::Next
    }

    /// `8xy0 - LD Vx, Vy`: copies `Vy` into `Vx`.
    pub fn op_ld_regs(&mut self, vx: u8, vy: u8) -> (action: ProgramCounter)
        requires
            vx < REGISTERS,
            vy < REGISTERS,
        ensures
            final(self)@ == old(self)@.set_reg(vx, old(self)@.reg(vy)),
            action == ProgramCounter::Next,
    {
        proof {
            use_type_invariant(&*self);
        }
        self.regs[vx as usize] = self.regs[vy as usize];
        ProgramCounter::Next
    }

    /// `8xy1 - OR Vx, Vy`: `Vx` becomes `Vx` or `Vy`, bit by bit.
    pub fn op_or(&mut self, vx: u8, vy: u8) -> (action: ProgramCounter)
        requires
            vx < REGISTERS,
            vy < REGISTERS,
        ensures
            final(self)@ == old(self)@.set_reg(vx, old(self)@.reg(vx) | old(self)@.reg(vy)),
            action == ProgramCounter::Next,
    {
        proof {
            use_type_invariant(&*self);
        }
        let res = self.regs[vx as usize] | self.regs[vy as usize];
        self.regs[vx as usize] = res;
        ProgramCounter::Next
    }

    /// `8xy2 - AND Vx, Vy`: `Vx` becomes `Vx` and `Vy`, bit by bit.
    pub fn op_and(&mut self, vx: u8, vy: u8) -> (action: ProgramCounter)
        requires
            vx < REGISTERS,
            vy < REGISTERS,
        ensures
            final(self)@ == old(self)@.set_reg(vx, old(self)@.reg(vx) & old(self)@.reg(vy)),
            action == ProgramCounter::Next,
    {
        proof {
            use_type_invariant(&*self);
        }
        let res = self.regs[vx as usize] & self.regs[vy as usize];
        self.regs[vx as usize] = res;
        ProgramCounter::Next
    }

    /// `8xy3 - XOR Vx, Vy`: `Vx` becomes `Vx` exclusive-or `Vy`, bit by bit.
    pub fn op_xor(&mut self, vx: u8, vy: u8) -> (action: ProgramCounter)
        requires
            vx < REGISTERS,
            vy < REGISTERS,
        ensures
            final(self)@ == old(self)@.set_reg(vx, old(self)@.reg(vx) ^ old(self)@.reg(vy)),
            action == ProgramCounter::Next,
    {
        proof {
            use_type_invariant(&*self);
        }
        let res = self.regs[vx as usize] ^ self.regs[vy as usize];
        self.regs[vx as usize] = res;
        ProgramCounter::Next
    }

    /// `8xy4 - ADD Vx, Vy`: adds `Vy` to `Vx`. `VF` becomes 1 if the sum is
    /// over 255 and 0 if it is not; `Vx` keeps the low eight bits of the
    /// sum. The flag is written last, so with `VF` as `Vx` the flag stays.
    pub fn op_add_regs(&mut self, vx: u8, vy: u8) -> (action: ProgramCounter)
        requires
            vx < REGISTERS,
            vy < REGISTERS,
        ensures
            final(self)@ == old(self)@.set_reg_and_flag(
                vx,
                ((old(self)@.reg(vx) + old(self)@.reg(vy)) % 256) as u8,
                old(self)@.reg(vx) + old(self)@.reg(vy) > 255,
            ),
            final(self)@.reg(FLAG as u8) == 1 <==> old(self)@.reg(vx) + old(self)@.reg(vy) > 255,
            final(self)@.reg(FLAG as u8) == 0 <==> old(self)@.reg(vx) + old(self)@.reg(vy) <= 255,
            vx != FLAG ==> final(self)@.reg(vx) == (old(self)@.reg(vx) + old(self)@.reg(vy)) % 256,
            action == ProgramCounter::Next,
    {
        proof {
            use_type_invariant(&*self);
        }
        let sum: u16 = (self.regs[vx as usize] as u16) + (self.regs[vy as usize] as u16);
        self.regs[vx as usize] = (sum % 256) as u8;
        self.regs[FLAG] = if sum > 255 {
            1
        } else {
            0
        };
        ProgramCounter::Next
    }

    /// `8xy5 - SUB Vx, Vy`: subtracts `Vy` from `Vx`. `VF` becomes 1 if `Vx`
    /// was at least `Vy`, so that nothing was borrowed, and 0 if not; `Vx`
    /// keeps the difference modulo 256. The flag is written last.
    pub fn op_sub(&mut self, vx: u8, vy: u8) -> (action: ProgramCounter)
        requires
            vx < REGISTERS,
            vy < REGISTERS,
        ensures
            final(self)@ == old(self)@.set_reg_and_flag(
                vx,
                ((old(self)@.reg(vx) - old(self)@.reg(vy)) % 256) as u8,
                old(self)@.reg(vx) >= old(self)@.reg(vy),
            ),
            final(self)@.reg(FLAG as u8) == 1 <==> old(self)@.reg(vx) >= old(self)@.reg(vy),
            final(self)@.reg(FLAG as u8) == 0 <==> old(self)@.reg(vx) < old(self)@.reg(vy),
            vx != FLAG ==> final(self)@.reg(vx) == (old(self)@.reg(vx) - old(self)@.reg(vy)) % 256,
            action == ProgramCounter::Next,
    {
        proof {
            use_type_invariant(&*self);
        }
        let a: u8 = self.regs[vx as usize];
        let b: u8 = self.regs[vy as usize];
        self.regs[vx as usize] = Self::wrapping_difference(a, b);
        self.regs[FLAG] = if a >= b {
            1
        } else {
            0
        };
        ProgramCounter::Next
    }

    /// The difference `a - b` modulo 256.
    fn wrapping_difference(a: u8, b: u8) -> (d: u8)
        ensures
            d == (a - b) % 256,
    {
        if a >= b {
            a - b
        } else {
            ((256 + a as u16) - b as u16) as u8
        }
    }

    /// `8xy6 - SHR Vx`: shifts `Vx` right by one bit. `VF` takes the bit
    /// that was shifted out, the lowest of `Vx`. `Vy` plays no part.
    pub fn op_shr(&mut self, vx: u8) -> (action: ProgramCounter)
        requires
            vx < REGISTERS,
        ensures
            final(self)@ == old(self)@.set_reg_and_flag(
                vx,
                (old(self)@.reg(vx) / 2) as u8,
                old(self)@.reg(vx) % 2 == 1,
            ),
            action == ProgramCounter::Next,
    {
        proof {
            use_type_invariant(&*self);
        }
        let v: u8 = self.regs[vx as usize];
        assert(v >> 1 == v / 2 && v & 1 == v % 2) by (bit_vector);
        self.regs[vx as usize] = v >> 1;
        self.regs[FLAG] = v & 1;
        ProgramCounter::Next
    }

    /// `8xy7 - SUBN Vx, Vy`: `Vx` becomes `Vy` minus `Vx`. `VF` becomes 1 if
    /// `Vy` was at least `Vx` and 0 if not; `Vx` keeps the difference modulo
    /// 256. The flag is written last.
    pub fn op_subn(&mut self, vx: u8, vy: u8) -> (action: ProgramCounter)
        requires
            vx < REGISTERS,
            vy < REGISTERS,
        ensures
            final(self)@ == old(self)@.set_reg_and_flag(
                vx,
                ((old(self)@.reg(vy) - old(self)@.reg(vx)) % 256) as u8,
                old(self)@.reg(vy) >= old(self)@.reg(vx),
            ),
            action == ProgramCounter::Next,
    {
        proof {
            use_type_invariant(&*self);
        }
        let a: u8 = self.regs[vx as usize];
        let b: u8 = self.regs[vy as usize];
        self.regs[vx as usize] = Self::wrapping_difference(b, a);
        self.regs[FLAG] = if b >= a {
            1
        } else {
            0
        };
        ProgramCounter::Next
    }

    /// `8xyE - SHL Vx`: shifts `Vx` left by one bit. `VF` takes the bit that
    /// was shifted out, the highest of `Vx`. `Vy` plays no part.
    pub fn op_shl(&mut self, vx: u8) -> (action: ProgramCounter)
        requires
            vx < REGISTERS,
        ensures
            final(self)@ == old(self)@.set_reg_and_flag(
                vx,
                (old(self)@.reg(vx) * 2 % 256) as u8,
                old(self)@.reg(vx) >= 128,
            ),
            action == ProgramCounter::Next,
    {
        proof {
            use_type_invariant(&*self);
        }
        let v: u8 = self.regs[vx as usize];
        assert((v & 0x7F) << 1 == v * 2 % 256 && v >> 7 == (if v >= 128 { 1u8 } else { 0u8 }))
            by (bit_vector);
        self.regs[vx as usize] = (v & 0x7F) << 1;
        self.regs[FLAG] = v >> 7;
        ProgramCounter::Next
    }

    /// `9xy0 - SNE Vx, Vy`: skips the next instruction if `Vx` differs from `Vy`.
    pub fn op_sne_regs(&self, vx: u8, vy: u8) -> (action: ProgramCounter)
        requires
            vx < REGISTERS,
            vy < REGISTERS,
        ensures
            action == skip_if(self@.reg(vx) != self@.reg(vy)),
    {
        if self.regs[vx as usize] != self.regs[vy as usize] {
            ProgramCounter::Skip
        } else {
            ProgramCounter::Next
        }
    }

    /// `Annn - LD I, addr`: puts `nnn` into `I`.
    pub fn op_ld_i(&mut self, nnn: u16) -> (action: ProgramCounter)
        ensures
            final(self)@ == old(self)@.set_index(nnn),
            action == ProgramCounter::Next,
    {
        proof {
            use_type_invariant(&*self);
        }
        self.i = nnn;
        ProgramCounter::Next
    }

    /// `Bnnn - JP V0, addr`: jumps to `nnn` plus `V0`.
    pub fn op_jmp_v0(&self, nnn: u16) -> (action: ProgramCounter)
        ensures
            action == ProgramCounter::Jump(((nnn + self@.reg(0)) % 65536) as u16),
    {
        let target: u32 = nnn as u32 + self.regs[0] as u32;
        ProgramCounter::Jump((target % 65536) as u16)
    }

    /// `Cxkk - RND Vx, byte`: puts the random byte `random`, masked by
    /// `kk`, into `Vx`.
    pub fn op_rnd(&mut self, vx: u8, kk: u8, random: u8) -> (action: ProgramCounter)
        requires
            vx < REGISTERS,
        ensures
            final(self)@ == old(self)@.set_reg(vx, random & kk),
            action == ProgramCounter::Next,
    {
        proof {
            use_type_invariant(&*self);
        }
        self.regs[vx as usize] = random & kk;
        ProgramCounter::Next
    }

    /// `Dxyn - DRW Vx, Vy, nibble`: draws the `n` bytes at `I` as a sprite
    /// at column `Vx`, row `Vy`; `VF` becomes 1 if that put a lit pixel out
    /// and 0 if not. Where the sprite does not lie inside memory it fails
    /// and changes nothing.
    pub fn op_drw(&mut self, vx: u8, vy: u8, n: u8, ram: &Ram, display: &mut Display) -> (r: Result<
        ProgramCounter,
        Chip8Error,
    >)
        requires
            vx < REGISTERS,
            vy < REGISTERS,
        ensures
            match (Machine { cpu: old(self)@, mem: ram@, screen: old(display)@ }).draw_sprite(
                vx,
                vy,
                n,
            ) {
                Ok(effect) => r == Ok::<ProgramCounter, Chip8Error>(ProgramCounter::Next)
                    && final(self)@ == effect.machine.cpu && final(display)@
                    == effect.machine.screen,
                Err(e) => r == Err::<ProgramCounter, Chip8Error>(e) && final(self)@ == old(self)@
                    && final(display)@ == old(display)@,
            },
    {
        proof {
            use_type_invariant(&*self);
        }
        match ram.read_range(self.i, n as usize) {
            Err(e) => Err(e),
            Ok(sprite) => {
                let collision = display.draw_sprite(
                    self.regs[vx as usize] as usize,
                    self.regs[vy as usize] as usize,
                    &sprite,
                );
                self.regs[FLAG] = if collision {
                    1
                } else {
                    0
                };
                Ok(ProgramCounter::Next)
            },
        }
    }

    /// `Ex9E - SKP Vx`: skips the next instruction if the key `Vx` is down.
    pub fn op_skp(&self, vx: u8, input: &Input) -> (action: ProgramCounter)
        requires
            vx < REGISTERS,
        ensures
            action == skip_if(input.key_down(self@.reg(vx))),
    {
        if input.is_key_down(self.regs[vx as usize]) {
            ProgramCounter::Skip
        } else {
            ProgramCounter::Next
        }
    }

    /// `ExA1 - SKNP Vx`: skips the next instruction if the key `Vx` is not down.
    pub fn op_sknp(&self, vx: u8, input: &Input) -> (action: ProgramCounter)
        requires
            vx < REGISTERS,
        ensures
            action == skip_if(!input.key_down(self@.reg(vx))),
    {
        if !input.is_key_down(self.regs[vx as usize]) {
            ProgramCounter::Skip
        } else {
            ProgramCounter::Next
        }
    }

    /// `Fx07 - LD Vx, DT`: copies the delay timer into `Vx`.
    pub fn op_ld_vx_dt(&mut self, vx: u8) -> (action: ProgramCounter)
        requires
            vx < REGISTERS,
        ensures
            final(self)@ == old(self)@.set_reg(vx, old(self)@.dt),
            action == ProgramCounter::Next,
    {
        proof {
            use_type_invariant(&*self);
        }
        self.regs[vx as usize] = self.dt;
        ProgramCounter::Next
    }

    /// `Fx0A - LD Vx, K`: with a key press in `input`, puts the key into
    /// `Vx` and goes on. Without one it waits: it returns `None` and changes
    /// nothing.
    pub fn op_ld_key(&mut self, vx: u8, input: &Input) -> (action: Option<ProgramCounter>)
        requires
            vx < REGISTERS,
        ensures
            match input.pressed() {
                Some(key) => action == Some(ProgramCounter::Next) && final(self)@ == old(self)@.set_reg(vx, key),
                None => action.is_none() && final(self)@ == old(self)@,
            },
    {
        proof {
            use_type_invariant(&*self);
        }
        match input.key_press() {
            Some(key) => {
                self.regs[vx as usize] = key;
                Some(ProgramCounter::Next)
            },
            None => None,
        }
    }

    /// `Fx15 - LD DT, Vx`: copies `Vx` into the delay timer.
    pub fn op_ld_dt(&mut self, vx: u8) -> (action: ProgramCounter)
        requires
            vx < REGISTERS,
        ensures
            final(self)@ == (CpuState { dt: old(self)@.reg(vx), ..old(self)@ }),
            action == ProgramCounter::Next,
    {
        proof {
            use_type_invariant(&*self);
        }
        self.dt = self.regs[vx as usize];
        ProgramCounter::Next
    }

    /// `Fx18 - LD ST, Vx`: copies `Vx` into the sound timer.
    pub fn op_ld_st(&mut self, vx: u8) -> (action: ProgramCounter)
        requires
            vx < REGISTERS,
        ensures
            final(self)@ == (CpuState { st: old(self)@.reg(vx), ..old(self)@ }),
            action == ProgramCounter::Next,
    {
        proof {
            use_type_invariant(&*self);
        }
        self.st = self.regs[vx as usize];
        ProgramCounter::Next
    }

    /// `Fx1E - ADD I, Vx`: adds `Vx` to `I`, modulo 65536.
    pub fn op_add_i(&mut self, vx: u8) -> (action: ProgramCounter)
        requires
            vx < REGISTERS,
        ensures
            final(self)@ == old(self)@.set_index(
                ((old(self)@.i + old(self)@.reg(vx)) % 65536) as u16,
            ),
            action == ProgramCounter::Next,
    {
        proof {
            use_type_invariant(&*self);
        }
        let sum: u32 = self.i as u32 + self.regs[vx as usize] as u32;
        self.i = (sum % 65536) as u16;
        ProgramCounter::Next
    }

    /// `Fx29 - LD F, Vx`: points `I` at the font sprite of the digit `Vx`,
    /// which starts at five times `Vx`.
    pub fn op_ld_font(&mut self, vx: u8) -> (action: ProgramCounter)
        requires
            vx < REGISTERS,
        ensures
            final(self)@ == old(self)@.set_index((old(self)@.reg(vx) * 5) as u16),
            final(self)@.i == font_address(old(self)@.reg(vx) as int),
            action == ProgramCounter::Next,
    {
        proof {
            use_type_invariant(&*self);
        }
        self.i = self.regs[vx as usize] as u16 * 5;
        ProgramCounter::Next
    }

    /// `Fx33 - LD B, Vx`: stores the hundreds, tens and units of `Vx` at
    /// `I`, `I + 1` and `I + 2`. Where one of the three cannot be written
    /// it fails and changes nothing.
    pub fn op_ld_bcd(&self, vx: u8, ram: &mut Ram) -> (r: Result<ProgramCounter, Chip8Error>)
        requires
            vx < REGISTERS,
        ensures
            match write_range_at(old(ram)@, self@.i as int, bcd(self@.reg(vx))) {
                Ok(mem) => r == Ok::<ProgramCounter, Chip8Error>(ProgramCounter::Next) && final(ram)@ == mem,
                Err(e) => r == Err::<ProgramCounter, Chip8Error>(e) && final(ram)@ == old(ram)@,
            },
    {
        let v: u8 = self.regs[vx as usize];
        let mut digits: Vec<u8> = Vec::new();
        digits.push(v / 100);
        digits.push(v / 10 % 10);
        digits.push(v % 10);
        match ram.write_range(self.i, &digits) {
            Ok(()) => Ok(ProgramCounter::Next),
            Err(e) => Err(e),
        }
    }

    /// `Fx55 - LD [I], Vx`: stores `V0` to `Vx` in memory from `I` on. Where
    /// one of them cannot be written it fails and changes nothing.
    pub fn op_st_regs(&self, vx: u8, ram: &mut Ram) -> (r: Result<ProgramCounter, Chip8Error>)
        requires
            vx < REGISTERS,
        ensures
            match write_range_at(
                old(ram)@,
                self@.i as int,
                self@.regs.subrange(0, vx + 1),
            ) {
                Ok(mem) => r == Ok::<ProgramCounter, Chip8Error>(ProgramCounter::Next) && final(ram)@ == mem,
                Err(e) => r == Err::<ProgramCounter, Chip8Error>(e) && final(ram)@ == old(ram)@,
            },
    {
        let mut bytes: Vec<u8> = Vec::new();
        let mut k: usize = 0;
        while k <= vx as usize
            invariant
                k <= vx + 1,
                vx < REGISTERS,
                bytes@ == self.regs@.subrange(0, k as int),
            decreases vx + 1 - k,
        {
            bytes.push(self.regs[k]);
            k += 1;
        }
        match ram.write_range(self.i, &bytes) {
            Ok(()) => Ok(ProgramCounter::Next),
            Err(e) => Err(e),
        }
    }

    /// `Fx65 - LD Vx, [I]`: loads `V0` to `Vx` from memory from `I` on.
    /// Where those bytes do not lie inside memory it fails and changes
    /// nothing.
    pub fn op_ld_mem(&mut self, vx: u8, ram: &Ram) -> (r: Result<ProgramCounter, Chip8Error>)
        requires
            vx < REGISTERS,
        ensures
            match read_range_at(ram@, old(self)@.i as int, vx + 1) {
                Ok(bytes) => r == Ok::<ProgramCounter, Chip8Error>(ProgramCounter::Next) && final(self)@ == old(self)@.load_regs(vx, bytes),
                Err(e) => r == Err::<ProgramCounter, Chip8Error>(e) && final(self)@ == old(self)@,
            },
    {
        proof {
            use_type_invariant(&*self);
        }
        match ram.read_range(self.i, vx as usize + 1) {
            Err(e) => Err(e),
            Ok(bytes) => {
                let mut k: usize = 0;
                while k <= vx as usize
                    invariant
                        k <= vx + 1,
                        vx < REGISTERS,
                        bytes@.len() == vx + 1,
                        self.sp <= STACK_SIZE,
                        self.i == old(self).i,
                        self.pc == old(self).pc,
                        self.sp == old(self).sp,
                        self.stack == old(self).stack,
                        self.dt == old(self).dt,
                        self.st == old(self).st,
                        forall|r: int| 0 <= r < k ==> self.regs@[r] == bytes@[r],
                        forall|r: int| k <= r < REGISTERS ==> self.regs@[r] == old(self).regs@[r],
                    decreases vx + 1 - k,
                {
                    self.regs[k] = bytes[k];
                    k += 1;
                }
                assert(self@.regs =~= old(self)@.load_regs(vx, bytes@).regs);
                Ok(ProgramCounter::Next)
            },
        }
    }

    /// Carries out `instr` as the instruction at the program counter,
    /// without moving the program counter: it returns where the counter is
    /// to go, or `None` where the instruction waits for a key press that
    /// `input` does not hold. An instruction that fails changes nothing.
    pub fn execute(
        &mut self,
        instr: Instruction,
        ram: &mut Ram,
        display: &mut Display,
        input: &Input,
    ) -> (r: Result<Option<ProgramCounter>, Chip8Error>)
        requires
            instr.wf(),
            old(self)@.pc <= PC_MAX,
        ensures
            match (Machine { cpu: old(self)@, mem: old(ram)@, screen: old(display)@ }).execute(
                instr,
                *input,
            ) {
                Ok(effect) => r == Ok::<Option<ProgramCounter>, Chip8Error>(effect.action)
                    && final(self)@ == effect.machine.cpu && final(ram)@ == effect.machine.mem
                    && final(display)@ == effect.machine.screen,
                Err(e) => r == Err::<Option<ProgramCounter>, Chip8Error>(e) && final(self)@ == old(self)@ && final(ram)@ == old(ram)@ && final(display)@ == old(display)@,
            },
            final(self)@.pc == old(self)@.pc,
    {
        let action = match instr {
            Instruction::Cls => self.op_cls(display),
            Instruction::Ret => match self.op_ret() {
                Ok(action) => action,
                Err(e) => return Err(e),
            },
            Instruction::Jump { addr } => self.op_jmp_addr(addr),
            Instruction::Call { addr } => match self.op_call_addr(addr) {
                Ok(action) => action,
                Err(e) => return Err(e),
            },
            Instruction::SkipEqByte { x, kk } => self.op_se_byte(x, kk),
            Instruction::SkipNeByte { x, kk } => self.op_sne_byte(x, kk),
            Instruction::SkipEqReg { x, y } => self.op_se_regs(x, y),
            Instruction::LoadByte { x, kk } => self.op_ld_byte(x, kk),
            Instruction::AddByte { x, kk } => self.op_add_byte(x, kk),
            Instruction::LoadReg { x, y } => self.op_ld_regs(x, y),
            Instruction::Or { x, y } => self.op_or(x, y),
            Instruction::And { x, y } => self.op_and(x, y),
            Instruction::Xor { x, y } => self.op_xor(x, y),
            Instruction::AddReg { x, y } => self.op_add_regs(x, y),
            Instruction::Sub { x, y } => self.op_sub(x, y),
            Instruction::ShiftRight { x } => self.op_shr(x),
            Instruction::SubNeg { x, y } => self.op_subn(x, y),
            Instruction::ShiftLeft { x } => self.op_shl(x),
            Instruction::SkipNeReg { x, y } => self.op_sne_regs(x, y),
            Instruction::LoadIndex { addr } => self.op_ld_i(addr),
            Instruction::JumpOffset { addr } => self.op_jmp_v0(addr),
            Instruction::Random { x, kk } => self.op_rnd(x, kk, input.random),
            Instruction::Draw { x, y, n } => match self.op_drw(x, y, n, ram, display) {
                Ok(action) => action,
                Err(e) => return Err(e),
            },
            Instruction::SkipKey { x } => self.op_skp(x, input),
            Instruction::SkipNoKey { x } => self.op_sknp(x, input),
            Instruction::LoadDelay { x } => self.op_ld_vx_dt(x),
            Instruction::WaitKey { x } => return Ok(self.op_ld_key(x, input)),
            Instruction::SetDelay { x } => self.op_ld_dt(x),
            Instruction::SetSound { x } => self.op_ld_st(x),
            Instruction::AddIndex { x } => self.op_add_i(x),
            Instruction::LoadFont { x } => self.op_ld_font(x),
            Instruction::StoreBcd { x } => match self.op_ld_bcd(x, ram) {
                Ok(action) => action,
                Err(e) => return Err(e),
            },
            Instruction::StoreRegs { x } => match self.op_st_regs(x, ram) {
                Ok(action) => action,
                Err(e) => return Err(e),
            },
            Instruction::LoadRegs { x } => match self.op_ld_mem(x, ram) {
                Ok(action) => action,
                Err(e) => return Err(e),
            },
        };
        Ok(Some(action))
    }

    /// Reads the instruction word at the program counter: the byte there is
    /// the high half, the byte after it the low half. Fails where the two
    /// bytes do not both lie inside memory.
    pub fn fetch(&self, ram: &Ram) -> (r: Result<u16, Chip8Error>)
        ensures
            r == fetch_at(ram@, self@.pc),
            r.is_ok() <==> self@.pc <= PC_MAX,
    {
        if self.pc > PC_MAX {
            return Err(Chip8Error::AddressOutOfRange);
        }
        let hi = match ram.read(self.pc) {
            Ok(byte) => byte,
            Err(e) => return Err(e),
        };
        let lo = match ram.read(self.pc + 1) {
            Ok(byte) => byte,
            Err(e) => return Err(e),
        };
        assert((hi as u16) << 8 | (lo as u16) == hi * 256 + lo) by (bit_vector);
        Ok((hi as u16) << 8 | (lo as u16))
    }

    /// Moves the program counter as `action` says.
    fn advance(&mut self, action: ProgramCounter)
        requires
            old(self)@.pc <= PC_MAX,
        ensures
            final(self)@ == (CpuState {
                pc: next_pc(old(self)@.pc, action),
                ..old(self)@
            }),
    {
        proof {
            use_type_invariant(&*self);
        }
        match action {
            ProgramCounter::Next => {
                self.pc = self.pc + OPCODE_SIZE;
            },
            ProgramCounter::Skip => {
                self.pc = self.pc + 2 * OPCODE_SIZE;
            },
            ProgramCounter::Jump(addr) => {
                self.pc = addr;
            },
        }
    }

    /// Runs one cycle: fetches the instruction at the program counter,
    /// decodes it, carries it out and moves the program counter. Where the
    /// instruction waits for a key press that `input` does not hold, the
    /// cycle ends as `AwaitingKey` and nothing has changed. Where the cycle
    /// fails, nothing has changed either.
    pub fn execute_instruction(&mut self, ram: &mut Ram, display: &mut Display, input: &Input) -> (r:
        Result<Progress, Chip8Error>)
        ensures
            match (Machine { cpu: old(self)@, mem: old(ram)@, screen: old(display)@ }).step(
                *input,
            ) {
                Ok((next, progress)) => r == Ok::<Progress, Chip8Error>(progress) && final(self)@
                    == next.cpu && final(ram)@ == next.mem && final(display)@ == next.screen,
                Err(e) => r == Err::<Progress, Chip8Error>(e) && final(self)@ == old(self)@
                    && final(ram)@ == old(ram)@ && final(display)@ == old(display)@,
            },
    {
        let word = match self.fetch(ram) {
            Ok(word) => word,
            Err(e) => return Err(e),
        };
        let instr = match Instruction::decode(word) {
            Ok(instr) => instr,
            Err(e) => return Err(e),
        };
        match self.execute(instr, ram, display, input) {
            Err(e) => Err(e),
            Ok(None) => Ok(Progress::AwaitingKey),
            Ok(Some(action)) => {
                self.advance(action);
                Ok(Progress::Executed)
            },
        }
    }

    /// One tick of the 60 Hz clock: each timer that is not zero goes down
    /// by one. No instruction does this.
    pub fn tick_timers(&mut self)
        ensures
            final(self)@ == old(self)@.tick(),
    {
        proof {
            use_type_invariant(&*self);
        }
        if self.dt > 0 {
            self.dt -= 1;
        }
        if self.st > 0 {
            self.st -= 1;
        }
    }

    /// Whether the tone is to sound: it does while the sound timer is not zero.
    pub fn sound_on(&self) -> (on: bool)
        ensures
            on == (self@.st > 0),
    {
        self.st > 0
    }

    /// The value of register `x`.
    pub fn reg(&self, x: u8) -> (value: u8)
        requires
            x < REGISTERS,
        ensures
            value == self@.reg(x),
    {
        self.regs[x as usize]
    }

    /// The index register `I`.
    pub fn index(&self) -> (addr: u16)
        ensures
            addr == self@.i,
    {
        self.i
    }

    /// The program counter.
    pub fn pc(&self) -> (addr: u16)
        ensures
            addr == self@.pc,
    {
        self.pc
    }

    /// The stack pointer: the number of return addresses on the stack.
    pub fn sp(&self) -> (depth: u8)
        ensures
            depth == self@.sp,
            depth <= STACK_SIZE,
            self@.wf(),
    {
        proof {
            use_type_invariant(self);
        }
        self.sp
    }

    /// The return address in slot `slot` of the stack.
    pub fn stack_slot(&self, slot: u8) -> (addr: u16)
        requires
            slot < STACK_SIZE,
        ensures
            addr == self@.stack[slot as int],
    {
        self.stack[slot as usize]
    }

    /// The delay timer.
    pub fn delay_timer(&self) -> (value: u8)
        ensures
            value == self@.dt,
    {
        self.dt
    }

    /// The sound timer.
    pub fn sound_timer(&self) -> (value: u8)
        ensures
            value == self@.st,
    {
        self.st
    }
}

} // verus!
