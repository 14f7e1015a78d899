use vstd::prelude::*;
use crate::display::{lemma_draw_pixel, PIXELS};
use crate::opcode::{lemma_word_operands_in_range, Instruction};
use crate::ram::protected_intact;
use crate::state::{
    CpuState, Input, Machine, Progress, ProgramCounter, OPCODE_SIZE, PC_MAX, STACK_SIZE,
};

verus! {

/// A call followed by a return comes back to the instruction after the
/// call, with the stack pointer, the registers, the memory and the screen
/// as they were before the call.
pub proof fn law_call_then_ret(m: Machine, addr: u16)
    requires
        m.wf(),
        m.cpu.sp < STACK_SIZE,
        m.cpu.pc <= PC_MAX,
    ensures
        m.call(addr) is Ok,
        m.call(addr)->Ok_0.action == Some(ProgramCounter::Jump(addr)),
        ({
            let inside = m.call(addr)->Ok_0.machine.advance(ProgramCounter::Jump(addr));
            let after_call = ProgramCounter::Jump((m.cpu.pc + OPCODE_SIZE) as u16);
            &&& inside.cpu.pc == addr
            &&& inside.cpu.sp == m.cpu.sp + 1
            &&& inside.ret() is Ok
            &&& inside.ret()->Ok_0.action == Some(after_call)
            &&& ({
                let back = inside.ret()->Ok_0.machine.advance(after_call);
                &&& back.cpu.pc == m.cpu.pc + OPCODE_SIZE
                &&& back.cpu.sp == m.cpu.sp
                &&& back.cpu.regs == m.cpu.regs
                &&& back.cpu.i == m.cpu.i
                &&& back.mem == m.mem
                &&& back.screen == m.screen
            })
        }),
{
}

/// The same of two whole cycles: where the instruction at the program
/// counter is a call to `addr`, the instruction at `addr` a return, and the
/// stack not full, the two cycles succeed and end at the instruction after
/// the call with the stack pointer as it was.
pub proof fn law_call_then_ret_cycles(m: Machine, addr: u16, first: Input, second: Input)
    requires
        m.wf(),
        m.cpu.sp < STACK_SIZE,
        m.fetch() is Ok,
        Instruction::of_word(m.fetch()->Ok_0) == Some(Instruction::Call { addr }),
        (Machine { cpu: CpuState { pc: addr, ..m.cpu }, ..m }).fetch() is Ok,
        Instruction::of_word((Machine { cpu: CpuState { pc: addr, ..m.cpu }, ..m }).fetch()->Ok_0)
            == Some(Instruction::Ret),
    ensures
        m.step(first) is Ok,
        m.step(first)->Ok_0.1 == Progress::Executed,
        m.step(first)->Ok_0.0.step(second) is Ok,
        m.step(first)->Ok_0.0.step(second)->Ok_0.1 == Progress::Executed,
        ({
            let back = m.step(first)->Ok_0.0.step(second)->Ok_0.0;
            &&& back.cpu.pc == m.cpu.pc + OPCODE_SIZE
            &&& back.cpu.sp == m.cpu.sp
            &&& back.cpu.regs == m.cpu.regs
            &&& back.cpu.i == m.cpu.i
            &&& back.mem == m.mem
            &&& back.screen == m.screen
        }),
{
    law_call_then_ret(m, addr);
    let called = m.call(addr)->Ok_0;
    let inside = called.machine.advance(ProgramCounter::Jump(addr));
    assert(m.step(first) == Ok::<(Machine, Progress), crate::error::Chip8Error>(
        (inside, Progress::Executed),
    ));
}

/// A cycle that succeeds leaves a machine that is well formed, with its
/// stack pointer between 0 and 16, and leaves the protected region of
/// memory as it was.
pub proof fn law_step_keeps_well_formed(m: Machine, input: Input)
    requires
        m.wf(),
    ensures
        m.step(input) matches Ok((next, _)) ==> next.wf() && next.cpu.sp <= STACK_SIZE && (
        protected_intact(m.mem) ==> protected_intact(next.mem)),
{
    match m.fetch() {
        Ok(word) => match Instruction::of_word(word) {
            Some(instr) => {
                lemma_word_operands_in_range(word);
                law_execute_keeps_well_formed(m, instr, input);
            },
            None => {},
        },
        Err(_) => {},
    }
}

/// An instruction that succeeds leaves a machine that is well formed, and
/// leaves the protected region of memory as it was.
pub proof fn law_execute_keeps_well_formed(m: Machine, instr: Instruction, input: Input)
    requires
        m.wf(),
        instr.wf(),
    ensures
        m.execute(instr, input) matches Ok(effect) ==> effect.machine.wf() && (protected_intact(
            m.mem,
        ) ==> protected_intact(effect.machine.mem)),
{
    match instr {
        Instruction::Draw { x, y, n } => {
            match crate::ram::read_range_at(m.mem, m.cpu.i as int, n as int) {
                Ok(sprite) => {
                    lemma_draw_pixel(m.screen, m.cpu.reg(x) as int, m.cpu.reg(y) as int, sprite, 0);
                },
                Err(_) => {},
            }
        },
        _ => {},
    }
}

/// No instruction counts a timer down: after an instruction each timer is
/// as it was, unless the instruction is the one that sets it, and then it
/// holds the value of the register named.
pub proof fn law_instructions_leave_timers(m: Machine, instr: Instruction, input: Input)
    requires
        m.wf(),
    ensures
        m.execute(instr, input) matches Ok(effect) ==> {
            &&& effect.machine.cpu.dt == (if let Instruction::SetDelay { x } = instr {
                m.cpu.reg(x)
            } else {
                m.cpu.dt
            })
            &&& effect.machine.cpu.st == (if let Instruction::SetSound { x } = instr {
                m.cpu.reg(x)
            } else {
                m.cpu.st
            })
        },
{
}

/// An instruction that waits for a key changes nothing, and only the wait
/// for a key ever waits.
pub proof fn law_only_key_wait_suspends(m: Machine, instr: Instruction, input: Input)
    ensures
        m.execute(instr, input) matches Ok(effect) ==> (effect.action is None <==> instr is WaitKey
            && input.pressed() is None) && (effect.action is None ==> effect.machine == m),
{
}

} // verus!
