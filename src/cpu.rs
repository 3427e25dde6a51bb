//! The processor: registers, memory and the interpreter.
use vstd::prelude::*;
use crate::opcodes::lookup;
use crate::state::{
    initial_state, CpuState, MEMORY_SIZE, PROGRAM_START, RESET_VECTOR, STACK, STACK_RESET,
};
use crate::status::{
    set_flag, get_flag, CARRY, ZERO, INTERRUPT_DISABLE, DECIMAL, BREAK, UNUSED, OVERFLOW, NEGATIVE,
};

verus! {

/// How an instruction finds its operand, given the program counter pointing
/// one past the opcode byte.
#[derive(Debug, Clone, Copy, PartialEq, Eq, Structural)]
#[allow(non_camel_case_types)]
pub enum AddressingMode {
    Immediate,
    ZeroPage,
    ZeroPage_X,
    ZeroPage_Y,
    Absolute,
    Absolute_X,
    Absolute_Y,
    Indirect_X,
    Indirect_Y,
    /// Implied, accumulator, relative or jump operands: no effective address.
    NoneAddressing,
}

/// How a run ended other than by `BRK`.
#[derive(Debug, Clone, Copy, PartialEq, Eq, Structural)]
pub enum ExecError {
    /// The fetched byte is not a supported opcode.
    UnknownOpcode(u8),
    /// The run was given a number of instructions and used them all.
    StepLimit,
}

/// What an executed instruction asks of the interpreter loop.
#[derive(Debug, Clone, Copy, PartialEq, Eq, Structural)]
pub enum Step {
    /// Go on with the next instruction.
    Continue,
    /// `BRK` was executed: stop.
    Break,
}

/// A 6502 processor with its own 64 KiB of memory.
pub struct CPU {
    pub register_a: u8,
    pub register_x: u8,
    pub register_y: u8,
    pub processor_status: u8,
    pub program_counter: u16,
    pub stack_pointer: u8,
    pub memory: [u8; MEMORY_SIZE],
}

impl View for CPU {
    type V = CpuState;

    open spec fn view(&self) -> CpuState {
        CpuState {
            a: self.register_a,
            x: self.register_x,
            y: self.register_y,
            p: self.processor_status,
            sp: self.stack_pointer,
            pc: self.program_counter,
            mem: self.memory@,
        }
    }
}

impl CPU {
    /// A fresh processor: registers zero, stack pointer 0xfd, memory zero.
    pub fn new() -> (r: Self)
        ensures
            r@ == initial_state(),
    {
        let r = CPU {
            register_a: 0,
            register_x: 0,
            register_y: 0,
            stack_pointer: STACK_RESET,
            processor_status: 0,
            program_counter: 0,
            memory: [0u8; MEMORY_SIZE],
        };
        assert(r.memory@ =~= initial_state().mem);
        r
    }

    /// The byte at `addr`.
    pub fn memory_read(&self, addr: u16) -> (r: u8)
        ensures
            r == self@.read8(addr),
    {
        self.memory[addr as usize]
    }

    /// Stores `data` at `addr`.
    pub fn memory_write(&mut self, addr: u16, data: u8)
        ensures
            final(self)@ == old(self)@.write8(addr, data),
    {
        self.memory[addr as usize] = data;
    }

    /// Little-endian read of two bytes; the second address wraps.
    pub fn memory_read_u16(&self, pos: u16) -> (r: u16)
        ensures
            r == self@.read16(pos),
    {
        let lo = self.memory_read(pos) as u16;
        let hi = self.memory_read(pos.wrapping_add(1)) as u16;
        (hi << 8) | (lo as u16)
    }

    /// Little-endian write of two bytes: low byte, then high byte.
    pub fn memory_write_u16(&mut self, pos: u16, data: u16)
        ensures
            final(self)@ == old(self)@.write16(pos, data),
    {
        let hi = (data >> 8) as u8;
        let lo = (data & 0xff) as u8;
        self.memory_write(pos, lo);
        self.memory_write(pos.wrapping_add(1), hi);
    }

    fn get_operand_address(&self, mode: &AddressingMode) -> (r: u16)
        requires
            *mode != AddressingMode::NoneAddressing,
        ensures
            r == self@.operand_address(*mode),
    {
        match mode {
            AddressingMode::Immediate => self.program_counter,
            AddressingMode::ZeroPage => self.memory_read(self.program_counter) as u16,
            AddressingMode::Absolute => self.memory_read_u16(self.program_counter),
            AddressingMode::ZeroPage_X => {
                let pos = self.memory_read(self.program_counter);
                let addr = pos.wrapping_add(self.register_x) as u16;
                addr
            },
            AddressingMode::ZeroPage_Y => {
                let pos = self.memory_read(self.program_counter);
                let addr = pos.wrapping_add(self.register_y) as u16;
                addr
            },
            AddressingMode::Absolute_X => {
                let base = self.memory_read_u16(self.program_counter);
                let addr = base.wrapping_add(self.register_x as u16);
                addr
            },
            AddressingMode::Absolute_Y => {
                let base = self.memory_read_u16(self.program_counter);
                let addr = base.wrapping_add(self.register_y as u16);
                addr
            },
            AddressingMode::Indirect_X => {
                let base = self.memory_read(self.program_counter);
                let ptr: u8 = base.wrapping_add(self.register_x);
                let lo = self.memory_read(ptr as u16);
                let hi = self.memory_read(ptr.wrapping_add(1) as u16);
                (hi as u16) << 8 | (lo as u16)
            },
            AddressingMode::Indirect_Y => {
                let base = self.memory_read(self.program_counter);
                let lo = self.memory_read(base as u16);
                let hi = self.memory_read(base.wrapping_add(1) as u16);
                let deref_base = (hi as u16) << 8 | (lo as u16);
                let deref = deref_base.wrapping_add(self.register_y as u16);
                deref
            },
            AddressingMode::NoneAddressing => self.program_counter,
        }
    }

    /// Clears the registers, sets the stack pointer to 0xfd and loads the
    /// program counter from the reset vector.
    pub fn reset(&mut self)
        ensures
            final(self)@ == old(self)@.reset(),
    {
        self.register_a = 0;
        self.register_x = 0;
        self.register_y = 0;
        self.stack_pointer = STACK_RESET;
        self.processor_status = 0;
        self.program_counter = self.memory_read_u16(RESET_VECTOR);
    }

    /// Copies `program` into memory from 0x8000 on and points the reset
    /// vector at 0x8000.
    pub fn load(&mut self, program: Vec<u8>)
        requires
            program.len() <= MEMORY_SIZE - PROGRAM_START,
        ensures
            final(self)@ == old(self)@.load(program@),
    {
        let ghost start = self@;
        let mut i: usize = 0;
        while i < program.len()
            invariant
                i <= program.len() <= MEMORY_SIZE - PROGRAM_START,
                self.register_a == start.a,
                self.register_x == start.x,
                self.register_y == start.y,
                self.processor_status == start.p,
                self.stack_pointer == start.sp,
                self.program_counter == start.pc,
                self.memory@.len() == MEMORY_SIZE,
                start.mem.len() == MEMORY_SIZE,
                forall|j: int|
                    0 <= j < MEMORY_SIZE ==> #[trigger] self.memory@[j] == if PROGRAM_START <= j
                        < PROGRAM_START + i {
                        program@[j - PROGRAM_START]
                    } else {
                        start.mem[j]
                    },
            decreases program.len() - i,
        {
            self.memory[PROGRAM_START as usize + i] = program[i];
            i = i + 1;
        }
        assert(self.memory@ =~= Seq::new(
            start.mem.len(),
            |j: int|
                if PROGRAM_START <= j < PROGRAM_START + program@.len() {
                    program@[j - PROGRAM_START]
                } else {
                    start.mem[j]
                },
        ));
        self.memory_write_u16(RESET_VECTOR, PROGRAM_START);
    }
}


impl CPU {
    fn lda(&mut self, mode: &AddressingMode)
        requires
            *mode != AddressingMode::NoneAddressing,
        ensures
            final(self)@ == old(self)@.lda(*mode),
    {
        let addr = self.get_operand_address(mode);
        let value = self.memory_read(addr);
        self.register_a = value;
        self.update_zero_and_negative_flags(value);
    }

    fn ldx(&mut self, mode: &AddressingMode)
        requires
            *mode != AddressingMode::NoneAddressing,
        ensures
            final(self)@ == old(self)@.ldx(*mode),
    {
        let addr = self.get_operand_address(mode);
        let value = self.memory_read(addr);
        self.register_x = value;
        self.update_zero_and_negative_flags(value);
    }

    fn ldy(&mut self, mode: &AddressingMode)
        requires
            *mode != AddressingMode::NoneAddressing,
        ensures
            final(self)@ == old(self)@.ldy(*mode),
    {
        let addr = self.get_operand_address(mode);
        let value = self.memory_read(addr);
        self.register_y = value;
        self.update_zero_and_negative_flags(value);
    }

    fn sta(&mut self, mode: &AddressingMode)
        requires
            *mode != AddressingMode::NoneAddressing,
        ensures
            final(self)@ == old(self)@.sta(*mode),
    {
        let addr = self.get_operand_address(mode);
        self.memory_write(addr, self.register_a);
    }

    fn stx(&mut self, mode: &AddressingMode)
        requires
            *mode != AddressingMode::NoneAddressing,
        ensures
            final(self)@ == old(self)@.stx(*mode),
    {
        let addr = self.get_operand_address(mode);
        self.memory_write(addr, self.register_x);
    }

    fn sty(&mut self, mode: &AddressingMode)
        requires
            *mode != AddressingMode::NoneAddressing,
        ensures
            final(self)@ == old(self)@.sty(*mode),
    {
        let addr = self.get_operand_address(mode);
        self.memory_write(addr, self.register_y);
    }

    fn tax(&mut self)
        ensures
            final(self)@ == old(self)@.tax(),
    {
        self.register_x = self.register_a;
        self.update_zero_and_negative_flags(self.register_x);
    }

    fn tsx(&mut self)
        ensures
            final(self)@ == old(self)@.tsx(),
    {
        self.register_x = self.stack_pointer;
        self.update_zero_and_negative_flags(self.register_x);
    }

    fn txs(&mut self)
        ensures
            final(self)@ == old(self)@.txs(),
    {
        self.stack_pointer = self.register_x;
    }

    fn tay(&mut self)
        ensures
            final(self)@ == old(self)@.tay(),
    {
        self.register_y = self.register_a;
        self.update_zero_and_negative_flags(self.register_y);
    }

    fn tya(&mut self)
        ensures
            final(self)@ == old(self)@.tya(),
    {
        self.register_a = self.register_y;
        self.update_zero_and_negative_flags(self.register_a);
    }

    fn txa(&mut self)
        ensures
            final(self)@ == old(self)@.txa(),
    {
        self.register_a = self.register_x;
        self.update_zero_and_negative_flags(self.register_a);
    }

    fn inx(&mut self)
        ensures
            final(self)@ == old(self)@.inx(),
    {
        self.register_x = self.register_x.wrapping_add(1);
        self.update_zero_and_negative_flags(self.register_x);
    }

    fn iny(&mut self)
        ensures
            final(self)@ == old(self)@.iny(),
    {
        self.register_y = self.register_y.wrapping_add(1);
        self.update_zero_and_negative_flags(self.register_y);
    }

    fn dex(&mut self)
        ensures
            final(self)@ == old(self)@.dex(),
    {
        self.register_x = self.register_x.wrapping_sub(1);
        self.update_zero_and_negative_flags(self.register_x);
    }

    fn dey(&mut self)
        ensures
            final(self)@ == old(self)@.dey(),
    {
        self.register_y = self.register_y.wrapping_sub(1);
        self.update_zero_and_negative_flags(self.register_y);
    }

    fn dec(&mut self, mode: &AddressingMode) -> (r: u8)
        requires
            *mode != AddressingMode::NoneAddressing,
        ensures
            final(self)@ == old(self)@.dec(*mode),
            r == final(self)@.read8(old(self)@.operand_address(*mode)),
    {
        let addr = self.get_operand_address(mode);
        let mut value = self.memory_read(addr);
        value = value.wrapping_sub(1);
        self.memory_write(addr, value);
        self.update_zero_and_negative_flags(value);
        value
    }

    fn inc(&mut self, mode: &AddressingMode) -> (r: u8)
        requires
            *mode != AddressingMode::NoneAddressing,
        ensures
            final(self)@ == old(self)@.inc(*mode),
            r == final(self)@.read8(old(self)@.operand_address(*mode)),
    {
        let addr = self.get_operand_address(mode);
        let mut value = self.memory_read(addr);
        value = value.wrapping_add(1);
        self.memory_write(addr, value);
        self.update_zero_and_negative_flags(value);
        value
    }

    /// CMP, CPX and CPY: `compared_register` is the register's value.
    fn cmp(&mut self, mode: &AddressingMode, compared_register: u8)
        requires
            *mode != AddressingMode::NoneAddressing,
        ensures
            final(self)@ == old(self)@.compare(*mode, compared_register),
    {
        let addr = self.get_operand_address(mode);
        let value = self.memory_read(addr);
        self.processor_status = set_flag(self.processor_status, CARRY, value <= compared_register);
        self.update_zero_and_negative_flags(compared_register.wrapping_sub(value));
    }

    fn adc(&mut self, mode: &AddressingMode)
        requires
            *mode != AddressingMode::NoneAddressing,
        ensures
            final(self)@ == old(self)@.adc(*mode),
    {
        let addr = self.get_operand_address(mode);
        let value = self.memory_read(addr);
        self.operation_with_carry(value);
    }

    fn sbc(&mut self, mode: &AddressingMode)
        requires
            *mode != AddressingMode::NoneAddressing,
        ensures
            final(self)@ == old(self)@.sbc(*mode),
    {
        let addr = self.get_operand_address(mode);
        let value = self.memory_read(addr);
        self.operation_with_carry(0xff - value);
    }

    fn and(&mut self, mode: &AddressingMode)
        requires
            *mode != AddressingMode::NoneAddressing,
        ensures
            final(self)@ == old(self)@.and(*mode),
    {
        let addr = self.get_operand_address(mode);
        let value = self.memory_read(addr);
        self.register_a = self.register_a & value;
        self.update_zero_and_negative_flags(self.register_a);
    }

    fn ora(&mut self, mode: &AddressingMode)
        requires
            *mode != AddressingMode::NoneAddressing,
        ensures
            final(self)@ == old(self)@.ora(*mode),
    {
        let addr = self.get_operand_address(mode);
        let value = self.memory_read(addr);
        self.register_a = value | self.register_a;
        self.update_zero_and_negative_flags(self.register_a);
    }

    fn eor(&mut self, mode: &AddressingMode)
        requires
            *mode != AddressingMode::NoneAddressing,
        ensures
            final(self)@ == old(self)@.eor(*mode),
    {
        let addr = self.get_operand_address(mode);
        let value = self.memory_read(addr);
        self.register_a = value ^ self.register_a;
        self.update_zero_and_negative_flags(self.register_a);
    }

    /// Adds `value` and the carry to the accumulator, setting C, V, Z and N.
    fn operation_with_carry(&mut self, value: u8)
        ensures
            final(self)@ == old(self)@.add_with_carry(value),
    {
        let carry_in = self.processor_status & CARRY;
        let sum: u16 = self.register_a as u16 + value as u16 + carry_in as u16;
        self.processor_status = set_flag(self.processor_status, CARRY, sum > 0xff);
        let result = sum as u8;
        let overflow = (value ^ result) & (result ^ self.register_a) & 0x80 != 0;
        self.processor_status = set_flag(self.processor_status, OVERFLOW, overflow);
        self.register_a = result;
        self.update_zero_and_negative_flags(result);
    }

    /// Z from whether `result` is zero, N from its bit 7.
    fn update_zero_and_negative_flags(&mut self, result: u8)
        ensures
            final(self)@ == old(self)@.set_zn(result),
    {
        self.processor_status = set_flag(self.processor_status, ZERO, result == 0);
        self.processor_status = set_flag(
            self.processor_status,
            NEGATIVE,
            get_flag(result, NEGATIVE),
        );
    }

    fn asl_accumulator(&mut self)
        ensures
            final(self)@ == old(self)@.asl_accumulator(),
    {
        let mut value = self.register_a;
        self.processor_status = set_flag(self.processor_status, CARRY, value >> 7u8 == 1);
        value = value << 1u8;
        self.register_a = value;
        self.update_zero_and_negative_flags(value);
    }

    fn asl(&mut self, mode: &AddressingMode)
        requires
            *mode != AddressingMode::NoneAddressing,
        ensures
            final(self)@ == old(self)@.asl(*mode),
    {
        let addr = self.get_operand_address(mode);
        let mut value = self.memory_read(addr);
        self.processor_status = set_flag(self.processor_status, CARRY, value >> 7u8 == 1);
        value = value << 1u8;
        self.memory_write(addr, value);
        self.update_zero_and_negative_flags(value);
    }

    fn lsr_accumulator(&mut self)
        ensures
            final(self)@ == old(self)@.lsr_accumulator(),
    {
        let mut value = self.register_a;
        self.processor_status = set_flag(self.processor_status, CARRY, value & 1 == 1);
        value = value >> 1u8;
        self.register_a = value;
        self.update_zero_and_negative_flags(self.register_a);
    }

    fn lsr(&mut self, mode: &AddressingMode) -> (r: u8)
        requires
            *mode != AddressingMode::NoneAddressing,
        ensures
            final(self)@ == old(self)@.lsr(*mode),
            r == final(self)@.read8(old(self)@.operand_address(*mode)),
    {
        let addr = self.get_operand_address(mode);
        let mut value = self.memory_read(addr);
        self.processor_status = set_flag(self.processor_status, CARRY, value & 1 == 1);
        value = value >> 1u8;
        self.memory_write(addr, value);
        self.update_zero_and_negative_flags(value);
        value
    }

    fn rol(&mut self, mode: &AddressingMode) -> (r: u8)
        requires
            *mode != AddressingMode::NoneAddressing,
        ensures
            final(self)@ == old(self)@.rol(*mode),
            r == final(self)@.read8(old(self)@.operand_address(*mode)),
    {
        let addr = self.get_operand_address(mode);
        let mut value = self.memory_read(addr);
        let old_carry = get_flag(self.processor_status, CARRY);
        self.processor_status = set_flag(self.processor_status, CARRY, value >> 7u8 == 1);
        value = value << 1u8;
        if old_carry {
            value = value | 1;
        }
        self.memory_write(addr, value);
        self.update_zero_and_negative_flags(value);
        value
    }

    fn rol_accumulator(&mut self)
        ensures
            final(self)@ == old(self)@.rol_accumulator(),
    {
        let mut value = self.register_a;
        let old_carry = get_flag(self.processor_status, CARRY);
        self.processor_status = set_flag(self.processor_status, CARRY, value >> 7u8 == 1);
        value = value << 1u8;
        if old_carry {
            value = value | 1;
        }
        self.register_a = value;
        self.update_zero_and_negative_flags(self.register_a);
    }

    fn ror(&mut self, mode: &AddressingMode) -> (r: u8)
        requires
            *mode != AddressingMode::NoneAddressing,
        ensures
            final(self)@ == old(self)@.ror(*mode),
            r == final(self)@.read8(old(self)@.operand_address(*mode)),
    {
        let addr = self.get_operand_address(mode);
        let mut value = self.memory_read(addr);
        let old_carry = get_flag(self.processor_status, CARRY);
        self.processor_status = set_flag(self.processor_status, CARRY, value & 1 == 1);
        value = value >> 1u8;
        if old_carry {
            value = value | 0b1000_0000;
        }
        self.memory_write(addr, value);
        self.update_zero_and_negative_flags(value);
        value
    }

    fn ror_accumulator(&mut self)
        ensures
            final(self)@ == old(self)@.ror_accumulator(),
    {
        let mut value = self.register_a;
        let old_carry = get_flag(self.processor_status, CARRY);
        self.processor_status = set_flag(self.processor_status, CARRY, value & 1 == 1);
        value = value >> 1u8;
        if old_carry {
            value = value | 0b1000_0000;
        }
        self.register_a = value;
        self.update_zero_and_negative_flags(self.register_a);
    }

    /// BIT: Z from `A AND value`, N and V copied from bits 7 and 6 of the
    /// value.
    fn bit(&mut self, mode: &AddressingMode)
        requires
            *mode != AddressingMode::NoneAddressing,
        ensures
            final(self)@ == old(self)@.bit(*mode),
    {
        let addr = self.get_operand_address(mode);
        let value = self.memory_read(addr);
        let and = self.register_a & value;
        self.processor_status = set_flag(self.processor_status, ZERO, and == 0);
        self.processor_status = set_flag(self.processor_status, NEGATIVE, value & 0b1000_0000 != 0);
        self.processor_status = set_flag(self.processor_status, OVERFLOW, value & 0b0100_0000 != 0);
    }

    /// Relative branch: when `condition` holds, jump by the signed
    /// displacement at `pc`, counted from the byte after it.
    fn branch(&mut self, condition: bool)
        ensures
            final(self)@ == old(self)@.branch(condition),
    {
        if condition {
            let jump = self.memory_read(self.program_counter);
            let offset: u16 = if jump < 0x80 {
                jump as u16
            } else {
                jump as u16 + 0xff00
            };
            let jump_addr = self.program_counter.wrapping_add(1).wrapping_add(offset);
            self.program_counter = jump_addr;
        }
    }

    fn stack_pop(&mut self) -> (r: u8)
        ensures
            (final(self)@, r) == old(self)@.pop(),
    {
        self.stack_pointer = self.stack_pointer.wrapping_add(1);
        self.memory_read(STACK + self.stack_pointer as u16)
    }

    fn stack_push(&mut self, data: u8)
        ensures
            final(self)@ == old(self)@.push(data),
    {
        self.memory_write(STACK + self.stack_pointer as u16, data);
        self.stack_pointer = self.stack_pointer.wrapping_sub(1);
    }

    fn stack_push_u16(&mut self, data: u16)
        ensures
            final(self)@ == old(self)@.push_u16(data),
    {
        let hi = (data >> 8) as u8;
        let lo = (data & 0xff) as u8;
        self.stack_push(hi);
        self.stack_push(lo);
    }

    fn stack_pop_u16(&mut self) -> (r: u16)
        ensures
            (final(self)@, r) == old(self)@.pop_u16(),
    {
        let lo = self.stack_pop() as u16;
        let hi = self.stack_pop() as u16;
        hi << 8 | lo
    }

    fn pla(&mut self)
        ensures
            final(self)@ == old(self)@.pla(),
    {
        let data = self.stack_pop();
        self.register_a = data;
        self.update_zero_and_negative_flags(self.register_a);
    }

    /// Pushes the status with B and U set in the pushed copy.
    fn php(&mut self)
        ensures
            final(self)@ == old(self)@.php(),
    {
        let flags = self.processor_status | (BREAK | UNUSED);
        self.stack_push(flags);
    }

    /// Pulls the status, then clears B and sets U.
    fn plp(&mut self)
        ensures
            final(self)@ == old(self)@.plp(),
    {
        self.processor_status = self.stack_pop();
        self.processor_status = set_flag(self.processor_status, BREAK, false);
        self.processor_status = set_flag(self.processor_status, UNUSED, true);
    }

    /// Executes one instruction: fetches the opcode at `pc`, moves past it,
    /// runs its handler and, unless the handler moved `pc` itself, skips the
    /// operand bytes. `BRK` answers `Step::Break`; a byte that is not a
    /// supported opcode answers `ExecError::UnknownOpcode` with that byte.
    pub fn step(&mut self) -> (r: Result<Step, ExecError>)
        ensures
            r == old(self)@.step_result(),
            final(self)@ == old(self)@.step(),
    {
        let instruction = self.memory_read(self.program_counter);
        self.program_counter = self.program_counter.wrapping_add(1);
        let program_counter_state = self.program_counter;
        let opcode = match lookup(instruction) {
            Some(opcode) => opcode,
            None => return Err(ExecError::UnknownOpcode(instruction)),
        };
        match instruction {
            0xa9 | 0xa5 | 0xb5 | 0xad | 0xbd | 0xb9 | 0xa1 | 0xb1 => self.lda(&opcode.mode),
            0xa2 | 0xa6 | 0xb6 | 0xae | 0xbe => self.ldx(&opcode.mode),
            0xa0 | 0xa4 | 0xb4 | 0xac | 0xbc => self.ldy(&opcode.mode),
            0x85 | 0x95 | 0x8d | 0x9d | 0x99 | 0x81 | 0x91 => self.sta(&opcode.mode),
            0x86 | 0x96 | 0x8e => self.stx(&opcode.mode),
            0x84 | 0x94 | 0x8c => self.sty(&opcode.mode),
            0xc9 | 0xc5 | 0xd5 | 0xcd | 0xdd | 0xd9 | 0xc1 | 0xd1 => {
                let register = self.register_a;
                self.cmp(&opcode.mode, register);
            },
            0xe0 | 0xe4 | 0xec => {
                let register = self.register_x;
                self.cmp(&opcode.mode, register);
            },
            0xc0 | 0xc4 | 0xcc => {
                let register = self.register_y;
                self.cmp(&opcode.mode, register);
            },
            0x69 | 0x65 | 0x75 | 0x6d | 0x7d | 0x79 | 0x61 | 0x71 => self.adc(&opcode.mode),
            0xe9 | 0xe5 | 0xf5 | 0xed | 0xfd | 0xf9 | 0xe1 | 0xf1 => self.sbc(&opcode.mode),
            0x29 | 0x25 | 0x35 | 0x2d | 0x3d | 0x39 | 0x21 | 0x31 => self.and(&opcode.mode),
            0x49 | 0x45 | 0x55 | 0x4d | 0x5d | 0x59 | 0x41 | 0x51 => self.eor(&opcode.mode),
            0x09 | 0x05 | 0x15 | 0x0d | 0x1d | 0x19 | 0x01 | 0x11 => self.ora(&opcode.mode),
            0x0a => self.asl_accumulator(),
            0x06 | 0x16 | 0x0e | 0x1e => self.asl(&opcode.mode),
            0x4a => self.lsr_accumulator(),
            0x46 | 0x56 | 0x4e | 0x5e => {
                self.lsr(&opcode.mode);
            },
            0x2a => self.rol_accumulator(),
            0x26 | 0x36 | 0x2e | 0x3e => {
                self.rol(&opcode.mode);
            },
            0x6a => self.ror_accumulator(),
            0x66 | 0x76 | 0x6e | 0x7e => {
                self.ror(&opcode.mode);
            },
            0x24 | 0x2c => self.bit(&opcode.mode),
            0xc6 | 0xd6 | 0xce | 0xde => {
                self.dec(&opcode.mode);
            },
            0xe6 | 0xf6 | 0xee | 0xfe => {
                self.inc(&opcode.mode);
            },
            0x10 => self.branch(!get_flag(self.processor_status, NEGATIVE)),
            0x30 => self.branch(get_flag(self.processor_status, NEGATIVE)),
            0x50 => self.branch(!get_flag(self.processor_status, OVERFLOW)),
            0x70 => self.branch(get_flag(self.processor_status, OVERFLOW)),
            0x90 => self.branch(!get_flag(self.processor_status, CARRY)),
            0xb0 => self.branch(get_flag(self.processor_status, CARRY)),
            0xd0 => self.branch(!get_flag(self.processor_status, ZERO)),
            0xf0 => self.branch(get_flag(self.processor_status, ZERO)),
            0xd8 => self.processor_status = set_flag(self.processor_status, DECIMAL, false),
            0x58 => self.processor_status = set_flag(self.processor_status, INTERRUPT_DISABLE, false),
            0xb8 => self.processor_status = set_flag(self.processor_status, OVERFLOW, false),
            0x18 => self.processor_status = set_flag(self.processor_status, CARRY, false),
            0x38 => self.processor_status = set_flag(self.processor_status, CARRY, true),
            0x78 => self.processor_status = set_flag(self.processor_status, INTERRUPT_DISABLE, true),
            0xf8 => self.processor_status = set_flag(self.processor_status, DECIMAL, true),
            0x4c => {
                let mem_address = self.memory_read_u16(self.program_counter);
                self.program_counter = mem_address;
            },
            0x6c => {
                // The 6502 does not carry into the high byte of the pointer
                // when it fetches the second byte of the target.
                let mem_address = self.memory_read_u16(self.program_counter);
                let indirect_ref = if mem_address & 0x00ff == 0x00ff {
                    let lo = self.memory_read(mem_address);
                    let hi = self.memory_read(mem_address & 0xff00);
                    (hi as u16) << 8 | (lo as u16)
                } else {
                    self.memory_read_u16(mem_address)
                };
                self.program_counter = indirect_ref;
            },
            0x20 => {
                self.stack_push_u16(self.program_counter.wrapping_add(1));
                let target_address = self.memory_read_u16(self.program_counter);
                self.program_counter = target_address;
            },
            0x60 => {
                let ret = self.stack_pop_u16();
                self.program_counter = ret.wrapping_add(1);
            },
            0x40 => {
                self.processor_status = self.stack_pop();
                self.processor_status = set_flag(self.processor_status, BREAK, false);
                self.processor_status = set_flag(self.processor_status, UNUSED, true);
                self.program_counter = self.stack_pop_u16();
            },
            0xaa => self.tax(),
            0x8a => self.txa(),
            0xa8 => self.tay(),
            0x98 => self.tya(),
            0xba => self.tsx(),
            0x9a => self.txs(),
            0xe8 => self.inx(),
            0xc8 => self.iny(),
            0xca => self.dex(),
            0x88 => self.dey(),
            0x48 => self.stack_push(self.register_a),
            0x68 => self.pla(),
            0x08 => self.php(),
            0x28 => self.plp(),
            0x00 => return Ok(Step::Break),
            // NOP; every other byte was turned away by the table above.
            _ => {},
        }
        if program_counter_state == self.program_counter {
            self.program_counter = self.program_counter.wrapping_add((opcode.len - 1) as u16);
        }
        Ok(Step::Continue)
    }

    /// Runs at most `max_steps` instructions: `Ok` when a `BRK` was executed,
    /// `ExecError::UnknownOpcode` at a byte that is not a supported opcode,
    /// `ExecError::StepLimit` when all the instructions were used.
    pub fn execute_steps(&mut self, max_steps: u64) -> (r: Result<(), ExecError>)
        ensures
            (final(self)@, r) == old(self)@.run(max_steps as nat),
    {
        let ghost start = self@;
        let mut remaining = max_steps;
        while remaining > 0
            invariant
                start == old(self)@,
                start.run(max_steps as nat) == self@.run(remaining as nat),
            decreases remaining,
        {
            match self.step() {
                Ok(Step::Continue) => {},
                Ok(Step::Break) => return Ok(()),
                Err(e) => return Err(e),
            }
            remaining = remaining - 1;
        }
        Err(ExecError::StepLimit)
    }

    /// Interprets from `pc` until a `BRK` is executed (`Ok`) or an unknown
    /// opcode is fetched; it gives up with `ExecError::StepLimit` only after
    /// `u64::MAX` instructions.
    pub fn execute(&mut self) -> (r: Result<(), ExecError>)
        ensures
            (final(self)@, r) == old(self)@.run(u64::MAX as nat),
    {
        self.execute_steps(u64::MAX)
    }

    /// `load`, then `reset`, then `execute`.
    pub fn load_and_run(&mut self, program: Vec<u8>) -> (r: Result<(), ExecError>)
        requires
            program.len() <= MEMORY_SIZE - PROGRAM_START,
        ensures
            (final(self)@, r) == old(self)@.load(program@).reset().run(u64::MAX as nat),
    {
        self.load(program);
        self.reset();
        self.execute()
    }
}

} // verus!
