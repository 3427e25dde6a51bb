//! A functional model of the processor: its state as plain values, and what
//! each instruction does to it. The executable processor in `cpu` is proved
//! to follow this model step by step.
use vstd::prelude::*;
use crate::cpu::{AddressingMode, ExecError, Step};
use crate::opcodes::opcode_table;
use crate::status::{
    update_zn, with_flag, flag, CARRY, ZERO, INTERRUPT_DISABLE, DECIMAL, BREAK, UNUSED, OVERFLOW,
    NEGATIVE,
};

verus! {

/// Number of bytes of memory: the whole 16-bit address space.
pub const MEMORY_SIZE: usize = 0x10000;

/// First address of the stack page; the stack pointer is the low byte.
pub const STACK: u16 = 0x0100;

/// Stack pointer after a reset.
pub const STACK_RESET: u8 = 0xfd;

/// Where a program image is loaded.
pub const PROGRAM_START: u16 = 0x8000;

/// Address of the little-endian reset vector.
pub const RESET_VECTOR: u16 = 0xfffc;

/// The 16-bit value with low byte `lo` and high byte `hi`.
pub open spec fn word(lo: u8, hi: u8) -> u16 {
    ((hi as u16) << 8) | (lo as u16)
}

/// The address in the stack page that the stack pointer `sp` designates.
pub open spec fn stack_address(sp: u8) -> u16 {
    (STACK + sp) as u16
}

/// A signed 8-bit displacement widened to 16 bits, two's complement.
pub open spec fn sign_extend(disp: u8) -> u16 {
    if disp < 0x80 {
        disp as u16
    } else {
        (disp + 0xff00) as u16
    }
}

/// Where a taken branch goes: `pc` points at the displacement byte `disp`, and
/// the target is counted from the byte after it, modulo 65536.
pub open spec fn branch_target(pc: u16, disp: u8) -> u16 {
    pc.wrapping_add(1).wrapping_add(sign_extend(disp))
}

/// The state of the processor: the registers and the memory image.
pub ghost struct CpuState {
    pub a: u8,
    pub x: u8,
    pub y: u8,
    pub p: u8,
    pub sp: u8,
    pub pc: u16,
    pub mem: Seq<u8>,
}

/// A fresh processor: registers zero, stack pointer at its reset value,
/// memory zero.
pub open spec fn initial_state() -> CpuState {
    CpuState {
        a: 0,
        x: 0,
        y: 0,
        p: 0,
        sp: STACK_RESET,
        pc: 0,
        mem: Seq::new(MEMORY_SIZE as nat, |i: int| 0u8),
    }
}

impl CpuState {
    /// The memory covers the whole address space.
    pub open spec fn wf(self) -> bool {
        self.mem.len() == MEMORY_SIZE
    }

    pub open spec fn read8(self, addr: u16) -> u8 {
        self.mem[addr as int]
    }

    /// Little-endian 16-bit read; the second byte's address wraps.
    pub open spec fn read16(self, addr: u16) -> u16 {
        word(self.read8(addr), self.read8(addr.wrapping_add(1)))
    }

    pub open spec fn write8(self, addr: u16, v: u8) -> CpuState {
        CpuState { mem: self.mem.update(addr as int, v), ..self }
    }

    /// Little-endian 16-bit write: low byte first, then high byte.
    pub open spec fn write16(self, addr: u16, v: u16) -> CpuState {
        self.write8(addr, (v & 0xff) as u8).write8(addr.wrapping_add(1), (v >> 8) as u8)
    }

    /// The effective address of the operand for `mode`, with `pc` pointing at
    /// the operand bytes. Zero-page pointers wrap within page 0.
    pub open spec fn operand_address(self, mode: AddressingMode) -> u16 {
        match mode {
            AddressingMode::Immediate => self.pc,
            AddressingMode::ZeroPage => self.read8(self.pc) as u16,
            AddressingMode::ZeroPage_X => self.read8(self.pc).wrapping_add(self.x) as u16,
            AddressingMode::ZeroPage_Y => self.read8(self.pc).wrapping_add(self.y) as u16,
            AddressingMode::Absolute => self.read16(self.pc),
            AddressingMode::Absolute_X => self.read16(self.pc).wrapping_add(self.x as u16),
            AddressingMode::Absolute_Y => self.read16(self.pc).wrapping_add(self.y as u16),
            AddressingMode::Indirect_X => {
                let ptr = self.read8(self.pc).wrapping_add(self.x);
                word(self.read8(ptr as u16), self.read8(ptr.wrapping_add(1) as u16))
            },
            AddressingMode::Indirect_Y => {
                let base = self.read8(self.pc);
                word(self.read8(base as u16), self.read8(base.wrapping_add(1) as u16)).wrapping_add(
                    self.y as u16,
                )
            },
            AddressingMode::NoneAddressing => self.pc,
        }
    }

    /// The operand byte for `mode`.
    pub open spec fn operand(self, mode: AddressingMode) -> u8 {
        self.read8(self.operand_address(mode))
    }

    /// The Z/N update on the value `v`.
    pub open spec fn set_zn(self, v: u8) -> CpuState {
        CpuState { p: update_zn(self.p, v), ..self }
    }

    /// One bit of the status register set to `on`.
    pub open spec fn set_flag(self, mask: u8, on: bool) -> CpuState {
        CpuState { p: with_flag(self.p, mask, on), ..self }
    }

    pub open spec fn push(self, v: u8) -> CpuState {
        CpuState { sp: self.sp.wrapping_sub(1), ..self.write8(stack_address(self.sp), v) }
    }

    /// The state after a pull, and the byte pulled.
    pub open spec fn pop(self) -> (CpuState, u8) {
        let sp = self.sp.wrapping_add(1);
        (CpuState { sp: sp, ..self }, self.read8(stack_address(sp)))
    }

    /// Pushes the high byte, then the low byte.
    pub open spec fn push_u16(self, v: u16) -> CpuState {
        self.push((v >> 8) as u8).push((v & 0xff) as u8)
    }

    /// Pulls the low byte, then the high byte.
    pub open spec fn pop_u16(self) -> (CpuState, u16) {
        let (s, lo) = self.pop();
        let (t, hi) = s.pop();
        (t, word(lo, hi))
    }
}

/// What each instruction does, with `pc` pointing one past its opcode byte.
impl CpuState {
    pub open spec fn lda(self, mode: AddressingMode) -> CpuState {
        let v = self.operand(mode);
        CpuState { a: v, ..self }.set_zn(v)
    }

    pub open spec fn ldx(self, mode: AddressingMode) -> CpuState {
        let v = self.operand(mode);
        CpuState { x: v, ..self }.set_zn(v)
    }

    pub open spec fn ldy(self, mode: AddressingMode) -> CpuState {
        let v = self.operand(mode);
        CpuState { y: v, ..self }.set_zn(v)
    }

    pub open spec fn sta(self, mode: AddressingMode) -> CpuState {
        self.write8(self.operand_address(mode), self.a)
    }

    pub open spec fn stx(self, mode: AddressingMode) -> CpuState {
        self.write8(self.operand_address(mode), self.x)
    }

    pub open spec fn sty(self, mode: AddressingMode) -> CpuState {
        self.write8(self.operand_address(mode), self.y)
    }

    pub open spec fn tax(self) -> CpuState {
        CpuState { x: self.a, ..self }.set_zn(self.a)
    }

    pub open spec fn tay(self) -> CpuState {
        CpuState { y: self.a, ..self }.set_zn(self.a)
    }

    pub open spec fn txa(self) -> CpuState {
        CpuState { a: self.x, ..self }.set_zn(self.x)
    }

    pub open spec fn tya(self) -> CpuState {
        CpuState { a: self.y, ..self }.set_zn(self.y)
    }

    pub open spec fn tsx(self) -> CpuState {
        CpuState { x: self.sp, ..self }.set_zn(self.sp)
    }

    /// The one transfer that leaves the flags alone.
    pub open spec fn txs(self) -> CpuState {
        CpuState { sp: self.x, ..self }
    }

    pub open spec fn inx(self) -> CpuState {
        let v = self.x.wrapping_add(1);
        CpuState { x: v, ..self }.set_zn(v)
    }

    pub open spec fn iny(self) -> CpuState {
        let v = self.y.wrapping_add(1);
        CpuState { y: v, ..self }.set_zn(v)
    }

    pub open spec fn dex(self) -> CpuState {
        let v = self.x.wrapping_sub(1);
        CpuState { x: v, ..self }.set_zn(v)
    }

    pub open spec fn dey(self) -> CpuState {
        let v = self.y.wrapping_sub(1);
        CpuState { y: v, ..self }.set_zn(v)
    }

    pub open spec fn inc(self, mode: AddressingMode) -> CpuState {
        let addr = self.operand_address(mode);
        let v = self.read8(addr).wrapping_add(1);
        self.write8(addr, v).set_zn(v)
    }

    pub open spec fn dec(self, mode: AddressingMode) -> CpuState {
        let addr = self.operand_address(mode);
        let v = self.read8(addr).wrapping_sub(1);
        self.write8(addr, v).set_zn(v)
    }

    /// CMP, CPX and CPY against the register value `reg`: carry when the
    /// operand is at most `reg` (unsigned), Z/N on `reg - operand` mod 256.
    pub open spec fn compare(self, mode: AddressingMode, reg: u8) -> CpuState {
        let v = self.operand(mode);
        self.set_flag(CARRY, v <= reg).set_zn(reg.wrapping_sub(v))
    }

    /// `A + v + C`: carry out when the sum exceeds 0xff, A takes the sum mod
    /// 256, V when the result's sign differs from the signs of both `A` and `v`.
    pub open spec fn add_with_carry(self, v: u8) -> CpuState {
        let sum = (self.a + v + (self.p & CARRY)) as u16;
        let result = sum as u8;
        let overflow = (v ^ result) & (result ^ self.a) & 0x80 != 0;
        CpuState { a: result, ..self.set_flag(CARRY, sum > 0xff).set_flag(OVERFLOW, overflow) }.set_zn(
            result,
        )
    }

    pub open spec fn adc(self, mode: AddressingMode) -> CpuState {
        self.add_with_carry(self.operand(mode))
    }

    /// Subtraction adds the one's complement of the operand.
    pub open spec fn sbc(self, mode: AddressingMode) -> CpuState {
        self.add_with_carry((0xff - self.operand(mode)) as u8)
    }

    pub open spec fn and(self, mode: AddressingMode) -> CpuState {
        let v = self.a & self.operand(mode);
        CpuState { a: v, ..self }.set_zn(v)
    }

    pub open spec fn ora(self, mode: AddressingMode) -> CpuState {
        let v = self.operand(mode) | self.a;
        CpuState { a: v, ..self }.set_zn(v)
    }

    pub open spec fn eor(self, mode: AddressingMode) -> CpuState {
        let v = self.operand(mode) ^ self.a;
        CpuState { a: v, ..self }.set_zn(v)
    }

    pub open spec fn asl_accumulator(self) -> CpuState {
        let v = self.a << 1u8;
        CpuState { a: v, ..self.set_flag(CARRY, self.a >> 7u8 == 1) }.set_zn(v)
    }

    pub open spec fn asl(self, mode: AddressingMode) -> CpuState {
        let addr = self.operand_address(mode);
        let old = self.read8(addr);
        let v = old << 1u8;
        self.set_flag(CARRY, old >> 7u8 == 1).write8(addr, v).set_zn(v)
    }

    pub open spec fn lsr_accumulator(self) -> CpuState {
        let v = self.a >> 1u8;
        CpuState { a: v, ..self.set_flag(CARRY, self.a & 1 == 1) }.set_zn(v)
    }

    pub open spec fn lsr(self, mode: AddressingMode) -> CpuState {
        let addr = self.operand_address(mode);
        let old = self.read8(addr);
        let v = old >> 1u8;
        self.set_flag(CARRY, old & 1 == 1).write8(addr, v).set_zn(v)
    }

    /// Shifts left; the old carry enters bit 0, bit 7 leaves into the carry.
    pub open spec fn rotated_left(v: u8, carry: bool) -> u8 {
        if carry {
            (v << 1u8) | 1
        } else {
            v << 1u8
        }
    }

    /// Shifts right; the old carry enters bit 7, bit 0 leaves into the carry.
    pub open spec fn rotated_right(v: u8, carry: bool) -> u8 {
        if carry {
            (v >> 1u8) | 0x80
        } else {
            v >> 1u8
        }
    }

    pub open spec fn rol_accumulator(self) -> CpuState {
        let v = Self::rotated_left(self.a, flag(self.p, CARRY));
        CpuState { a: v, ..self.set_flag(CARRY, self.a >> 7u8 == 1) }.set_zn(v)
    }

    pub open spec fn rol(self, mode: AddressingMode) -> CpuState {
        let addr = self.operand_address(mode);
        let old = self.read8(addr);
        let v = Self::rotated_left(old, flag(self.p, CARRY));
        self.set_flag(CARRY, old >> 7u8 == 1).write8(addr, v).set_zn(v)
    }

    pub open spec fn ror_accumulator(self) -> CpuState {
        let v = Self::rotated_right(self.a, flag(self.p, CARRY));
        CpuState { a: v, ..self.set_flag(CARRY, self.a & 1 == 1) }.set_zn(v)
    }

    pub open spec fn ror(self, mode: AddressingMode) -> CpuState {
        let addr = self.operand_address(mode);
        let old = self.read8(addr);
        let v = Self::rotated_right(old, flag(self.p, CARRY));
        self.set_flag(CARRY, old & 1 == 1).write8(addr, v).set_zn(v)
    }

    /// Z from `A AND v`, N from bit 7 of `v`, V from bit 6 of `v`; `A` is kept.
    pub open spec fn bit(self, mode: AddressingMode) -> CpuState {
        let v = self.operand(mode);
        self.set_flag(ZERO, self.a & v == 0).set_flag(NEGATIVE, v & 0x80 != 0).set_flag(
            OVERFLOW,
            v & 0x40 != 0,
        )
    }

    /// A relative branch whose guarding condition is `taken`.
    pub open spec fn branch(self, taken: bool) -> CpuState {
        if taken {
            CpuState { pc: branch_target(self.pc, self.read8(self.pc)), ..self }
        } else {
            self
        }
    }

    pub open spec fn jmp_absolute(self) -> CpuState {
        CpuState { pc: self.read16(self.pc), ..self }
    }

    /// The indirect jump fetches the high byte of its target from the start
    /// of the pointer's page when the pointer's low byte is 0xff.
    pub open spec fn jmp_indirect(self) -> CpuState {
        let ptr = self.read16(self.pc);
        let target = if ptr & 0x00ff == 0x00ff {
            word(self.read8(ptr), self.read8(ptr & 0xff00))
        } else {
            self.read16(ptr)
        };
        CpuState { pc: target, ..self }
    }

    /// Pushes the address of the last byte of the JSR, then jumps.
    pub open spec fn jsr(self) -> CpuState {
        let s = self.push_u16(self.pc.wrapping_add(1));
        CpuState { pc: s.read16(s.pc), ..s }
    }

    pub open spec fn rts(self) -> CpuState {
        let (s, ret) = self.pop_u16();
        CpuState { pc: ret.wrapping_add(1), ..s }
    }

    /// Pulls the status (B cleared, U set), then the program counter.
    pub open spec fn rti(self) -> CpuState {
        let (s, flags) = self.pop();
        let (t, pc) = CpuState { p: with_flag(with_flag(flags, BREAK, false), UNUSED, true), ..s }.pop_u16();
        CpuState { pc: pc, ..t }
    }

    pub open spec fn pha(self) -> CpuState {
        self.push(self.a)
    }

    pub open spec fn pla(self) -> CpuState {
        let (s, v) = self.pop();
        CpuState { a: v, ..s }.set_zn(v)
    }

    /// The pushed copy of the status has B and U set.
    pub open spec fn php(self) -> CpuState {
        self.push(self.p | (BREAK | UNUSED))
    }

    pub open spec fn plp(self) -> CpuState {
        let (s, v) = self.pop();
        CpuState { p: with_flag(with_flag(v, BREAK, false), UNUSED, true), ..s }
    }
}

/// The eight relative branches.
pub open spec fn is_branch(op: u8) -> bool {
    op == 0x10 || op == 0x30 || op == 0x50 || op == 0x70 || op == 0x90 || op == 0xb0 || op == 0xd0
        || op == 0xf0
}

/// Whether the branch `op` is taken under the status `p`: BPL/BMI on N,
/// BVC/BVS on V, BCC/BCS on C, BNE/BEQ on Z.
pub open spec fn branch_taken(op: u8, p: u8) -> bool {
    match op {
        0x10 => !flag(p, NEGATIVE),
        0x30 => flag(p, NEGATIVE),
        0x50 => !flag(p, OVERFLOW),
        0x70 => flag(p, OVERFLOW),
        0x90 => !flag(p, CARRY),
        0xb0 => flag(p, CARRY),
        0xd0 => !flag(p, ZERO),
        _ => flag(p, ZERO),
    }
}

impl CpuState {
    /// The instruction `op`, in addressing mode `mode`, with `pc` one past the
    /// opcode byte. `BRK`, `NOP` and bytes outside the table leave the state
    /// alone.
    pub open spec fn execute_opcode(self, op: u8, mode: AddressingMode) -> CpuState {
        match op {
            0xa9 | 0xa5 | 0xb5 | 0xad | 0xbd | 0xb9 | 0xa1 | 0xb1 => self.lda(mode),
            0xa2 | 0xa6 | 0xb6 | 0xae | 0xbe => self.ldx(mode),
            0xa0 | 0xa4 | 0xb4 | 0xac | 0xbc => self.ldy(mode),
            0x85 | 0x95 | 0x8d | 0x9d | 0x99 | 0x81 | 0x91 => self.sta(mode),
            0x86 | 0x96 | 0x8e => self.stx(mode),
            0x84 | 0x94 | 0x8c => self.sty(mode),
            0xc9 | 0xc5 | 0xd5 | 0xcd | 0xdd | 0xd9 | 0xc1 | 0xd1 => self.compare(mode, self.a),
            0xe0 | 0xe4 | 0xec => self.compare(mode, self.x),
            0xc0 | 0xc4 | 0xcc => self.compare(mode, self.y),
            0x69 | 0x65 | 0x75 | 0x6d | 0x7d | 0x79 | 0x61 | 0x71 => self.adc(mode),
            0xe9 | 0xe5 | 0xf5 | 0xed | 0xfd | 0xf9 | 0xe1 | 0xf1 => self.sbc(mode),
            0x29 | 0x25 | 0x35 | 0x2d | 0x3d | 0x39 | 0x21 | 0x31 => self.and(mode),
            0x49 | 0x45 | 0x55 | 0x4d | 0x5d | 0x59 | 0x41 | 0x51 => self.eor(mode),
            0x09 | 0x05 | 0x15 | 0x0d | 0x1d | 0x19 | 0x01 | 0x11 => self.ora(mode),
            0x0a => self.asl_accumulator(),
            0x06 | 0x16 | 0x0e | 0x1e => self.asl(mode),
            0x4a => self.lsr_accumulator(),
            0x46 | 0x56 | 0x4e | 0x5e => self.lsr(mode),
            0x2a => self.rol_accumulator(),
            0x26 | 0x36 | 0x2e | 0x3e => self.rol(mode),
            0x6a => self.ror_accumulator(),
            0x66 | 0x76 | 0x6e | 0x7e => self.ror(mode),
            0x24 | 0x2c => self.bit(mode),
            0xc6 | 0xd6 | 0xce | 0xde => self.dec(mode),
            0xe6 | 0xf6 | 0xee | 0xfe => self.inc(mode),
            0x10 | 0x30 | 0x50 | 0x70 | 0x90 | 0xb0 | 0xd0 | 0xf0 => self.branch(
                branch_taken(op, self.p),
            ),
            0xd8 => self.set_flag(DECIMAL, false),
            0x58 => self.set_flag(INTERRUPT_DISABLE, false),
            0xb8 => self.set_flag(OVERFLOW, false),
            0x18 => self.set_flag(CARRY, false),
            0x38 => self.set_flag(CARRY, true),
            0x78 => self.set_flag(INTERRUPT_DISABLE, true),
            0xf8 => self.set_flag(DECIMAL, true),
            0x4c => self.jmp_absolute(),
            0x6c => self.jmp_indirect(),
            0x20 => self.jsr(),
            0x60 => self.rts(),
            0x40 => self.rti(),
            0xaa => self.tax(),
            0x8a => self.txa(),
            0xa8 => self.tay(),
            0x98 => self.tya(),
            0xba => self.tsx(),
            0x9a => self.txs(),
            0xe8 => self.inx(),
            0xc8 => self.iny(),
            0xca => self.dex(),
            0x88 => self.dey(),
            0x48 => self.pha(),
            0x68 => self.pla(),
            0x08 => self.php(),
            0x28 => self.plp(),
            _ => self,
        }
    }

    /// What the instruction at `pc` means for the run: an unknown opcode is
    /// an error, `BRK` stops, anything else goes on.
    pub open spec fn step_result(self) -> Result<Step, ExecError> {
        let op = self.read8(self.pc);
        if opcode_table(op) is None {
            Err(ExecError::UnknownOpcode(op))
        } else if op == 0x00 {
            Ok(Step::Break)
        } else {
            Ok(Step::Continue)
        }
    }

    /// One turn of the interpreter: fetch the opcode at `pc` and move past
    /// it, execute it, and, when the instruction left `pc` where the fetch
    /// put it, skip its operand bytes.
    pub open spec fn step(self) -> CpuState {
        let op = self.read8(self.pc);
        let s = CpuState { pc: self.pc.wrapping_add(1), ..self };
        match opcode_table(op) {
            Some(code) if op != 0x00 => {
                let t = s.execute_opcode(op, code.mode);
                if t.pc == s.pc {
                    CpuState { pc: t.pc.wrapping_add((code.len - 1) as u16), ..t }
                } else {
                    t
                }
            },
            _ => s,
        }
    }

    /// At most `fuel` turns of the interpreter, stopping at the first `BRK`
    /// or unknown opcode: the state at the end and how the run ended.
    pub open spec fn run(self, fuel: nat) -> (CpuState, Result<(), ExecError>)
        decreases fuel,
    {
        if fuel == 0 {
            (self, Err(ExecError::StepLimit))
        } else {
            match self.step_result() {
                Ok(Step::Continue) => self.step().run((fuel - 1) as nat),
                Ok(Step::Break) => (self.step(), Ok(())),
                Err(e) => (self.step(), Err(e)),
            }
        }
    }

    /// `reset`: registers cleared, stack pointer at 0xfd, `pc` from the reset
    /// vector.
    pub open spec fn reset(self) -> CpuState {
        CpuState {
            a: 0,
            x: 0,
            y: 0,
            sp: STACK_RESET,
            p: 0,
            pc: self.read16(RESET_VECTOR),
            mem: self.mem,
        }
    }

    /// `load`: the program image copied to memory from 0x8000 on, then the
    /// reset vector pointed at 0x8000.
    pub open spec fn load(self, program: Seq<u8>) -> CpuState {
        CpuState {
            mem: Seq::new(
                self.mem.len(),
                |i: int|
                    if PROGRAM_START <= i < PROGRAM_START + program.len() {
                        program[i - PROGRAM_START]
                    } else {
                        self.mem[i]
                    },
            ),
            ..self
        }.write16(RESET_VECTOR, PROGRAM_START)
    }
}

} // verus!
