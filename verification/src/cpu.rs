//! The instruction interpreter: fetch, decode, operand resolution, the
//! operation handlers, `HALT`/`STOP`/`IME` bookkeeping and the interrupt
//! service.
//!
//! The interpreter reaches the rest of the machine through a [`CpuContext`]
//! only, and every memory access it makes costs the context one memory cycle.
//! What a step does is stated as a function, [`CPU::spec_step`], from the
//! state of the processor and of the context before the step to both after
//! it.

pub mod alu;
pub mod format;
pub mod instructions;
pub mod register_file;
pub mod timing;

use vstd::prelude::*;
use crate::bits::lemma_word_bits;
use crate::bits::lemma_byte_bits;
use crate::interrupts::{get_hadler_address, spec_handler_address, InterruptFlag};
use self::alu::{
    add16, add8, add_signed, add_sp, and8, complement, dec8, decimal_adjust, inc8, or8, reset_bit, rotate_left,
    rotate_right, set_bit, shift_left_arithmetic, shift_right_arithmetic, shift_right_logical, spec_add16,
    spec_add8, spec_add_signed, spec_add_sp, spec_and8, spec_bit, spec_ccf, spec_cpl, spec_daa, spec_dec8,
    spec_inc8, spec_or8, spec_res, spec_rotate_left, spec_rotate_right, spec_scf, spec_set, spec_sla, spec_sra,
    spec_srl, spec_sub8, spec_swap, spec_xor8, sub8, swap_nibbles, test_bit, without_zero, xor8,
};
use self::instructions::{
    bit_index, is_legal_opcode, spec_from_opcode, spec_from_opcode_prefixed, AddressMode, Condition, Instruction,
    InstructionType,
};
use self::register_file::{high_byte, low_byte, word, Flags, Register, RegisterFile};
use self::timing::{
    canonical_cycles, canonical_length, canonical_prefixed_cycles, condition_holds, lemma_cycles_are_canonical,
    lemma_length_is_canonical, lemma_prefixed_cycles_are_canonical, lemma_prefixed_length_is_canonical,
    timing_differs, execute_cycles, instruction_cycles, is_pointer, is_r16, is_r8, lemma_decoded_prefixed_shape,
    lemma_cycles_bound, lemma_decoded_shape, lemma_prefixed_cycles_bound, operand_bytes, operand_cycles, shape_ok, writes_memory,
};

verus! {

/// What the interpreter needs of the machine around it. The implementor owns
/// the bus and the devices; the interpreter borrows it for one step at a
/// time.
///
/// The state of a context is its view. The functions `spec_tick`,
/// `spec_store` and `spec_ack` say how the view changes when a memory cycle
/// passes, when a byte is stored, and when a request is acknowledged;
/// `spec_peek` and `spec_pending` say what can be read from it.
pub trait CpuContext: View {
    /// The invariant of the context, which every operation keeps.
    spec fn wf(&self) -> bool;

    /// The clock cycles (four to a memory cycle) that have passed.
    spec fn spec_ticks(v: Self::V) -> nat;

    /// The byte that a read of `address` gives.
    spec fn spec_peek(v: Self::V, address: u16) -> u8;

    /// The state after one memory cycle has passed.
    spec fn spec_tick(v: Self::V) -> Self::V;

    /// The state after `value` has been stored at `address`, before the
    /// memory cycle of the store has passed.
    spec fn spec_store(v: Self::V, address: u16, value: u8) -> Self::V;

    /// The requests that are raised and enabled.
    spec fn spec_pending(v: Self::V) -> InterruptFlag;

    /// The state after the request of highest priority in `f` has been
    /// acknowledged.
    spec fn spec_ack(v: Self::V, f: InterruptFlag) -> Self::V;

    /// Lets one memory cycle pass.
    fn tick_cycle(&mut self)
        requires
            old(self).wf(),
            Self::spec_ticks(old(self)@) + 4 <= u64::MAX,
        ensures
            final(self).wf(),
            final(self)@ == Self::spec_tick(old(self)@),
            Self::spec_ticks(final(self)@) == Self::spec_ticks(old(self)@) + 4,
    ;

    /// Reads the byte at `address`, then lets one memory cycle pass.
    fn read_cycle(&mut self, address: u16) -> (value: u8)
        requires
            old(self).wf(),
            Self::spec_ticks(old(self)@) + 4 <= u64::MAX,
        ensures
            final(self).wf(),
            value == Self::spec_peek(old(self)@, address),
            final(self)@ == Self::spec_tick(old(self)@),
            Self::spec_ticks(final(self)@) == Self::spec_ticks(old(self)@) + 4,
    ;

    /// Stores `value` at `address`, then lets one memory cycle pass.
    fn write_cycle(&mut self, address: u16, value: u8)
        requires
            old(self).wf(),
            Self::spec_ticks(old(self)@) + 4 <= u64::MAX,
        ensures
            final(self).wf(),
            final(self)@ == Self::spec_tick(Self::spec_store(old(self)@, address, value)),
            Self::spec_ticks(final(self)@) == Self::spec_ticks(old(self)@) + 4,
    ;

    /// The requests that are raised and enabled, if there is one.
    fn get_interrupt(&mut self) -> (pending: Option<InterruptFlag>)
        requires
            old(self).wf(),
        ensures
            final(self).wf(),
            final(self)@ == old(self)@,
            pending == (if Self::spec_pending(old(self)@).spec_is_empty() {
                None
            } else {
                Some(Self::spec_pending(old(self)@))
            }),
    ;

    /// Acknowledges the request of highest priority in `f`.
    fn ack_interrupt(&mut self, f: &InterruptFlag)
        requires
            old(self).wf(),
        ensures
            final(self).wf(),
            final(self)@ == Self::spec_ack(old(self)@, *f),
            Self::spec_ticks(final(self)@) == Self::spec_ticks(old(self)@),
    ;

    /// Reads the byte at `address`; no time passes.
    fn peek(&mut self, address: u16) -> (value: u8)
        requires
            old(self).wf(),
        ensures
            final(self).wf(),
            final(self)@ == old(self)@,
            value == Self::spec_peek(old(self)@, address),
    ;

    /// The clock cycles that have passed.
    fn ticks(&self) -> (t: u64)
        requires
            self.wf(),
        ensures
            t == Self::spec_ticks(self@),
    ;
}

/// Whether the context can count `cycles` more memory cycles.
pub open spec fn budget<C: CpuContext>(v: C::V, cycles: nat) -> bool {
    C::spec_ticks(v) + 4 * cycles <= u64::MAX
}

/// What the processor is doing.
#[derive(Copy, Clone, Debug, PartialEq, Eq, Structural)]
pub enum CpuMode {
    /// It runs instructions.
    Running,
    /// It waits for an interrupt.
    Halted,
    /// It has run `STOP`.
    Stopped,
}

/// How a step ended.
#[derive(Copy, Clone, Debug, PartialEq, Eq, Structural)]
pub enum StepResult {
    /// The processor ran an instruction, or waited one memory cycle.
    Continue,
    /// The processor is stopped; nothing was done.
    Stopped,
    /// The byte `opcode`, fetched at `pc`, is no instruction. The opcode
    /// fetch is the last thing that was done.
    IllegalOpcode { pc: u16, opcode: u8 },
}

/// The longest instruction takes six memory cycles and the interrupt
/// service four.
pub const MAX_STEP_CYCLES: u64 = 10;

/// The memory cycles that the context must still be able to count when a
/// step begins.
pub const STEP_BUDGET: u64 = 12;

pub struct CPU {
    pub registers: RegisterFile,
    /// The data of the current instruction.
    pub fetched_data: u16,
    /// The address that the current instruction writes to, if it writes to memory.
    pub mem_dest: u16,
    pub dest_is_mem: bool,
    /// The opcode of the current instruction; of a prefixed one, the byte behind the prefix.
    pub cur_opcode: u8,
    pub instruction: Instruction,
    pub mode: CpuMode,
    /// The interrupt master enable.
    pub ime: bool,
    /// Set by `EI` and `RETI`: interrupts are enabled at the end of the next step.
    pub ime_scheduled: bool,
}

/// The target of the `RST` with this opcode: `0x00`, `0x08`, ... `0x38`.
pub open spec fn rst_target(opcode: u8) -> u16 {
    (((opcode as int / 8) % 8) * 8) as u16
}

impl CPU {
    /// The processor after the boot program: running, interrupts disabled.
    pub open spec fn spec_new() -> CPU {
        CPU {
            registers: RegisterFile::spec_new(),
            fetched_data: 0,
            mem_dest: 0,
            dest_is_mem: false,
            cur_opcode: 0,
            instruction: Instruction {
                itype: InstructionType::NONE,
                mode: AddressMode::IMP,
                reg1: None,
                reg2: None,
                cond: None,
            },
            mode: CpuMode::Running,
            ime: false,
            ime_scheduled: false,
        }
    }

    pub open spec fn with_registers(self, registers: RegisterFile) -> CPU {
        CPU { registers, ..self }
    }

    pub open spec fn with_flags(self, f: Flags) -> CPU {
        CPU { registers: RegisterFile { f, ..self.registers }, ..self }
    }

    /// The processor with a new accumulator and new flags.
    pub open spec fn with_a_flags(self, r: (u8, Flags)) -> CPU {
        CPU { registers: RegisterFile { a: r.0, f: r.1, ..self.registers }, ..self }
    }

    pub open spec fn with_pc(self, pc: u16) -> CPU {
        CPU { registers: RegisterFile { pc, ..self.registers }, ..self }
    }

    pub open spec fn with_data(self, data: u16) -> CPU {
        CPU { fetched_data: data, ..self }
    }

    pub open spec fn with_dest(self, address: u16) -> CPU {
        CPU { mem_dest: address, dest_is_mem: true, ..self }
    }

    /// The value of a register of either width.
    pub open spec fn reg_value(self, reg: Register) -> u16 {
        if reg.spec_is_16bit() {
            self.registers.spec_read16(reg)
        } else {
            self.registers.spec_read8(reg) as u16
        }
    }

    /// The address that a register gives: `0xFF00 + C` for `C`, the value of
    /// a pair for a pair.
    pub open spec fn pointer(self, reg: Register) -> u16 {
        if reg == Register::C {
            (0xFF00 + self.registers.c) as u16
        } else {
            self.registers.spec_read16(reg)
        }
    }

    /// The state between operand resolution and the operation: the
    /// descriptor fits its opcode, and the destination is memory exactly for
    /// the modes that write to memory.
    pub open spec fn resolved(self) -> bool {
        shape_ok(self.instruction, self.cur_opcode) && self.dest_is_mem == writes_memory(self.instruction.mode)
    }

    /// Whether the branch of the current instruction is taken.
    pub open spec fn taken(self) -> bool {
        condition_holds(self.instruction.cond, self.registers.f)
    }

    /// The low byte of the data of the current instruction.
    pub open spec fn data_byte(self) -> u8 {
        low_byte(self.fetched_data)
    }

    /// The fetch: one byte is read at `PC`; after the prefix `0xCB` a second
    /// one is. `PC` moves past what was read. The third component tells
    /// whether the opcode has a descriptor; for one that has none the
    /// descriptor of the instruction before stays.
    pub open spec fn spec_fetch_instruction<C: CpuContext>(self, v: C::V) -> (CPU, C::V, bool) {
        let pc = self.registers.pc;
        let opcode = C::spec_peek(v, pc);
        let v1 = C::spec_tick(v);
        let pc1 = pc.wrapping_add(1);
        if opcode != 0xCB {
            (
                CPU {
                    cur_opcode: opcode,
                    instruction: if is_legal_opcode(opcode) {
                        spec_from_opcode(opcode)
                    } else {
                        self.instruction
                    },
                    ..self.with_pc(pc1)
                },
                v1,
                is_legal_opcode(opcode),
            )
        } else {
            let second = C::spec_peek(v1, pc1);
            (
                CPU {
                    cur_opcode: second,
                    instruction: spec_from_opcode_prefixed(second),
                    ..self.with_pc(pc1.wrapping_add(1))
                },
                C::spec_tick(v1),
                true,
            )
        }
    }

    /// Reads the byte at `PC` as data and moves `PC` past it.
    pub open spec fn spec_immediate8<C: CpuContext>(self, v: C::V) -> (CPU, C::V) {
        let pc = self.registers.pc;
        (self.with_pc(pc.wrapping_add(1)).with_data(C::spec_peek(v, pc) as u16), C::spec_tick(v))
    }

    /// Reads the word at `PC`, low byte first, and moves `PC` past it.
    pub open spec fn spec_immediate16<C: CpuContext>(self, v: C::V) -> (u16, CPU, C::V) {
        let pc = self.registers.pc;
        let lo = C::spec_peek(v, pc);
        let v1 = C::spec_tick(v);
        let hi = C::spec_peek(v1, pc.wrapping_add(1));
        (word(hi, lo), self.with_pc(pc.wrapping_add(2)), C::spec_tick(v1))
    }

    /// The operand resolution: it fills in the data and the destination of
    /// the current instruction as its addressing mode says. `STOP` is two
    /// bytes long: its second byte is skipped, and not read.
    pub open spec fn spec_fetch_data<C: CpuContext>(self, v: C::V) -> (CPU, C::V) {
        let s = CPU { mem_dest: 0, dest_is_mem: false, ..self };
        let i = self.instruction;
        let regs = self.registers;
        let hl = regs.spec_read16(Register::HL);
        match i.mode {
            AddressMode::IMP => (
                if i.itype == InstructionType::STOP {
                    s.with_pc(regs.pc.wrapping_add(1))
                } else {
                    s
                },
                v,
            ),
            AddressMode::R => (s.with_data(s.reg_value(i.reg1->0)), v),
            AddressMode::R_R => (s.with_data(s.reg_value(i.reg2->0)), v),
            AddressMode::R_D8 | AddressMode::D8 | AddressMode::HL_SPR => s.spec_immediate8::<C>(v),
            AddressMode::R_D16 | AddressMode::D16 => {
                let (value, s1, v1) = s.spec_immediate16::<C>(v);
                (s1.with_data(value), v1)
            },
            AddressMode::R_HLI => (
                s.with_registers(regs.spec_write16(Register::HL, hl.wrapping_add(1))).with_data(
                    C::spec_peek(v, hl) as u16,
                ),
                C::spec_tick(v),
            ),
            AddressMode::R_HLD => (
                s.with_registers(regs.spec_write16(Register::HL, hl.wrapping_sub(1))).with_data(
                    C::spec_peek(v, hl) as u16,
                ),
                C::spec_tick(v),
            ),
            AddressMode::HLI_R => (
                s.with_registers(regs.spec_write16(Register::HL, hl.wrapping_add(1))).with_data(
                    s.reg_value(i.reg2->0),
                ).with_dest(hl),
                v,
            ),
            AddressMode::HLD_R => (
                s.with_registers(regs.spec_write16(Register::HL, hl.wrapping_sub(1))).with_data(
                    s.reg_value(i.reg2->0),
                ).with_dest(hl),
                v,
            ),
            AddressMode::MR_R => (s.with_data(s.reg_value(i.reg2->0)).with_dest(s.pointer(i.reg1->0)), v),
            AddressMode::R_MR => (s.with_data(C::spec_peek(v, s.pointer(i.reg2->0)) as u16), C::spec_tick(v)),
            AddressMode::R_A8 => {
                let (s1, v1) = s.spec_immediate8::<C>(v);
                (s1.with_data(C::spec_peek(v1, (0xFF00 + s1.fetched_data) as u16) as u16), C::spec_tick(v1))
            },
            AddressMode::A8_R => {
                let (s1, v1) = s.spec_immediate8::<C>(v);
                (s1.with_data(regs.a as u16).with_dest((0xFF00 + s1.fetched_data) as u16), v1)
            },
            AddressMode::MR => (s.with_data(C::spec_peek(v, hl) as u16).with_dest(hl), C::spec_tick(v)),
            AddressMode::MR_D8 => {
                let (s1, v1) = s.spec_immediate8::<C>(v);
                (s1.with_dest(hl), v1)
            },
            AddressMode::A16_R | AddressMode::D16_R => {
                let (address, s1, v1) = s.spec_immediate16::<C>(v);
                (s1.with_data(s.reg_value(i.reg2->0)).with_dest(address), v1)
            },
            AddressMode::R_A16 => {
                let (address, s1, v1) = s.spec_immediate16::<C>(v);
                (s1.with_data(C::spec_peek(v1, address) as u16), C::spec_tick(v1))
            },
            AddressMode::RST => (s.with_data(rst_target(self.cur_opcode)), v),
        }
    }

    /// A result goes where the instruction says: to memory, which costs a
    /// memory cycle, or to the first register. The flags are set either way.
    pub open spec fn spec_write_back<C: CpuContext>(self, v: C::V, r: (u8, Flags)) -> (CPU, C::V) {
        let s = self.with_flags(r.1);
        if self.dest_is_mem {
            (s, C::spec_tick(C::spec_store(v, self.mem_dest, r.0)))
        } else {
            (s.with_registers(s.registers.spec_write8(self.instruction.reg1->0, r.0)), v)
        }
    }

    /// A push: one internal cycle, then `SP` goes down by one and the high
    /// byte is stored, then `SP` goes down by one and the low byte is stored.
    pub open spec fn spec_push_value<C: CpuContext>(self, v: C::V, value: u16) -> (CPU, C::V) {
        let sp1 = self.registers.sp.wrapping_sub(1);
        let sp2 = sp1.wrapping_sub(1);
        let v1 = C::spec_tick(v);
        let v2 = C::spec_tick(C::spec_store(v1, sp1, high_byte(value)));
        let v3 = C::spec_tick(C::spec_store(v2, sp2, low_byte(value)));
        (self.with_registers(RegisterFile { sp: sp2, ..self.registers }), v3)
    }

    /// A pop: the low byte is read at `SP`, the high byte above it, and `SP`
    /// goes up by two.
    pub open spec fn spec_pop_value<C: CpuContext>(self, v: C::V) -> (u16, CPU, C::V) {
        let sp = self.registers.sp;
        let lo = C::spec_peek(v, sp);
        let v1 = C::spec_tick(v);
        let hi = C::spec_peek(v1, sp.wrapping_add(1));
        (word(hi, lo), self.with_registers(RegisterFile { sp: sp.wrapping_add(2), ..self.registers }), C::spec_tick(v1))
    }

    /// `INC`: a pair goes up by one, modulo 65536, in one internal cycle and
    /// the flags stay; a byte goes up by one with flags `* 0 * -`.
    pub open spec fn spec_increment<C: CpuContext>(self, v: C::V) -> (CPU, C::V) {
        let reg1 = self.instruction.reg1->0;
        if !self.dest_is_mem && reg1.spec_is_16bit() {
            (self.with_registers(self.registers.spec_write16(reg1, self.fetched_data.wrapping_add(1))), C::spec_tick(v))
        } else {
            self.spec_write_back::<C>(v, spec_inc8(self.data_byte(), self.registers.f))
        }
    }

    /// `DEC`: a pair goes down by one, modulo 65536, in one internal cycle
    /// and the flags stay; a byte goes down by one with flags `* 1 * -`.
    pub open spec fn spec_decrement<C: CpuContext>(self, v: C::V) -> (CPU, C::V) {
        let reg1 = self.instruction.reg1->0;
        if !self.dest_is_mem && reg1.spec_is_16bit() {
            (self.with_registers(self.registers.spec_write16(reg1, self.fetched_data.wrapping_sub(1))), C::spec_tick(v))
        } else {
            self.spec_write_back::<C>(v, spec_dec8(self.data_byte(), self.registers.f))
        }
    }

    /// `LD`: the data goes to memory (a pair is stored low byte first), or
    /// to the first register. `LD HL,SP+e8` sets the flags `0 0 * *`; it and
    /// `LD SP,HL` take one internal cycle.
    pub open spec fn spec_load<C: CpuContext>(self, v: C::V) -> (CPU, C::V) {
        let i = self.instruction;
        let regs = self.registers;
        let data = self.fetched_data;
        if self.dest_is_mem {
            if is_r16(i.reg2) {
                (
                    self,
                    C::spec_tick(
                        C::spec_store(
                            C::spec_tick(C::spec_store(v, self.mem_dest, low_byte(data))),
                            self.mem_dest.wrapping_add(1),
                            high_byte(data),
                        ),
                    ),
                )
            } else {
                (self, C::spec_tick(C::spec_store(v, self.mem_dest, low_byte(data))))
            }
        } else if i.mode == AddressMode::HL_SPR {
            let r = spec_add_sp(regs.sp, low_byte(data));
            (self.with_registers(RegisterFile { f: r.1, ..regs.spec_write16(Register::HL, r.0) }), C::spec_tick(v))
        } else if is_r16(i.reg1) {
            (
                self.with_registers(regs.spec_write16(i.reg1->0, data)),
                if i.mode == AddressMode::R_R {
                    C::spec_tick(v)
                } else {
                    v
                },
            )
        } else {
            (self.with_registers(regs.spec_write8(i.reg1->0, low_byte(data))), v)
        }
    }

    /// `LDH`: the data goes to the high page of memory, or to the
    /// accumulator.
    pub open spec fn spec_load_high<C: CpuContext>(self, v: C::V) -> (CPU, C::V) {
        if self.dest_is_mem {
            (self, C::spec_tick(C::spec_store(v, self.mem_dest, self.data_byte())))
        } else {
            (self.with_registers(RegisterFile { a: self.data_byte(), ..self.registers }), v)
        }
    }

    /// `ADD`: to `SP` a signed byte, in two internal cycles; to `HL` a pair,
    /// in one; to the accumulator a byte.
    pub open spec fn spec_add<C: CpuContext>(self, v: C::V) -> (CPU, C::V) {
        let regs = self.registers;
        if self.instruction.reg1 == Some(Register::SP) {
            let r = spec_add_sp(regs.sp, self.data_byte());
            (self.with_registers(RegisterFile { sp: r.0, f: r.1, ..regs }), C::spec_tick(C::spec_tick(v)))
        } else if self.instruction.reg1 == Some(Register::HL) {
            let r = spec_add16(regs.spec_read16(Register::HL), self.fetched_data, regs.f);
            (self.with_registers(RegisterFile { f: r.1, ..regs.spec_write16(Register::HL, r.0) }), C::spec_tick(v))
        } else {
            (self.with_a_flags(spec_add8(regs.a, self.data_byte(), false)), v)
        }
    }

    /// `JP`: if the condition holds, `PC` becomes the data, in one internal
    /// cycle.
    pub open spec fn spec_jump<C: CpuContext>(self, v: C::V) -> (CPU, C::V) {
        if self.taken() {
            (self.with_pc(self.fetched_data), C::spec_tick(v))
        } else {
            (self, v)
        }
    }

    /// `JR`: if the condition holds, the signed data byte is added to `PC`,
    /// in one internal cycle.
    pub open spec fn spec_jump_rel<C: CpuContext>(self, v: C::V) -> (CPU, C::V) {
        if self.taken() {
            (self.with_pc(spec_add_signed(self.registers.pc, self.data_byte())), C::spec_tick(v))
        } else {
            (self, v)
        }
    }

    /// `CALL`: if the condition holds, `PC` is pushed and becomes the data.
    pub open spec fn spec_call<C: CpuContext>(self, v: C::V) -> (CPU, C::V) {
        if self.taken() {
            let (s, v1) = self.spec_push_value::<C>(v, self.registers.pc);
            (s.with_pc(self.fetched_data), v1)
        } else {
            (self, v)
        }
    }

    /// `RET`: if the condition holds, `PC` is popped, and one internal cycle
    /// passes.
    pub open spec fn spec_ret<C: CpuContext>(self, v: C::V) -> (CPU, C::V) {
        if self.taken() {
            let (value, s, v1) = self.spec_pop_value::<C>(v);
            (s.with_pc(value), C::spec_tick(v1))
        } else {
            (self, v)
        }
    }

    /// `POP`: a word is popped into a pair. Popped into `AF`, its low nibble
    /// is dropped.
    pub open spec fn spec_pop<C: CpuContext>(self, v: C::V) -> (CPU, C::V) {
        let (value, s, v1) = self.spec_pop_value::<C>(v);
        (s.with_registers(s.registers.spec_write16(self.instruction.reg1->0, value)), v1)
    }

    /// What the operation of the current instruction does to the processor
    /// and to the context.
    pub open spec fn spec_execute<C: CpuContext>(self, v: C::V) -> (CPU, C::V) {
        let regs = self.registers;
        let f = regs.f;
        let a = regs.a;
        let byte = self.data_byte();
        let n = bit_index(self.cur_opcode);
        match self.instruction.itype {
            InstructionType::HALT => (CPU { mode: CpuMode::Halted, ..self }, v),
            InstructionType::STOP => (CPU { mode: CpuMode::Stopped, ..self }, v),
            InstructionType::DI => (CPU { ime: false, ..self }, v),
            InstructionType::EI => (CPU { ime_scheduled: true, ..self }, v),
            InstructionType::DEC => self.spec_decrement::<C>(v),
            InstructionType::INC => self.spec_increment::<C>(v),
            InstructionType::JP => self.spec_jump::<C>(v),
            InstructionType::JR => self.spec_jump_rel::<C>(v),
            InstructionType::LD => self.spec_load::<C>(v),
            InstructionType::LDH => self.spec_load_high::<C>(v),
            InstructionType::CALL | InstructionType::RST => self.spec_call::<C>(v),
            InstructionType::RET => self.spec_ret::<C>(v),
            InstructionType::RETI => (CPU { ime_scheduled: true, ..self }).spec_ret::<C>(v),
            InstructionType::POP => self.spec_pop::<C>(v),
            InstructionType::PUSH => self.spec_push_value::<C>(v, regs.spec_read16(self.instruction.reg1->0)),
            InstructionType::CCF => (self.with_flags(spec_ccf(f)), v),
            InstructionType::SCF => (self.with_flags(spec_scf(f)), v),
            InstructionType::CPL => (self.with_a_flags(spec_cpl(a, f)), v),
            InstructionType::DAA => (self.with_a_flags(spec_daa(byte, f)), v),
            InstructionType::ADC => (self.with_a_flags(spec_add8(a, byte, f.carry)), v),
            InstructionType::ADD => self.spec_add::<C>(v),
            InstructionType::CP => (self.with_flags(spec_sub8(a, byte, false).1), v),
            InstructionType::SBC => (self.with_a_flags(spec_sub8(a, byte, f.carry)), v),
            InstructionType::SUB => (self.with_a_flags(spec_sub8(a, byte, false)), v),
            InstructionType::AND => (self.with_a_flags(spec_and8(a, byte)), v),
            InstructionType::OR => (self.with_a_flags(spec_or8(a, byte)), v),
            InstructionType::XOR => (self.with_a_flags(spec_xor8(a, byte)), v),
            InstructionType::RLA => (self.with_a_flags(without_zero(spec_rotate_left(a, false, f.carry))), v),
            InstructionType::RLCA => (self.with_a_flags(without_zero(spec_rotate_left(a, true, f.carry))), v),
            InstructionType::RRA => (self.with_a_flags(without_zero(spec_rotate_right(a, false, f.carry))), v),
            InstructionType::RRCA => (self.with_a_flags(without_zero(spec_rotate_right(a, true, f.carry))), v),
            InstructionType::RLC => self.spec_write_back::<C>(v, spec_rotate_left(byte, true, f.carry)),
            InstructionType::RL => self.spec_write_back::<C>(v, spec_rotate_left(byte, false, f.carry)),
            InstructionType::RRC => self.spec_write_back::<C>(v, spec_rotate_right(byte, true, f.carry)),
            InstructionType::RR => self.spec_write_back::<C>(v, spec_rotate_right(byte, false, f.carry)),
            InstructionType::SLA => self.spec_write_back::<C>(v, spec_sla(byte)),
            InstructionType::SRA => self.spec_write_back::<C>(v, spec_sra(byte)),
            InstructionType::SWAP => self.spec_write_back::<C>(v, spec_swap(byte)),
            InstructionType::SRL => self.spec_write_back::<C>(v, spec_srl(byte)),
            InstructionType::BIT => (self.with_flags(spec_bit(n, byte, f)), v),
            InstructionType::RES => self.spec_write_back::<C>(v, (spec_res(n, byte), f)),
            InstructionType::SET => self.spec_write_back::<C>(v, (spec_set(n, byte), f)),
            _ => (self, v),
        }
    }

    /// The interrupt service. If a request is raised and enabled, the one of
    /// highest priority is acknowledged, interrupts are disabled, the
    /// processor runs again, `PC` is pushed and becomes the address of the
    /// handler, and one internal cycle passes.
    pub open spec fn spec_handle_interrupts<C: CpuContext>(self, v: C::V) -> (CPU, C::V) {
        let pending = C::spec_pending(v);
        if pending.spec_is_empty() {
            (self, v)
        } else {
            let chosen = pending.spec_highest_priority();
            let v1 = C::spec_ack(v, chosen);
            let (s, v2) = (CPU { ime: false, mode: CpuMode::Running, ..self }).spec_push_value::<C>(
                v1,
                self.registers.pc,
            );
            (s.with_pc(spec_handler_address(chosen)), C::spec_tick(v2))
        }
    }

    /// The end of a step. If an `EI` or `RETI` was run in a step before
    /// this one (`latch`), interrupts are enabled now. Then, if they are
    /// enabled, a pending request is served.
    pub open spec fn spec_finish_step<C: CpuContext>(self, v: C::V, latch: bool) -> (CPU, C::V) {
        let s = if latch {
            CPU { ime: true, ..self }
        } else {
            self
        };
        if s.ime {
            let (s1, v1) = s.spec_handle_interrupts::<C>(v);
            (CPU { ime_scheduled: false, ..s1 }, v1)
        } else {
            (s, v)
        }
    }

    /// One instruction: the fetch, the operand resolution and the operation.
    /// The third component is false for an opcode without a descriptor, at
    /// which the fetch is all that is done.
    pub open spec fn spec_run_instruction<C: CpuContext>(self, v: C::V) -> (CPU, C::V, bool) {
        let (s1, v1, legal) = self.spec_fetch_instruction::<C>(v);
        if !legal {
            (s1, v1, false)
        } else {
            let (s2, v2) = s1.spec_fetch_data::<C>(v1);
            let (s3, v3) = s2.spec_execute::<C>(v2);
            (s3, v3, true)
        }
    }

    /// The memory cycles that one instruction takes: those of its opcode
    /// fetch alone if the opcode has no descriptor.
    pub open spec fn spec_instruction_cycles<C: CpuContext>(self, v: C::V) -> nat {
        let (s1, v1, legal) = self.spec_fetch_instruction::<C>(v);
        if !legal {
            1
        } else {
            instruction_cycles(s1.instruction, C::spec_peek(v, self.registers.pc) == 0xCB, s1.taken())
        }
    }

    /// One step. A running processor fetches, resolves and runs one
    /// instruction; a halted one lets a memory cycle pass and wakes up if a
    /// request is then pending; a stopped one does nothing. An opcode without
    /// a descriptor ends the step after its fetch.
    pub open spec fn spec_step<C: CpuContext>(self, v: C::V) -> (CPU, C::V, StepResult) {
        match self.mode {
            CpuMode::Stopped => (self, v, StepResult::Stopped),
            CpuMode::Halted => {
                let v1 = C::spec_tick(v);
                let s = if C::spec_pending(v1).spec_is_empty() {
                    self
                } else {
                    CPU { mode: CpuMode::Running, ..self }
                };
                let (s2, v2) = s.spec_finish_step::<C>(v1, self.ime_scheduled);
                (s2, v2, StepResult::Continue)
            },
            CpuMode::Running => {
                let (s1, v1, legal) = self.spec_run_instruction::<C>(v);
                if !legal {
                    (s1, v1, StepResult::IllegalOpcode { pc: self.registers.pc, opcode: s1.cur_opcode })
                } else {
                    let (s2, v2) = s1.spec_finish_step::<C>(v1, self.ime_scheduled);
                    (s2, v2, StepResult::Continue)
                }
            },
        }
    }

    /// The memory cycles that the interrupt service takes at the end of a
    /// step: four if a request is served, none if not.
    pub open spec fn spec_service_cycles<C: CpuContext>(self, v: C::V, latch: bool) -> nat {
        if (latch || self.ime) && !C::spec_pending(v).spec_is_empty() {
            4
        } else {
            0
        }
    }

    /// The memory cycles that a step takes.
    pub open spec fn spec_step_cycles<C: CpuContext>(self, v: C::V) -> nat {
        match self.mode {
            CpuMode::Stopped => 0,
            CpuMode::Halted => 1 + self.spec_service_cycles::<C>(C::spec_tick(v), self.ime_scheduled),
            CpuMode::Running => {
                let (s1, v1, legal) = self.spec_run_instruction::<C>(v);
                self.spec_instruction_cycles::<C>(v) + (if legal {
                    s1.spec_service_cycles::<C>(v1, self.ime_scheduled)
                } else {
                    0
                })
            },
        }
    }

    pub fn new() -> (cpu: CPU)
        ensures
            cpu == CPU::spec_new(),
    {
        CPU {
            registers: RegisterFile::new(),
            fetched_data: 0,
            mem_dest: 0,
            dest_is_mem: false,
            cur_opcode: 0,
            instruction: Instruction::default(),
            mode: CpuMode::Running,
            ime: false,
            ime_scheduled: false,
        }
    }

    /// Runs one step: see [`CPU::spec_step`]. The step takes
    /// [`CPU::spec_step_cycles`] memory cycles, of which the context counts
    /// four clock cycles each.
    pub fn step<C: CpuContext>(&mut self, ctx: &mut C) -> (result: StepResult)
        requires
            old(ctx).wf(),
            budget::<C>(old(ctx)@, STEP_BUDGET as nat),
        ensures
            final(ctx).wf(),
            (*final(self), final(ctx)@, result) == old(self).spec_step::<C>(old(ctx)@),
            C::spec_ticks(final(ctx)@) == C::spec_ticks(old(ctx)@) + 4 * old(self).spec_step_cycles::<C>(old(ctx)@),
            old(self).spec_step_cycles::<C>(old(ctx)@) <= MAX_STEP_CYCLES,
    {
        let latch = self.ime_scheduled;
        match self.mode {
            CpuMode::Running => {
                let pc = self.registers.pc;
                if !self.run_instruction(ctx) {
                    return StepResult::IllegalOpcode { pc, opcode: self.cur_opcode };
                }
            },
            CpuMode::Halted => {
                ctx.tick_cycle();
                if ctx.get_interrupt().is_some() {
                    // Resume if an interrupt is requested
                    self.mode = CpuMode::Running;
                }
            },
            CpuMode::Stopped => {
                return StepResult::Stopped;
            },
        }
        self.finish_step(ctx, latch);
        StepResult::Continue
    }

    /// Fetches, resolves and runs one instruction, unless its opcode has no
    /// descriptor.
    fn run_instruction<C: CpuContext>(&mut self, ctx: &mut C) -> (legal: bool)
        requires
            old(ctx).wf(),
            budget::<C>(old(ctx)@, 8),
        ensures
            final(ctx).wf(),
            (*final(self), final(ctx)@, legal) == old(self).spec_run_instruction::<C>(old(ctx)@),
            C::spec_ticks(final(ctx)@) == C::spec_ticks(old(ctx)@) + 4 * old(self).spec_instruction_cycles::<C>(
                old(ctx)@,
            ),
            old(self).spec_instruction_cycles::<C>(old(ctx)@) <= 6,
    {
        let ghost prefixed = C::spec_peek(ctx@, self.registers.pc) == 0xCB;
        let legal = self.fetch_instruction(ctx);
        if !legal {
            return false;
        }
        proof {
            if prefixed {
                lemma_prefixed_cycles_bound(self.cur_opcode, self.taken());
            } else {
                lemma_cycles_bound(self.cur_opcode, self.taken());
            }
        }
        self.fetch_data(ctx);
        self.execute(ctx);
        true
    }

    /// Ends a step: enables interrupts if that was scheduled in a step
    /// before, and serves a pending request if interrupts are enabled.
    fn finish_step<C: CpuContext>(&mut self, ctx: &mut C, latch: bool)
        requires
            old(ctx).wf(),
            budget::<C>(old(ctx)@, 4),
        ensures
            final(ctx).wf(),
            (*final(self), final(ctx)@) == old(self).spec_finish_step::<C>(old(ctx)@, latch),
            C::spec_ticks(final(ctx)@) == C::spec_ticks(old(ctx)@) + 4 * old(self).spec_service_cycles::<C>(
                old(ctx)@,
                latch,
            ),
    {
        if latch {
            self.ime = true;
        }
        if self.ime {
            self.handle_interrupts(ctx);
            self.ime_scheduled = false;
        }
    }

    fn fetch_instruction<C: CpuContext>(&mut self, ctx: &mut C) -> (legal: bool)
        requires
            old(ctx).wf(),
            budget::<C>(old(ctx)@, 2),
        ensures
            final(ctx).wf(),
            (*final(self), final(ctx)@, legal) == old(self).spec_fetch_instruction::<C>(old(ctx)@),
            C::spec_ticks(final(ctx)@) == C::spec_ticks(old(ctx)@) + 4 * (if C::spec_peek(
                old(ctx)@,
                old(self).registers.pc,
            ) == 0xCB {
                2nat
            } else {
                1nat
            }),
            legal ==> shape_ok(final(self).instruction, final(self).cur_opcode),
    {
        self.cur_opcode = ctx.read_cycle(self.registers.pc);
        self.registers.pc = self.registers.pc.wrapping_add(1);

        if self.cur_opcode != 0xCB {
            if !Instruction::is_legal(self.cur_opcode) {
                return false;
            }
            self.instruction = Instruction::from_opcode(self.cur_opcode);
            proof {
                lemma_decoded_shape(self.cur_opcode);
            }
            return true;
        }
        self.cur_opcode = ctx.read_cycle(self.registers.pc);
        self.registers.pc = self.registers.pc.wrapping_add(1);
        self.instruction = Instruction::from_opcode_prefixed(self.cur_opcode);
        proof {
            lemma_decoded_prefixed_shape(self.cur_opcode);
        }
        true
    }

    /// The value of a register of either width.
    fn read_register(&self, reg: Register) -> (value: u16)
        ensures
            value == self.reg_value(reg),
    {
        if reg.is_16bit() {
            self.registers.read16(reg)
        } else {
            self.registers.read8(reg) as u16
        }
    }

    /// The address that `C` or a pair gives.
    fn read_pointer(&self, reg: Register) -> (address: u16)
        requires
            is_pointer(Some(reg)),
        ensures
            address == self.pointer(reg),
    {
        proof {
            lemma_word_bits();
        }
        if reg == Register::C {
            (self.registers.read8(reg) as u16) | 0xFF00
        } else {
            self.registers.read16(reg)
        }
    }

    fn immediate8<C: CpuContext>(&mut self, ctx: &mut C)
        requires
            old(ctx).wf(),
            budget::<C>(old(ctx)@, 1),
        ensures
            final(ctx).wf(),
            (*final(self), final(ctx)@) == old(self).spec_immediate8::<C>(old(ctx)@),
            C::spec_ticks(final(ctx)@) == C::spec_ticks(old(ctx)@) + 4,
    {
        self.fetched_data = ctx.read_cycle(self.registers.pc) as u16;
        self.registers.pc = self.registers.pc.wrapping_add(1);
    }

    fn immediate16<C: CpuContext>(&mut self, ctx: &mut C) -> (value: u16)
        requires
            old(ctx).wf(),
            budget::<C>(old(ctx)@, 2),
        ensures
            final(ctx).wf(),
            (value, *final(self), final(ctx)@) == old(self).spec_immediate16::<C>(old(ctx)@),
            C::spec_ticks(final(ctx)@) == C::spec_ticks(old(ctx)@) + 8,
    {
        proof {
            lemma_word_bits();
        }
        let lo = ctx.read_cycle(self.registers.pc) as u16;
        let hi = ctx.read_cycle(self.registers.pc.wrapping_add(1)) as u16;
        self.registers.pc = self.registers.pc.wrapping_add(2);
        lo | (hi << 8)
    }

    #[verifier::rlimit(40)]
    fn fetch_data<C: CpuContext>(&mut self, ctx: &mut C)
        requires
            old(ctx).wf(),
            budget::<C>(old(ctx)@, 3),
            shape_ok(old(self).instruction, old(self).cur_opcode),
        ensures
            final(ctx).wf(),
            (*final(self), final(ctx)@) == old(self).spec_fetch_data::<C>(old(ctx)@),
            C::spec_ticks(final(ctx)@) == C::spec_ticks(old(ctx)@) + 4 * operand_cycles(old(self).instruction.mode),
            final(self).resolved(),
            final(self).instruction == old(self).instruction,
            final(self).cur_opcode == old(self).cur_opcode,
            final(self).registers.f == old(self).registers.f,
            final(self).ime_scheduled == old(self).ime_scheduled,
            // `PC` is moved past the bytes of the instruction that follow the opcode
            final(self).registers.pc as int == (old(self).registers.pc + operand_bytes(old(self).instruction))
                % 65536,
    {
        proof {
            lemma_operands_move_pc::<C>(*old(self), old(ctx)@);
        }
        self.mem_dest = 0;
        self.dest_is_mem = false;

        match self.instruction.mode {
            AddressMode::IMP => {
                if self.instruction.itype == InstructionType::STOP {
                    // The second byte of STOP is skipped
                    self.registers.pc = self.registers.pc.wrapping_add(1);
                }
            },
            AddressMode::R => {
                let reg = self.instruction.reg1.unwrap();
                self.fetched_data = self.read_register(reg);
            },
            AddressMode::R_R => {
                let reg = self.instruction.reg2.unwrap();
                self.fetched_data = self.read_register(reg);
            },
            AddressMode::R_D8 | AddressMode::D8 | AddressMode::HL_SPR => {
                self.immediate8(ctx);
            },
            AddressMode::R_D16 | AddressMode::D16 => {
                self.fetched_data = self.immediate16(ctx);
            },
            AddressMode::R_HLI => {
                let address = self.registers.read16(Register::HL);
                self.fetched_data = ctx.read_cycle(address) as u16;
                self.registers.write16(Register::HL, address.wrapping_add(1));
            },
            AddressMode::R_HLD => {
                let address = self.registers.read16(Register::HL);
                self.fetched_data = ctx.read_cycle(address) as u16;
                self.registers.write16(Register::HL, address.wrapping_sub(1));
            },
            AddressMode::HLI_R => {
                let address = self.registers.read16(Register::HL);
                self.mem_dest = address;
                self.fetched_data = self.read_register(self.instruction.reg2.unwrap());
                self.dest_is_mem = true;
                self.registers.write16(Register::HL, address.wrapping_add(1));
            },
            AddressMode::HLD_R => {
                let address = self.registers.read16(Register::HL);
                self.mem_dest = address;
                self.fetched_data = self.read_register(self.instruction.reg2.unwrap());
                self.dest_is_mem = true;
                self.registers.write16(Register::HL, address.wrapping_sub(1));
            },
            AddressMode::MR_R => {
                let reg1 = self.instruction.reg1.unwrap();
                self.fetched_data = self.read_register(self.instruction.reg2.unwrap());
                self.mem_dest = self.read_pointer(reg1);
                self.dest_is_mem = true;
            },
            AddressMode::R_MR => {
                let reg2 = self.instruction.reg2.unwrap();
                let address = self.read_pointer(reg2);
                self.fetched_data = ctx.read_cycle(address) as u16;
            },
            AddressMode::R_A8 => {
                self.immediate8(ctx);
                let address: u16 = 0xFF00 + self.fetched_data;
                self.fetched_data = ctx.read_cycle(address) as u16;
            },
            AddressMode::A8_R => {
                self.immediate8(ctx);
                self.mem_dest = 0xFF00 + self.fetched_data;
                self.dest_is_mem = true;
                self.fetched_data = self.registers.a as u16;
            },
            AddressMode::MR => {
                let address = self.registers.read16(Register::HL);
                self.mem_dest = address;
                self.dest_is_mem = true;
                self.fetched_data = ctx.read_cycle(address) as u16;
            },
            AddressMode::MR_D8 => {
                self.immediate8(ctx);
                self.mem_dest = self.registers.read16(Register::HL);
                self.dest_is_mem = true;
            },
            AddressMode::A16_R | AddressMode::D16_R => {
                let data = self.read_register(self.instruction.reg2.unwrap());
                self.mem_dest = self.immediate16(ctx);
                self.dest_is_mem = true;
                self.fetched_data = data;
            },
            AddressMode::R_A16 => {
                let address = self.immediate16(ctx);
                self.fetched_data = ctx.read_cycle(address) as u16;
            },
            AddressMode::RST => {
                self.fetched_data = match self.cur_opcode {
                    0xC7 => 0x00,
                    0xCF => 0x08,
                    0xD7 => 0x10,
                    0xDF => 0x18,
                    0xE7 => 0x20,
                    0xEF => 0x28,
                    0xF7 => 0x30,
                    _ => 0x38,
                };
            },
        }
    }

    /// The low byte of the data of the current instruction.
    fn data8(&self) -> (byte: u8)
        ensures
            byte == self.data_byte(),
    {
        proof {
            lemma_word_bits();
        }
        (self.fetched_data & 0x00FF) as u8
    }

    fn execute<C: CpuContext>(&mut self, ctx: &mut C)
        requires
            old(ctx).wf(),
            budget::<C>(old(ctx)@, 3),
            old(self).resolved(),
        ensures
            final(ctx).wf(),
            (*final(self), final(ctx)@) == old(self).spec_execute::<C>(old(ctx)@),
            C::spec_ticks(final(ctx)@) == C::spec_ticks(old(ctx)@) + 4 * execute_cycles(
                old(self).instruction,
                old(self).taken(),
            ),
    {
        match self.instruction.itype {
            InstructionType::HALT => {
                self.mode = CpuMode::Halted;
            },
            InstructionType::STOP => {
                self.mode = CpuMode::Stopped;
            },
            InstructionType::DI => {
                self.disable_interrupts();
            },
            InstructionType::EI => {
                self.enable_interrupts();
            },
            InstructionType::DEC => {
                self.decrement(ctx);
            },
            InstructionType::INC => {
                self.increment(ctx);
            },
            InstructionType::JP => {
                self.jump(ctx);
            },
            InstructionType::JR => {
                self.jump_rel(ctx);
            },
            InstructionType::LD => {
                self.load(ctx);
            },
            InstructionType::LDH => {
                self.load_high(ctx);
            },
            InstructionType::CALL => {
                self.call(ctx);
            },
            InstructionType::RST => {
                self.rst(ctx);
            },
            InstructionType::RET => {
                self.ret(ctx);
            },
            InstructionType::RETI => {
                self.enable_interrupts();
                self.ret(ctx);
            },
            InstructionType::POP => {
                self.pop(ctx);
            },
            InstructionType::PUSH => {
                self.push(ctx);
            },
            InstructionType::CCF => {
                self.ccf();
            },
            InstructionType::SCF => {
                self.scf();
            },
            InstructionType::CPL => {
                self.cpl();
            },
            InstructionType::DAA => {
                self.daa();
            },
            InstructionType::ADC => {
                self.adc();
            },
            InstructionType::ADD => {
                self.add(ctx);
            },
            InstructionType::CP => {
                self.cp();
            },
            InstructionType::SBC => {
                self.sbc();
            },
            InstructionType::SUB => {
                self.sub();
            },
            InstructionType::AND => {
                self.and();
            },
            InstructionType::OR => {
                self.or();
            },
            InstructionType::XOR => {
                self.xor();
            },
            InstructionType::RLA => {
                self.rla();
            },
            InstructionType::RLCA => {
                self.rlca();
            },
            InstructionType::RRA => {
                self.rra();
            },
            InstructionType::RRCA => {
                self.rrca();
            },
            InstructionType::RLC | InstructionType::RL => self.rlc_rl(ctx),
            InstructionType::RRC | InstructionType::RR => self.rrc_rc(ctx),
            InstructionType::SLA => self.sla(ctx),
            InstructionType::SRA => self.sra(ctx),
            InstructionType::SWAP => self.swap(ctx),
            InstructionType::SRL => self.srl(ctx),
            InstructionType::BIT => self.bit(),
            InstructionType::RES => self.res(ctx),
            InstructionType::SET => self.set(ctx),
            _ => {},
        }
    }

    fn check_flags(&self) -> (taken: bool)
        ensures
            taken == self.taken(),
    {
        match self.instruction.cond {
            Some(Condition::C) => self.registers.cf(),
            Some(Condition::NC) => !self.registers.cf(),
            Some(Condition::NZ) => !self.registers.zf(),
            Some(Condition::Z) => self.registers.zf(),
            None => true,
        }
    }

    fn disable_interrupts(&mut self)
        ensures
            *final(self) == (CPU { ime: false, ..*old(self) }),
    {
        self.ime = false;
    }

    fn enable_interrupts(&mut self)
        ensures
            *final(self) == (CPU { ime_scheduled: true, ..*old(self) }),
    {
        self.ime_scheduled = true;
    }

    fn handle_interrupts<C: CpuContext>(&mut self, ctx: &mut C)
        requires
            old(ctx).wf(),
            budget::<C>(old(ctx)@, 4),
        ensures
            final(ctx).wf(),
            (*final(self), final(ctx)@) == old(self).spec_handle_interrupts::<C>(old(ctx)@),
            C::spec_ticks(final(ctx)@) == C::spec_ticks(old(ctx)@) + (if C::spec_pending(
                old(ctx)@,
            ).spec_is_empty() {
                0nat
            } else {
                16nat
            }),
    {
        let interrupt = match ctx.get_interrupt() {
            Some(i) => i,
            None => InterruptFlag::empty(),
        };

        if interrupt.is_empty() {
            return;
        }
        let interrupt = interrupt.highest_priority();

        self.ime = false;
        self.mode = CpuMode::Running;
        ctx.ack_interrupt(&interrupt);

        let pc = self.registers.pc;
        self.push_value(ctx, pc);
        self.registers.pc = get_hadler_address(interrupt);
        ctx.tick_cycle();
    }

    /// Sets the flags and puts a result where the current instruction wants it.
    fn write_back<C: CpuContext>(&mut self, ctx: &mut C, result: u8, flags: Flags)
        requires
            old(ctx).wf(),
            budget::<C>(old(ctx)@, 1),
            old(self).dest_is_mem || is_r8(old(self).instruction.reg1),
        ensures
            final(ctx).wf(),
            (*final(self), final(ctx)@) == old(self).spec_write_back::<C>(old(ctx)@, (result, flags)),
            C::spec_ticks(final(ctx)@) == C::spec_ticks(old(ctx)@) + (if old(self).dest_is_mem {
                4nat
            } else {
                0nat
            }),
    {
        self.registers.f = flags;
        if self.dest_is_mem {
            ctx.write_cycle(self.mem_dest, result);
        } else {
            self.registers.write8(self.instruction.reg1.unwrap(), result);
        }
    }

    /// DEC s
    ///
    /// Flags: Z N H C (8-bit)
    ///        * 1 * -
    fn decrement<C: CpuContext>(&mut self, ctx: &mut C)
        requires
            old(ctx).wf(),
            budget::<C>(old(ctx)@, 1),
            old(self).resolved(),
            old(self).instruction.itype == InstructionType::DEC,
        ensures
            final(ctx).wf(),
            (*final(self), final(ctx)@) == old(self).spec_decrement::<C>(old(ctx)@),
            C::spec_ticks(final(ctx)@) == C::spec_ticks(old(ctx)@) + 4 * execute_cycles(old(self).instruction, true),
    {
        let reg1 = self.instruction.reg1.unwrap();

        if reg1.is_16bit() && !self.dest_is_mem {
            // Does not change flags
            ctx.tick_cycle();
            let result = self.fetched_data.wrapping_sub(1);
            self.registers.write16(reg1, result);
            return;
        }
        let (result, flags) = dec8(self.data8(), self.registers.f);
        self.write_back(ctx, result, flags);
    }

    /// INC s
    ///
    /// Flags: Z N H C (8-bit)
    ///        * 0 * -
    fn increment<C: CpuContext>(&mut self, ctx: &mut C)
        requires
            old(ctx).wf(),
            budget::<C>(old(ctx)@, 1),
            old(self).resolved(),
            old(self).instruction.itype == InstructionType::INC,
        ensures
            final(ctx).wf(),
            (*final(self), final(ctx)@) == old(self).spec_increment::<C>(old(ctx)@),
            C::spec_ticks(final(ctx)@) == C::spec_ticks(old(ctx)@) + 4 * execute_cycles(old(self).instruction, true),
    {
        let reg1 = self.instruction.reg1.unwrap();

        if reg1.is_16bit() && !self.dest_is_mem {
            // Does not change flags
            ctx.tick_cycle();
            let result = self.fetched_data.wrapping_add(1);
            self.registers.write16(reg1, result);
            return;
        }
        let (result, flags) = inc8(self.data8(), self.registers.f);
        self.write_back(ctx, result, flags);
    }

    fn jump<C: CpuContext>(&mut self, ctx: &mut C)
        requires
            old(ctx).wf(),
            budget::<C>(old(ctx)@, 1),
        ensures
            final(ctx).wf(),
            (*final(self), final(ctx)@) == old(self).spec_jump::<C>(old(ctx)@),
            C::spec_ticks(final(ctx)@) == C::spec_ticks(old(ctx)@) + (if old(self).taken() {
                4nat
            } else {
                0nat
            }),
    {
        if self.check_flags() {
            self.registers.pc = self.fetched_data;
            ctx.tick_cycle();
        }
    }

    fn jump_rel<C: CpuContext>(&mut self, ctx: &mut C)
        requires
            old(ctx).wf(),
            budget::<C>(old(ctx)@, 1),
        ensures
            final(ctx).wf(),
            (*final(self), final(ctx)@) == old(self).spec_jump_rel::<C>(old(ctx)@),
            C::spec_ticks(final(ctx)@) == C::spec_ticks(old(ctx)@) + (if old(self).taken() {
                4nat
            } else {
                0nat
            }),
    {
        if self.check_flags() {
            // The offset is a signed value
            self.registers.pc = add_signed(self.registers.pc, self.data8());
            ctx.tick_cycle();
        }
    }

    fn load<C: CpuContext>(&mut self, ctx: &mut C)
        requires
            old(ctx).wf(),
            budget::<C>(old(ctx)@, 2),
            old(self).resolved(),
            old(self).instruction.itype == InstructionType::LD,
        ensures
            final(ctx).wf(),
            (*final(self), final(ctx)@) == old(self).spec_load::<C>(old(ctx)@),
            C::spec_ticks(final(ctx)@) == C::spec_ticks(old(ctx)@) + 4 * execute_cycles(old(self).instruction, true),
    {
        proof {
            lemma_word_bits();
        }
        if self.dest_is_mem {
            if self.instruction.reg2.is_none() {
                // 0x36 LD [HL], n8
                ctx.write_cycle(self.mem_dest, self.data8());
                return;
            }
            let reg2 = self.instruction.reg2.unwrap();
            if reg2.is_16bit() {
                // 0x08 LD [a16], SP
                ctx.write_cycle(self.mem_dest, self.data8());  // lo
                ctx.write_cycle(self.mem_dest.wrapping_add(1), (self.fetched_data >> 8) as u8);  // hi
            } else {
                ctx.write_cycle(self.mem_dest, self.data8());
            }
            return;
        }
        let reg1 = self.instruction.reg1.unwrap();

        if self.instruction.mode == AddressMode::HL_SPR {
            let (result, flags) = add_sp(self.registers.sp, self.data8());
            self.registers.write16(Register::HL, result);
            self.registers.f = flags;
            ctx.tick_cycle();
            return;
        }
        if reg1.is_16bit() {
            self.registers.write16(reg1, self.fetched_data);
            if self.instruction.mode == AddressMode::R_R {
                ctx.tick_cycle();
            }
        } else {
            self.registers.write8(reg1, self.data8());
        }
    }

    fn load_high<C: CpuContext>(&mut self, ctx: &mut C)
        requires
            old(ctx).wf(),
            budget::<C>(old(ctx)@, 1),
            old(self).resolved(),
            old(self).instruction.itype == InstructionType::LDH,
        ensures
            final(ctx).wf(),
            (*final(self), final(ctx)@) == old(self).spec_load_high::<C>(old(ctx)@),
            C::spec_ticks(final(ctx)@) == C::spec_ticks(old(ctx)@) + 4 * execute_cycles(old(self).instruction, true),
    {
        if self.dest_is_mem {
            ctx.write_cycle(self.mem_dest, self.data8());
        } else {
            self.registers.write8(Register::A, self.data8());
        }
    }

    fn call<C: CpuContext>(&mut self, ctx: &mut C)
        requires
            old(ctx).wf(),
            budget::<C>(old(ctx)@, 3),
        ensures
            final(ctx).wf(),
            (*final(self), final(ctx)@) == old(self).spec_call::<C>(old(ctx)@),
            C::spec_ticks(final(ctx)@) == C::spec_ticks(old(ctx)@) + (if old(self).taken() {
                12nat
            } else {
                0nat
            }),
    {
        if self.check_flags() {
            let pc = self.registers.pc;
            self.push_value(ctx, pc);
            self.registers.pc = self.fetched_data;
        }
    }

    fn rst<C: CpuContext>(&mut self, ctx: &mut C)
        requires
            old(ctx).wf(),
            budget::<C>(old(ctx)@, 3),
            old(self).instruction.cond is None,
        ensures
            final(ctx).wf(),
            (*final(self), final(ctx)@) == old(self).spec_call::<C>(old(ctx)@),
            C::spec_ticks(final(ctx)@) == C::spec_ticks(old(ctx)@) + 12,
    {
        let pc = self.registers.pc;
        self.push_value(ctx, pc);
        self.registers.pc = self.fetched_data;
    }

    fn ret<C: CpuContext>(&mut self, ctx: &mut C)
        requires
            old(ctx).wf(),
            budget::<C>(old(ctx)@, 3),
        ensures
            final(ctx).wf(),
            (*final(self), final(ctx)@) == old(self).spec_ret::<C>(old(ctx)@),
            C::spec_ticks(final(ctx)@) == C::spec_ticks(old(ctx)@) + (if old(self).taken() {
                12nat
            } else {
                0nat
            }),
    {
        if self.check_flags() {
            self.registers.pc = self.pop_value(ctx);
            ctx.tick_cycle();
        }
    }

    /// POP rr
    ///
    /// Flags: Z N H C
    ///        - - - -
    /// Note! POP AF affects all flags
    fn pop<C: CpuContext>(&mut self, ctx: &mut C)
        requires
            old(ctx).wf(),
            budget::<C>(old(ctx)@, 2),
            is_r16(old(self).instruction.reg1),
        ensures
            final(ctx).wf(),
            (*final(self), final(ctx)@) == old(self).spec_pop::<C>(old(ctx)@),
            C::spec_ticks(final(ctx)@) == C::spec_ticks(old(ctx)@) + 8,
    {
        let value = self.pop_value(ctx);
        self.registers.write16(self.instruction.reg1.unwrap(), value);
    }

    fn pop_value<C: CpuContext>(&mut self, ctx: &mut C) -> (value: u16)
        requires
            old(ctx).wf(),
            budget::<C>(old(ctx)@, 2),
        ensures
            final(ctx).wf(),
            (value, *final(self), final(ctx)@) == old(self).spec_pop_value::<C>(old(ctx)@),
            C::spec_ticks(final(ctx)@) == C::spec_ticks(old(ctx)@) + 8,
    {
        proof {
            lemma_word_bits();
        }
        let lo = ctx.read_cycle(self.registers.sp);
        self.registers.sp = self.registers.sp.wrapping_add(1);
        let hi = ctx.read_cycle(self.registers.sp);
        self.registers.sp = self.registers.sp.wrapping_add(1);
        ((hi as u16) << 8) | (lo as u16)
    }

    /// PUSH rr
    ///
    /// Flags: Z N H C
    ///        - - - -
    fn push<C: CpuContext>(&mut self, ctx: &mut C)
        requires
            old(ctx).wf(),
            budget::<C>(old(ctx)@, 3),
            is_r16(old(self).instruction.reg1),
        ensures
            final(ctx).wf(),
            (*final(self), final(ctx)@) == old(self).spec_push_value::<C>(
                old(ctx)@,
                old(self).registers.spec_read16(old(self).instruction.reg1->0),
            ),
            C::spec_ticks(final(ctx)@) == C::spec_ticks(old(ctx)@) + 12,
    {
        let value: u16 = self.registers.read16(self.instruction.reg1.unwrap());
        self.push_value(ctx, value);
    }

    fn push_value<C: CpuContext>(&mut self, ctx: &mut C, value: u16)
        requires
            old(ctx).wf(),
            budget::<C>(old(ctx)@, 3),
        ensures
            final(ctx).wf(),
            (*final(self), final(ctx)@) == old(self).spec_push_value::<C>(old(ctx)@, value),
            C::spec_ticks(final(ctx)@) == C::spec_ticks(old(ctx)@) + 12,
    {
        proof {
            lemma_word_bits();
        }
        let msb: u8 = (value >> 8) as u8;
        let lsb: u8 = (value & 0x00FF) as u8;
        ctx.tick_cycle();
        self.registers.sp = self.registers.sp.wrapping_sub(1);
        ctx.write_cycle(self.registers.sp, msb);
        self.registers.sp = self.registers.sp.wrapping_sub(1);
        ctx.write_cycle(self.registers.sp, lsb);
    }

    /// CCF
    ///
    /// Flags: Z N H C
    ///        - 0 0 *
    fn ccf(&mut self)
        ensures
            *final(self) == old(self).with_flags(spec_ccf(old(self).registers.f)),
    {
        self.registers.set_nf(false);
        self.registers.set_hf(false);
        self.registers.set_cf(!self.registers.cf());
    }

    /// SCF
    ///
    /// Flags: Z N H C
    ///        - 0 0 1
    fn scf(&mut self)
        ensures
            *final(self) == old(self).with_flags(spec_scf(old(self).registers.f)),
    {
        self.registers.set_nf(false);
        self.registers.set_hf(false);
        self.registers.set_cf(true);
    }

    /// CPL
    ///
    /// Flags: Z N H C
    ///        - 1 1 -
    fn cpl(&mut self)
        ensures
            *final(self) == old(self).with_a_flags(spec_cpl(old(self).registers.a, old(self).registers.f)),
    {
        let (a, flags) = complement(self.registers.a, self.registers.f);
        self.registers.a = a;
        self.registers.f = flags;
    }

    /// DAA
    ///
    /// Flags: Z N H C
    ///        * - 0 *
    ///
    /// Brings the accumulator back to a binary-coded decimal after an
    /// addition or subtraction of two such numbers.
    fn daa(&mut self)
        ensures
            *final(self) == old(self).with_a_flags(spec_daa(old(self).data_byte(), old(self).registers.f)),
    {
        let (a, flags) = decimal_adjust(self.data8(), self.registers.f);
        self.registers.a = a;
        self.registers.f = flags;
    }

    /// ADC s
    ///
    /// Flags: Z N H C
    ///        * 0 * *
    fn adc(&mut self)
        ensures
            *final(self) == old(self).with_a_flags(
                spec_add8(old(self).registers.a, old(self).data_byte(), old(self).registers.f.carry),
            ),
    {
        let (a, flags) = add8(self.registers.a, self.data8(), self.registers.cf());
        self.registers.a = a;
        self.registers.f = flags;
    }

    /// ADD s
    ///
    /// Flags: Z N H C
    ///        * 0 * *
    fn add<C: CpuContext>(&mut self, ctx: &mut C)
        requires
            old(ctx).wf(),
            budget::<C>(old(ctx)@, 2),
            old(self).resolved(),
            old(self).instruction.itype == InstructionType::ADD,
        ensures
            final(ctx).wf(),
            (*final(self), final(ctx)@) == old(self).spec_add::<C>(old(ctx)@),
            C::spec_ticks(final(ctx)@) == C::spec_ticks(old(ctx)@) + 4 * execute_cycles(old(self).instruction, true),
    {
        let reg1 = self.instruction.reg1.unwrap();

        if reg1 == Register::SP {
            let (result, flags) = add_sp(self.registers.sp, self.data8());
            self.registers.f = flags;
            self.registers.sp = result;
            ctx.tick_cycle();
            ctx.tick_cycle();
            return;
        }
        if reg1 == Register::HL {
            let (result, flags) = add16(self.registers.read16(Register::HL), self.fetched_data, self.registers.f);
            self.registers.write16(Register::HL, result);
            self.registers.f = flags;
            ctx.tick_cycle();
            return;
        }
        let (a, flags) = add8(self.registers.a, self.data8(), false);
        self.registers.a = a;
        self.registers.f = flags;
    }

    /// CP s
    ///
    /// Flags: Z N H C
    ///        * 1 * *
    fn cp(&mut self)
        ensures
            *final(self) == old(self).with_flags(
                spec_sub8(old(self).registers.a, old(self).data_byte(), false).1,
            ),
    {
        let (_, flags) = sub8(self.registers.a, self.data8(), false);
        self.registers.f = flags;
    }

    /// SBC s
    ///
    /// Flags: Z N H C
    ///        * 1 * *
    fn sbc(&mut self)
        ensures
            *final(self) == old(self).with_a_flags(
                spec_sub8(old(self).registers.a, old(self).data_byte(), old(self).registers.f.carry),
            ),
    {
        let (a, flags) = sub8(self.registers.a, self.data8(), self.registers.cf());
        self.registers.a = a;
        self.registers.f = flags;
    }

    /// SUB s
    ///
    /// Flags: Z N H C
    ///        * 1 * *
    fn sub(&mut self)
        ensures
            *final(self) == old(self).with_a_flags(spec_sub8(old(self).registers.a, old(self).data_byte(), false)),
    {
        let (a, flags) = sub8(self.registers.a, self.data8(), false);
        self.registers.a = a;
        self.registers.f = flags;
    }

    /// AND s
    ///
    /// Flags: Z N H C
    ///        * 0 1 0
    fn and(&mut self)
        ensures
            *final(self) == old(self).with_a_flags(spec_and8(old(self).registers.a, old(self).data_byte())),
    {
        let (a, flags) = and8(self.registers.a, self.data8());
        self.registers.a = a;
        self.registers.f = flags;
    }

    /// OR s
    ///
    /// Flags: Z N H C
    ///        * 0 0 0
    fn or(&mut self)
        ensures
            *final(self) == old(self).with_a_flags(spec_or8(old(self).registers.a, old(self).data_byte())),
    {
        let (a, flags) = or8(self.registers.a, self.data8());
        self.registers.a = a;
        self.registers.f = flags;
    }

    /// XOR s
    ///
    /// Flags: Z N H C
    ///        * 0 0 0
    fn xor(&mut self)
        ensures
            *final(self) == old(self).with_a_flags(spec_xor8(old(self).registers.a, old(self).data_byte())),
    {
        let (a, flags) = xor8(self.registers.a, self.data8());
        self.registers.a = a;
        self.registers.f = flags;
    }

    /// Rotates the accumulator; Z is cleared whatever the result is.
    fn rotate_accumulator(&mut self, left: bool, circular: bool)
        ensures
            *final(self) == old(self).with_a_flags(
                without_zero(
                    if left {
                        spec_rotate_left(old(self).registers.a, circular, old(self).registers.f.carry)
                    } else {
                        spec_rotate_right(old(self).registers.a, circular, old(self).registers.f.carry)
                    },
                ),
            ),
    {
        let (a, flags) = if left {
            rotate_left(self.registers.a, circular, self.registers.cf())
        } else {
            rotate_right(self.registers.a, circular, self.registers.cf())
        };
        self.registers.a = a;
        self.registers.f = flags;
        self.registers.set_zf(false);
    }

    /// RLA (Rotate Left through Carry A)
    ///
    /// Flags: Z N H C
    ///        0 0 0 *
    fn rla(&mut self)
        ensures
            *final(self) == old(self).with_a_flags(
                without_zero(spec_rotate_left(old(self).registers.a, false, old(self).registers.f.carry)),
            ),
    {
        self.rotate_accumulator(true, false);
    }

    /// RLCA (Rotate Left Circular A)
    ///
    /// Flags: Z N H C
    ///        0 0 0 *
    fn rlca(&mut self)
        ensures
            *final(self) == old(self).with_a_flags(
                without_zero(spec_rotate_left(old(self).registers.a, true, old(self).registers.f.carry)),
            ),
    {
        self.rotate_accumulator(true, true);
    }

    /// RRA (Rotate Right through Carry A)
    ///
    /// Flags: Z N H C
    ///        0 0 0 *
    fn rra(&mut self)
        ensures
            *final(self) == old(self).with_a_flags(
                without_zero(spec_rotate_right(old(self).registers.a, false, old(self).registers.f.carry)),
            ),
    {
        self.rotate_accumulator(false, false);
    }

    /// RRCA (Rotate Right Circular A)
    ///
    /// Flags: Z N H C
    ///        0 0 0 *
    fn rrca(&mut self)
        ensures
            *final(self) == old(self).with_a_flags(
                without_zero(spec_rotate_right(old(self).registers.a, true, old(self).registers.f.carry)),
            ),
    {
        self.rotate_accumulator(false, true);
    }

    /// RLC | RL (Rotate Left)
    ///
    /// Flags: Z N H C
    ///        * 0 0 *
    fn rlc_rl<C: CpuContext>(&mut self, ctx: &mut C)
        requires
            old(ctx).wf(),
            budget::<C>(old(ctx)@, 1),
            old(self).resolved(),
            old(self).instruction.itype == InstructionType::RLC || old(self).instruction.itype == InstructionType::RL,
        ensures
            final(ctx).wf(),
            (*final(self), final(ctx)@) == old(self).spec_execute::<C>(old(ctx)@),
            C::spec_ticks(final(ctx)@) == C::spec_ticks(old(ctx)@) + 4 * execute_cycles(old(self).instruction, true),
    {
        let circular = self.instruction.itype == InstructionType::RLC;
        let (result, flags) = rotate_left(self.data8(), circular, self.registers.cf());
        self.write_back(ctx, result, flags);
    }

    /// RRC | RR (Rotate Right)
    ///
    /// Flags: Z N H C
    ///        * 0 0 *
    fn rrc_rc<C: CpuContext>(&mut self, ctx: &mut C)
        requires
            old(ctx).wf(),
            budget::<C>(old(ctx)@, 1),
            old(self).resolved(),
            old(self).instruction.itype == InstructionType::RRC || old(self).instruction.itype == InstructionType::RR,
        ensures
            final(ctx).wf(),
            (*final(self), final(ctx)@) == old(self).spec_execute::<C>(old(ctx)@),
            C::spec_ticks(final(ctx)@) == C::spec_ticks(old(ctx)@) + 4 * execute_cycles(old(self).instruction, true),
    {
        let circular = self.instruction.itype == InstructionType::RRC;
        let (result, flags) = rotate_right(self.data8(), circular, self.registers.cf());
        self.write_back(ctx, result, flags);
    }

    /// SLA (Shift Left Arithmetic)
    ///
    /// Flags: Z N H C
    ///        * 0 0 *
    fn sla<C: CpuContext>(&mut self, ctx: &mut C)
        requires
            old(ctx).wf(),
            budget::<C>(old(ctx)@, 1),
            old(self).resolved(),
            old(self).instruction.itype == InstructionType::SLA,
        ensures
            final(ctx).wf(),
            (*final(self), final(ctx)@) == old(self).spec_execute::<C>(old(ctx)@),
            C::spec_ticks(final(ctx)@) == C::spec_ticks(old(ctx)@) + 4 * execute_cycles(old(self).instruction, true),
    {
        let (result, flags) = shift_left_arithmetic(self.data8());
        self.write_back(ctx, result, flags);
    }

    /// SRA (Shift Right Arithmetic)
    ///
    /// Flags: Z N H C
    ///        * 0 0 *
    fn sra<C: CpuContext>(&mut self, ctx: &mut C)
        requires
            old(ctx).wf(),
            budget::<C>(old(ctx)@, 1),
            old(self).resolved(),
            old(self).instruction.itype == InstructionType::SRA,
        ensures
            final(ctx).wf(),
            (*final(self), final(ctx)@) == old(self).spec_execute::<C>(old(ctx)@),
            C::spec_ticks(final(ctx)@) == C::spec_ticks(old(ctx)@) + 4 * execute_cycles(old(self).instruction, true),
    {
        let (result, flags) = shift_right_arithmetic(self.data8());
        self.write_back(ctx, result, flags);
    }

    /// SWAP
    ///
    /// Flags: Z N H C
    ///        * 0 0 0
    fn swap<C: CpuContext>(&mut self, ctx: &mut C)
        requires
            old(ctx).wf(),
            budget::<C>(old(ctx)@, 1),
            old(self).resolved(),
            old(self).instruction.itype == InstructionType::SWAP,
        ensures
            final(ctx).wf(),
            (*final(self), final(ctx)@) == old(self).spec_execute::<C>(old(ctx)@),
            C::spec_ticks(final(ctx)@) == C::spec_ticks(old(ctx)@) + 4 * execute_cycles(old(self).instruction, true),
    {
        let (result, flags) = swap_nibbles(self.data8());
        self.write_back(ctx, result, flags);
    }

    /// SRL (Shift Right Logical)
    ///
    /// Flags: Z N H C
    ///        * 0 0 *
    fn srl<C: CpuContext>(&mut self, ctx: &mut C)
        requires
            old(ctx).wf(),
            budget::<C>(old(ctx)@, 1),
            old(self).resolved(),
            old(self).instruction.itype == InstructionType::SRL,
        ensures
            final(ctx).wf(),
            (*final(self), final(ctx)@) == old(self).spec_execute::<C>(old(ctx)@),
            C::spec_ticks(final(ctx)@) == C::spec_ticks(old(ctx)@) + 4 * execute_cycles(old(self).instruction, true),
    {
        let (result, flags) = shift_right_logical(self.data8());
        self.write_back(ctx, result, flags);
    }

    /// RES
    ///
    /// Flags: Z N H C
    ///        - - - -
    fn res<C: CpuContext>(&mut self, ctx: &mut C)
        requires
            old(ctx).wf(),
            budget::<C>(old(ctx)@, 1),
            old(self).resolved(),
            old(self).instruction.itype == InstructionType::RES,
        ensures
            final(ctx).wf(),
            (*final(self), final(ctx)@) == old(self).spec_execute::<C>(old(ctx)@),
            C::spec_ticks(final(ctx)@) == C::spec_ticks(old(ctx)@) + 4 * execute_cycles(old(self).instruction, true),
    {
        proof {
            lemma_byte_bits();
        }
        // The bit number is encoded in bits 3-5 of the opcode
        let n: u8 = (self.cur_opcode >> 3) & 0b111;
        let result = reset_bit(n, self.data8());
        let flags = self.registers.f;
        self.write_back(ctx, result, flags);
    }

    /// SET
    ///
    /// Flags: Z N H C
    ///        - - - -
    fn set<C: CpuContext>(&mut self, ctx: &mut C)
        requires
            old(ctx).wf(),
            budget::<C>(old(ctx)@, 1),
            old(self).resolved(),
            old(self).instruction.itype == InstructionType::SET,
        ensures
            final(ctx).wf(),
            (*final(self), final(ctx)@) == old(self).spec_execute::<C>(old(ctx)@),
            C::spec_ticks(final(ctx)@) == C::spec_ticks(old(ctx)@) + 4 * execute_cycles(old(self).instruction, true),
    {
        proof {
            lemma_byte_bits();
        }
        // The bit number is encoded in bits 3-5 of the opcode
        let n: u8 = (self.cur_opcode >> 3) & 0b111;
        let result = set_bit(n, self.data8());
        let flags = self.registers.f;
        self.write_back(ctx, result, flags);
    }

    /// BIT
    ///
    /// Flags: Z N H C
    ///        * 0 1 -
    fn bit(&mut self)
        ensures
            *final(self) == old(self).with_flags(
                spec_bit(bit_index(old(self).cur_opcode), old(self).data_byte(), old(self).registers.f),
            ),
    {
        proof {
            lemma_byte_bits();
        }
        // The bit number is encoded in bits 3-5 of the opcode
        let n: u8 = (self.cur_opcode >> 3) & 0b111;
        let flags = test_bit(n, self.data8(), self.registers.f);
        self.registers.f = flags;
    }
}

/// The operations that write to `PC`.
pub open spec fn is_control_flow(itype: InstructionType) -> bool {
    match itype {
        InstructionType::JP
        | InstructionType::JR
        | InstructionType::CALL
        | InstructionType::RST
        | InstructionType::RET
        | InstructionType::RETI => true,
        _ => false,
    }
}

/// The opcode that a running processor is about to fetch.
pub open spec fn next_opcode<C: CpuContext>(cpu: CPU, v: C::V) -> u8 {
    C::spec_peek(v, cpu.registers.pc)
}

/// The fetch and the operand resolution move `PC` past the instruction: by
/// the length that the manual gives for the opcode, modulo 65536. This holds
/// of the prefix `0xCB` and of every opcode of the unprefixed table.
pub proof fn lemma_pc_moves_past_instruction<C: CpuContext>(cpu: CPU, v: C::V)
    requires
        is_legal_opcode(next_opcode::<C>(cpu, v)) || next_opcode::<C>(cpu, v) == 0xCB,
    ensures
        ({
            let (s1, v1, legal) = cpu.spec_fetch_instruction::<C>(v);
            let (s2, v2) = s1.spec_fetch_data::<C>(v1);
            legal && s2.registers.pc as int == (cpu.registers.pc + canonical_length(next_opcode::<C>(cpu, v)))
                % 65536
        }),
{
    let o = next_opcode::<C>(cpu, v);
    let (s1, v1, legal) = cpu.spec_fetch_instruction::<C>(v);
    if o == 0xCB {
        lemma_prefixed_length_is_canonical(s1.cur_opcode);
        lemma_decoded_prefixed_shape(s1.cur_opcode);
        assert(s1.registers.pc as int == (cpu.registers.pc + 2) % 65536);
    } else {
        lemma_length_is_canonical(o);
        lemma_decoded_shape(o);
        assert(s1.registers.pc as int == (cpu.registers.pc + 1) % 65536);
    }
    lemma_operands_move_pc::<C>(s1, v1);
}

/// The operand resolution moves `PC` past the bytes that it reads there.
pub proof fn lemma_operands_move_pc<C: CpuContext>(cpu: CPU, v: C::V)
    requires
        shape_ok(cpu.instruction, cpu.cur_opcode),
    ensures
        cpu.spec_fetch_data::<C>(v).0.registers.pc as int == (cpu.registers.pc + operand_bytes(
            cpu.instruction,
        )) % 65536,
{
    let s = CPU { mem_dest: 0, dest_is_mem: false, ..cpu };
    let pc = cpu.registers.pc;
    match cpu.instruction.mode {
        AddressMode::R_D8
        | AddressMode::D8
        | AddressMode::HL_SPR
        | AddressMode::R_A8
        | AddressMode::A8_R
        | AddressMode::MR_D8 => {
            assert(s.spec_immediate8::<C>(v).0.registers.pc == pc.wrapping_add(1));
        },
        AddressMode::R_D16 | AddressMode::D16 | AddressMode::A16_R | AddressMode::D16_R | AddressMode::R_A16 => {
            assert(s.spec_immediate16::<C>(v).1.registers.pc == pc.wrapping_add(2));
        },
        _ => {},
    }
}

/// The operations other than jumps, calls and returns leave `PC` where the
/// operand resolution put it.
pub proof fn lemma_only_control_flow_writes_pc<C: CpuContext>(cpu: CPU, v: C::V)
    requires
        cpu.resolved(),
        !is_control_flow(cpu.instruction.itype),
    ensures
        cpu.spec_execute::<C>(v).0.registers.pc == cpu.registers.pc,
{
    let regs = cpu.registers;
    let i = cpu.instruction;
    let f = regs.f;
    let byte = cpu.data_byte();
    let n = bit_index(cpu.cur_opcode);
    match i.itype {
        InstructionType::INC => {
            lemma_writes_keep_pc(regs, i.reg1->0, 0, cpu.fetched_data.wrapping_add(1));
            lemma_write_back_keeps_pc::<C>(cpu, v, spec_inc8(byte, f));
        },
        InstructionType::DEC => {
            lemma_writes_keep_pc(regs, i.reg1->0, 0, cpu.fetched_data.wrapping_sub(1));
            lemma_write_back_keeps_pc::<C>(cpu, v, spec_dec8(byte, f));
        },
        InstructionType::LD => {
            if !cpu.dest_is_mem {
                if i.mode == AddressMode::HL_SPR {
                    lemma_writes_keep_pc(regs, Register::HL, 0, spec_add_sp(regs.sp, cpu.data_byte()).0);
                } else {
                    lemma_writes_keep_pc(regs, i.reg1->0, low_byte(cpu.fetched_data), cpu.fetched_data);
                }
            }
        },
        InstructionType::ADD => {
            lemma_writes_keep_pc(
                regs,
                Register::HL,
                0,
                spec_add16(regs.spec_read16(Register::HL), cpu.fetched_data, regs.f).0,
            );
        },
        InstructionType::POP => {
            let (value, s, v1) = cpu.spec_pop_value::<C>(v);
            lemma_writes_keep_pc(s.registers, i.reg1->0, 0, value);
        },
        InstructionType::RLC => lemma_write_back_keeps_pc::<C>(cpu, v, spec_rotate_left(byte, true, f.carry)),
        InstructionType::RL => lemma_write_back_keeps_pc::<C>(cpu, v, spec_rotate_left(byte, false, f.carry)),
        InstructionType::RRC => lemma_write_back_keeps_pc::<C>(cpu, v, spec_rotate_right(byte, true, f.carry)),
        InstructionType::RR => lemma_write_back_keeps_pc::<C>(cpu, v, spec_rotate_right(byte, false, f.carry)),
        InstructionType::SLA => lemma_write_back_keeps_pc::<C>(cpu, v, spec_sla(byte)),
        InstructionType::SRA => lemma_write_back_keeps_pc::<C>(cpu, v, spec_sra(byte)),
        InstructionType::SWAP => lemma_write_back_keeps_pc::<C>(cpu, v, spec_swap(byte)),
        InstructionType::SRL => lemma_write_back_keeps_pc::<C>(cpu, v, spec_srl(byte)),
        InstructionType::RES => lemma_write_back_keeps_pc::<C>(cpu, v, (spec_res(n, byte), f)),
        InstructionType::SET => lemma_write_back_keeps_pc::<C>(cpu, v, (spec_set(n, byte), f)),
        _ => {},
    }
}

/// A result that is written back does not go to `PC`.
proof fn lemma_write_back_keeps_pc<C: CpuContext>(cpu: CPU, v: C::V, r: (u8, Flags))
    requires
        cpu.dest_is_mem || (cpu.instruction.reg1 is Some && cpu.instruction.reg1 != Some(Register::PC)),
    ensures
        cpu.spec_write_back::<C>(v, r).0.registers.pc == cpu.registers.pc,
{
    if !cpu.dest_is_mem {
        lemma_writes_keep_pc(cpu.with_flags(r.1).registers, cpu.instruction.reg1->0, r.0, 0);
    }
}

/// A write to a register other than `PC` leaves `PC` as it is.
pub proof fn lemma_writes_keep_pc(regs: RegisterFile, reg: Register, byte: u8, wide: u16)
    requires
        reg != Register::PC,
    ensures
        regs.spec_write8(reg, byte).pc == regs.pc,
        regs.spec_write16(reg, wide).pc == regs.pc,
{
}

/// After an instruction that is no jump, call or return, `PC` has advanced
/// by the length that the manual gives for its opcode, modulo 65536.
pub proof fn lemma_instruction_advances_pc<C: CpuContext>(cpu: CPU, v: C::V)
    requires
        is_legal_opcode(next_opcode::<C>(cpu, v)) || next_opcode::<C>(cpu, v) == 0xCB,
        !is_control_flow(cpu.spec_fetch_instruction::<C>(v).0.instruction.itype),
    ensures
        cpu.spec_run_instruction::<C>(v).0.registers.pc as int == (cpu.registers.pc + canonical_length(
            next_opcode::<C>(cpu, v),
        )) % 65536,
{
    lemma_pc_moves_past_instruction::<C>(cpu, v);
    let (s1, v1, legal) = cpu.spec_fetch_instruction::<C>(v);
    let (s2, v2) = s1.spec_fetch_data::<C>(v1);
    if next_opcode::<C>(cpu, v) == 0xCB {
        lemma_decoded_prefixed_shape(s1.cur_opcode);
    } else {
        lemma_decoded_shape(s1.cur_opcode);
    }
    assert(s2.instruction == s1.instruction);
    assert(s2.cur_opcode == s1.cur_opcode);
    assert(s2.resolved());
    lemma_only_control_flow_writes_pc::<C>(s2, v2);
}

/// The memory cycles that the interpreter spends on an instruction (which
/// `step` shows on the context's clock) are those that the manual gives for
/// its opcode, for a branch that is taken and for one that is not. This
/// holds of every prefixed instruction and of every unprefixed one but the
/// conditional returns, which the interpreter runs in one cycle if not taken
/// and in four if taken where the manual says two and five, and `JP HL`,
/// which it runs in two where the manual says one.
pub proof fn lemma_instruction_cycles_are_canonical<C: CpuContext>(cpu: CPU, v: C::V)
    requires
        is_legal_opcode(next_opcode::<C>(cpu, v)) || next_opcode::<C>(cpu, v) == 0xCB,
        !timing_differs(next_opcode::<C>(cpu, v)),
    ensures
        ({
            let fetched = cpu.spec_fetch_instruction::<C>(v).0;
            cpu.spec_instruction_cycles::<C>(v) == (if next_opcode::<C>(cpu, v) == 0xCB {
                canonical_prefixed_cycles(fetched.cur_opcode)
            } else {
                canonical_cycles(next_opcode::<C>(cpu, v), fetched.taken())
            })
        }),
{
    let fetched = cpu.spec_fetch_instruction::<C>(v).0;
    if next_opcode::<C>(cpu, v) == 0xCB {
        lemma_prefixed_cycles_are_canonical(fetched.cur_opcode, fetched.taken());
    } else {
        lemma_cycles_are_canonical(next_opcode::<C>(cpu, v), fetched.taken());
    }
}

impl Default for CPU {
    fn default() -> (cpu: CPU)
        ensures
            cpu == CPU::spec_new(),
    {
        CPU::new()
    }
}

} // verus!
