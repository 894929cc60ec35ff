//! The processor: its registers, its instructions and its fetch-decode-execute loop.
//!
//! The model of a [`CPU`] is a [`CpuState`]: the four registers and the bytes of its
//! memory. Each method is proved to compute the function on states that
//! [`crate::model`] defines for it.
use vstd::prelude::*;
use crate::flags::{
    NEGATIVE_FLAG,
    ZERO_FLAG,
    flag_is_set,
    is_set,
    lemma_sign_bit,
    lemma_with_zero_and_negative,
    set_flag,
    sign_bit,
    with_flag,
};
use crate::instruction::{AddressingMode, Mnemonic, decode};
use crate::memory::{ADDRESS_SPACE_SIZE, AddressSpace, read16, read8, write16, write8};
use crate::model::CpuState;

verus! {

broadcast use AddressSpace::lemma_size;

/// Address of the reset vector: the word stored there is where execution starts after a
/// reset.
pub const RESET_VECTOR: u16 = 0xFFFC;

/// Address at which [`CPU::load_and_run`] places a program.
pub const PROGRAM_ORIGIN: u16 = 0x8000;

/// The two states of the execution loop.
#[derive(Clone, Copy, Debug, PartialEq, Eq, Structural)]
pub enum RunState {
    /// The loop goes on with the next instruction.
    Running,
    /// A Break has stopped the loop.
    Halted,
}

/// What stops a load or a run.
#[derive(Clone, Copy, Debug, PartialEq, Eq, Structural)]
pub enum CpuError {
    /// The byte fetched as an opcode is not in the opcode table. The run is over.
    UnimplementedOpcode {
        /// The byte that was fetched.
        opcode: u8,
        /// The address it was fetched from.
        address: u16,
    },
    /// The image does not fit between its origin and the end of the address space.
    /// Nothing was written.
    LoadOverflow {
        /// Where the image was to start.
        origin: u16,
        /// Number of bytes in the image.
        length: usize,
    },
}

/// A 6502-class processor with its own 64 KiB of memory.
pub struct CPU {
    /// The accumulator.
    pub register_a: u8,
    /// Index register X.
    pub register_x: u8,
    /// The status flags; see [`crate::flags`] for the bits.
    pub status: u8,
    /// Address of the next byte to fetch.
    pub program_counter: u16,
    /// The address space that the processor reads and writes.
    pub memory: AddressSpace,
}

impl View for CPU {
    type V = CpuState;

    open spec fn view(&self) -> CpuState {
        CpuState {
            register_a: self.register_a,
            register_x: self.register_x,
            status: self.status,
            program_counter: self.program_counter,
            memory: self.memory@,
        }
    }
}

impl Default for CPU {
    /// A processor in which every register and every byte of memory is zero.
    fn default() -> (cpu: Self)
        ensures
            cpu@ == CpuState::initial(),
    {
        CPU::new()
    }
}

impl CPU {
    /// A processor in which every register and every byte of memory is zero.
    pub fn new() -> (cpu: Self)
        ensures
            cpu@ == CpuState::initial(),
    {
        CPU {
            register_a: 0,
            register_x: 0,
            status: 0,
            program_counter: 0,
            memory: AddressSpace::new(),
        }
    }

    /// The byte stored at `addr`.
    pub fn mem_read(&self, addr: u16) -> (data: u8)
        ensures
            data == read8(self@.memory, addr),
    {
        self.memory.read8(addr)
    }

    /// Stores `data` at `addr`. No other byte and no register changes.
    pub fn mem_write(&mut self, addr: u16, data: u8)
        ensures
            final(self)@ == (CpuState {
                memory: write8(old(self)@.memory, addr, data),
                ..old(self)@
            }),
    {
        self.memory.write8(addr, data);
    }

    /// The little-endian word stored at `pos` and `pos + 1`.
    pub fn mem_read_u16(&self, pos: u16) -> (data: u16)
        requires
            pos < 0xFFFF,
        ensures
            data == read16(self@.memory, pos),
    {
        self.memory.read16(pos)
    }

    /// Stores `data` little-endian at `pos` and `pos + 1`. No other byte and no register
    /// changes.
    pub fn mem_write_u16(&mut self, pos: u16, data: u16)
        requires
            pos < 0xFFFF,
        ensures
            final(self)@ == (CpuState {
                memory: write16(old(self)@.memory, pos, data),
                ..old(self)@
            }),
    {
        self.memory.write16(pos, data);
    }

    /// Puts the processor into its reset state: accumulator, index register and flags
    /// become zero, and the program counter is read from the reset vector. Memory is kept.
    pub fn reset(&mut self)
        ensures
            final(self)@ == old(self)@.reset(),
    {
        self.register_a = 0;
        self.register_x = 0;
        self.status = 0;
        self.program_counter = self.mem_read_u16(RESET_VECTOR);
    }

    /// Copies `program` into memory from `origin` upwards and then writes `origin` to the
    /// reset vector, so that the next reset starts execution there.
    ///
    /// A program that does not end inside the address space is refused with
    /// [`CpuError::LoadOverflow`] before anything is written.
    pub fn load(&mut self, program: Vec<u8>, origin: u16) -> (result: Result<(), CpuError>)
        ensures
            origin + program@.len() <= ADDRESS_SPACE_SIZE ==> result == Ok::<(), CpuError>(())
                && final(self)@ == old(self)@.load(program@, origin),
            origin + program@.len() > ADDRESS_SPACE_SIZE ==> result == Err::<(), CpuError>(
                CpuError::LoadOverflow { origin, length: program@.len() as usize },
            ) && final(self)@ == old(self)@,
    {
        if program.len() > ADDRESS_SPACE_SIZE - origin as usize {
            return Err(CpuError::LoadOverflow { origin, length: program.len() });
        }
        self.memory.write_block(origin, program.as_slice());
        self.mem_write_u16(RESET_VECTOR, origin);
        Ok(())
    }

    /// Resolves the operand of an instruction in mode `mode` to its address and moves the
    /// program counter past the operand. The opcode has been fetched, and the operand
    /// lies inside the address space.
    pub fn resolve_address(&mut self, mode: AddressingMode) -> (address: Option<u16>)
        requires
            old(self)@.program_counter + mode.spec_operand_width() <= 0xFFFF,
        ensures
            address == old(self)@.operand_address(mode),
            final(self)@ == old(self)@.advanced(mode.spec_operand_width()),
    {
        let address = match mode {
            AddressingMode::Implied => None,
            AddressingMode::Immediate => Some(self.program_counter),
        };
        self.program_counter = self.program_counter + mode.operand_width();
        address
    }

    /// Resolves the operand of an instruction in mode `mode` to its value and moves the
    /// program counter past the operand. The opcode has been fetched, and the operand
    /// lies inside the address space.
    pub fn resolve_value(&mut self, mode: AddressingMode) -> (value: Option<u8>)
        requires
            old(self)@.program_counter + mode.spec_operand_width() <= 0xFFFF,
        ensures
            value == old(self)@.operand_value(mode),
            final(self)@ == old(self)@.advanced(mode.spec_operand_width()),
    {
        match self.resolve_address(mode) {
            Some(address) => Some(self.mem_read(address)),
            None => None,
        }
    }

    /// Executes the operation `mnemonic` on `operand` and says whether the loop goes on.
    /// Load Accumulator needs its operand.
    pub fn execute(&mut self, mnemonic: Mnemonic, operand: Option<u8>) -> (state: RunState)
        requires
            mnemonic is Lda ==> operand is Some,
        ensures
            (final(self)@, state) == old(self)@.execute(mnemonic, operand),
    {
        match mnemonic {
            Mnemonic::Brk => RunState::Halted,
            Mnemonic::Lda => {
                match operand {
                    Some(value) => self.lda(value),
                    None => {},
                }
                RunState::Running
            },
            Mnemonic::Tax => {
                self.tax();
                RunState::Running
            },
            Mnemonic::Inx => {
                self.inx();
                RunState::Running
            },
        }
    }

    /// Whether the instruction at the program counter lies inside the address space, so
    /// that [`CPU::step`] can be taken.
    pub fn can_step(&self) -> (fits: bool)
        ensures
            fits == self@.can_step(),
    {
        let width = match decode(self.mem_read(self.program_counter)) {
            Some(instruction) => instruction.operand_width(),
            None => 0,
        };
        self.program_counter < 0xFFFF - width
    }

    /// One turn of the fetch-decode-execute loop.
    ///
    /// Fetches the opcode at the program counter and moves the program counter past it.
    /// If the opcode table does not hold the byte, nothing else changes and the step
    /// reports [`CpuError::UnimplementedOpcode`] with the byte and its address. Otherwise
    /// the operand is resolved, the instruction is executed, and the step reports whether
    /// the loop goes on. The instruction has to lie inside the address space.
    pub fn step(&mut self) -> (result: Result<RunState, CpuError>)
        requires
            old(self)@.can_step(),
        ensures
            (final(self)@, result) == old(self)@.step(),
    {
        let address = self.program_counter;
        let opcode = self.mem_read(address);
        self.program_counter = address + 1;
        match decode(opcode) {
            None => Err(CpuError::UnimplementedOpcode { opcode, address }),
            Some(instruction) => {
                let operand = self.resolve_value(instruction.mode);
                Ok(self.execute(instruction.mnemonic, operand))
            },
        }
    }

    /// Runs the fetch-decode-execute loop until a Break halts it, which is reported as
    /// `Ok`, or a byte that is no opcode stops it, which is reported as
    /// [`CpuError::UnimplementedOpcode`] with the byte and its address. The run has to
    /// stay inside the address space. It does not write to memory.
    pub fn run(&mut self) -> (result: Result<(), CpuError>)
        requires
            old(self)@.can_run(),
        ensures
            old(self)@.run() == Some((final(self)@, result)),
            final(self)@.memory == old(self)@.memory,
            result matches Err(error) ==> error is UnimplementedOpcode,
    {
        loop
            invariant
                old(self)@.can_run(),
                self@.run() == old(self)@.run(),
            decreases ADDRESS_SPACE_SIZE - self.program_counter,
        {
            match self.step() {
                Ok(RunState::Running) => {},
                Ok(RunState::Halted) => {
                    proof {
                        old(self)@.lemma_run_end();
                    }
                    return Ok(());
                },
                Err(error) => {
                    proof {
                        old(self)@.lemma_run_end();
                    }
                    return Err(error);
                },
            }
        }
    }

    /// Loads `program` at [`PROGRAM_ORIGIN`], resets the processor and runs the program.
    ///
    /// A program of more than `0x8000` bytes does not fit and is refused with
    /// [`CpuError::LoadOverflow`]; the processor is then as it was. Any other program is
    /// run to its end: the run cannot leave the address space, because it ends at the
    /// reset vector at the latest.
    pub fn load_and_run(&mut self, program: Vec<u8>) -> (result: Result<(), CpuError>)
        ensures
            PROGRAM_ORIGIN + program@.len() > ADDRESS_SPACE_SIZE ==> result == Err::<
                (),
                CpuError,
            >(CpuError::LoadOverflow { origin: PROGRAM_ORIGIN, length: program@.len() as usize })
                && final(self)@ == old(self)@,
            PROGRAM_ORIGIN + program@.len() <= ADDRESS_SPACE_SIZE ==> old(self)@.load(
                program@,
                PROGRAM_ORIGIN,
            ).reset().run() == Some((final(self)@, result)),
            result matches Err(CpuError::LoadOverflow { .. }) ==> PROGRAM_ORIGIN + program@.len()
                > ADDRESS_SPACE_SIZE,
    {
        proof {
            if PROGRAM_ORIGIN + program@.len() <= ADDRESS_SPACE_SIZE {
                old(self)@.lemma_loaded_program_can_run(program@);
            }
        }
        match self.load(program, PROGRAM_ORIGIN) {
            Ok(()) => {},
            Err(error) => {
                return Err(error);
            },
        }
        self.reset();
        self.run()
    }

    /// Load Accumulator: the accumulator becomes `value`; Zero is set exactly if `value`
    /// is zero, Negative exactly if bit 7 of `value` is set, and no other flag changes.
    pub fn lda(&mut self, value: u8)
        ensures
            final(self)@ == old(self)@.lda(value),
            final(self).register_a == value,
            flag_is_set(final(self).status, ZERO_FLAG) <==> value == 0,
            flag_is_set(final(self).status, NEGATIVE_FLAG) <==> sign_bit(value),
            final(self).status & !(ZERO_FLAG | NEGATIVE_FLAG) == old(self).status & !(ZERO_FLAG
                | NEGATIVE_FLAG),
    {
        proof {
            old(self)@.lemma_lda(value);
        }
        self.register_a = value;
        self.update_zero_and_negative_flags(self.register_a);
    }

    /// Transfer Accumulator to X: index register X becomes the accumulator's value, and
    /// Zero and Negative follow it.
    pub fn tax(&mut self)
        ensures
            final(self)@ == old(self)@.tax(),
            final(self).register_x == old(self).register_a,
    {
        self.register_x = self.register_a;
        self.update_zero_and_negative_flags(self.register_x);
    }

    /// Increment X: index register X goes up by one, from 255 round to 0, and Zero and
    /// Negative follow the new value. No other flag records the wrap.
    pub fn inx(&mut self)
        ensures
            final(self)@ == old(self)@.inx(),
            final(self).register_x == (if old(self).register_x == 0xFF {
                0
            } else {
                old(self).register_x + 1
            }),
    {
        self.register_x = self.register_x.wrapping_add(1);
        self.update_zero_and_negative_flags(self.register_x);
    }

    /// Takes Zero and Negative from `register` and keeps every other flag: Zero is set
    /// exactly if `register` is zero, Negative exactly if bit 7 of `register` is set.
    pub fn update_zero_and_negative_flags(&mut self, register: u8)
        ensures
            final(self)@ == old(self)@.flagged(register),
            flag_is_set(final(self).status, ZERO_FLAG) <==> register == 0,
            flag_is_set(final(self).status, NEGATIVE_FLAG) <==> sign_bit(register),
            final(self).status & !(ZERO_FLAG | NEGATIVE_FLAG) == old(self).status & !(ZERO_FLAG
                | NEGATIVE_FLAG),
    {
        proof {
            lemma_with_zero_and_negative(self.status, register);
        }
        self.update_zero_flag(register);
        self.update_negative_flag(register);
    }

    /// Sets Negative if bit 7 of `register` is set and clears it if not. No other flag
    /// changes.
    pub fn update_negative_flag(&mut self, register: u8)
        ensures
            final(self)@ == (CpuState {
                status: with_flag(old(self)@.status, NEGATIVE_FLAG, sign_bit(register)),
                ..old(self)@
            }),
    {
        proof {
            lemma_sign_bit(register);
        }
        self.status = set_flag(self.status, NEGATIVE_FLAG, is_set(register, NEGATIVE_FLAG));
    }

    /// Sets Zero if `register` is zero and clears it if not. No other flag changes.
    pub fn update_zero_flag(&mut self, register: u8)
        ensures
            final(self)@ == (CpuState {
                status: with_flag(old(self)@.status, ZERO_FLAG, register == 0),
                ..old(self)@
            }),
    {
        self.status = set_flag(self.status, ZERO_FLAG, register == 0);
    }
}

} // verus!
