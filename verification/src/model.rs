//! The processor as mathematics: its state as a value, and each of its operations as a
//! function on states.
//!
//! Nothing here is executed. The methods of [`crate::cpu::CPU`] are proved to compute
//! these functions, and the lemmas of this module say what the functions do.
use vstd::prelude::*;
use crate::cpu::{CpuError, PROGRAM_ORIGIN, RESET_VECTOR, RunState};
use crate::flags::{
    NEGATIVE_FLAG,
    ZERO_FLAG,
    flag_is_set,
    lemma_with_zero_and_negative,
    lemma_with_zero_and_negative_twice,
    sign_bit,
    with_zero_and_negative,
};
use crate::instruction::{
    AddressingMode,
    Mnemonic,
    OPCODE_BRK,
    OPCODE_INX,
    OPCODE_LDA_IMMEDIATE,
    OPCODE_TAX,
    opcode_table,
    operand_width_of,
};
use crate::memory::{
    ADDRESS_SPACE_SIZE,
    lemma_write16_read16,
    read16,
    read8,
    write16,
    write_block,
};

verus! {

/// What a [`crate::cpu::CPU`] holds: the value that its contracts speak of.
#[verifier::ext_equal]
pub struct CpuState {
    /// The accumulator.
    pub register_a: u8,
    /// Index register X.
    pub register_x: u8,
    /// The status flags.
    pub status: u8,
    /// Address of the next byte to fetch.
    pub program_counter: u16,
    /// The bytes of the address space.
    pub memory: Seq<u8>,
}

impl CpuState {
    /// The state of a new processor: every register and every byte of memory is zero.
    pub open spec fn initial() -> CpuState {
        CpuState {
            register_a: 0,
            register_x: 0,
            status: 0,
            program_counter: 0,
            memory: Seq::new(ADDRESS_SPACE_SIZE as nat, |addr: int| 0u8),
        }
    }

    /// The state after a reset: accumulator, index register and flags are zero, and the
    /// program counter is the word stored at the reset vector. Memory is kept.
    pub open spec fn reset(self) -> CpuState {
        CpuState {
            register_a: 0,
            register_x: 0,
            status: 0,
            program_counter: read16(self.memory, RESET_VECTOR),
            memory: self.memory,
        }
    }

    /// The state with Zero and Negative taken from `value` and everything else kept.
    pub open spec fn flagged(self, value: u8) -> CpuState {
        CpuState { status: with_zero_and_negative(self.status, value), ..self }
    }

    /// Load Accumulator: the accumulator becomes `value`, and Zero and Negative follow it.
    pub open spec fn lda(self, value: u8) -> CpuState {
        CpuState { register_a: value, ..self }.flagged(value)
    }

    /// Transfer Accumulator to X: index register X becomes the accumulator's value, and
    /// Zero and Negative follow it.
    pub open spec fn tax(self) -> CpuState {
        CpuState { register_x: self.register_a, ..self }.flagged(self.register_a)
    }

    /// Increment X: index register X goes up by one, from 255 round to 0, and Zero and
    /// Negative follow the new value.
    pub open spec fn inx(self) -> CpuState {
        let incremented = ((self.register_x + 1) % 256) as u8;
        CpuState { register_x: incremented, ..self }.flagged(incremented)
    }

    /// The state after `image` has been loaded at `origin`: memory holds the image from
    /// `origin` upwards and then, written over whatever was there, `origin` itself at the
    /// reset vector. The registers are kept.
    pub open spec fn load(self, image: Seq<u8>, origin: u16) -> CpuState {
        CpuState {
            memory: write16(write_block(self.memory, origin, image), RESET_VECTOR, origin),
            ..self
        }
    }

    /// The state with the program counter moved up by `bytes`.
    pub open spec fn advanced(self, bytes: u16) -> CpuState {
        CpuState { program_counter: (self.program_counter + bytes) as u16, ..self }
    }

    /// Address of the operand of an instruction in mode `mode` whose opcode has just been
    /// fetched: for an immediate operand the address of the byte after the opcode, where
    /// the program counter now points.
    pub open spec fn operand_address(self, mode: AddressingMode) -> Option<u16> {
        match mode {
            AddressingMode::Implied => None,
            AddressingMode::Immediate => Some(self.program_counter),
        }
    }

    /// Value of the operand of an instruction in mode `mode` whose opcode has just been
    /// fetched: the byte at the operand's address.
    pub open spec fn operand_value(self, mode: AddressingMode) -> Option<u8> {
        match self.operand_address(mode) {
            Some(address) => Some(read8(self.memory, address)),
            None => None,
        }
    }

    /// The effect of the operation `mnemonic` on `operand`, and whether the loop goes on.
    /// Break changes nothing and halts; the other operations leave the loop running.
    pub open spec fn execute(self, mnemonic: Mnemonic, operand: Option<u8>) -> (
        CpuState,
        RunState,
    ) {
        match mnemonic {
            Mnemonic::Brk => (self, RunState::Halted),
            Mnemonic::Lda => (self.lda(operand.unwrap()), RunState::Running),
            Mnemonic::Tax => (self.tax(), RunState::Running),
            Mnemonic::Inx => (self.inx(), RunState::Running),
        }
    }

    /// The byte at the program counter: the opcode that the next step fetches.
    pub open spec fn opcode(self) -> u8 {
        read8(self.memory, self.program_counter)
    }

    /// Whether the next step stays inside the address space: the opcode and its operand
    /// lie below the last address, so that the program counter can move past them.
    pub open spec fn can_step(self) -> bool {
        self.program_counter + 1 + operand_width_of(self.opcode()) <= 0xFFFF
    }

    /// One turn of the fetch-decode-execute loop: the state it leaves and what it reports.
    ///
    /// The opcode is fetched and the program counter moves past it. A byte that the opcode
    /// table does not hold ends the run there, with no other change. Otherwise the program
    /// counter moves past the operand and the instruction is executed on it.
    pub open spec fn step(self) -> (CpuState, Result<RunState, CpuError>) {
        let fetched = self.advanced(1);
        match opcode_table(self.opcode()) {
            None => (
                fetched,
                Err(
                    CpuError::UnimplementedOpcode {
                        opcode: self.opcode(),
                        address: self.program_counter,
                    },
                ),
            ),
            Some(instruction) => {
                let operand = fetched.operand_value(instruction.mode);
                let resolved = fetched.advanced(instruction.mode.spec_operand_width());
                let (next, state) = resolved.execute(instruction.mnemonic, operand);
                (next, Ok(state))
            },
        }
    }

    /// A run from this state: the state it ends in and what it reports, or `None` if the
    /// run leaves the address space. Steps are taken until one halts, which is reported
    /// as `Ok`, or fails, which is reported with its error.
    pub open spec fn run(self) -> Option<(CpuState, Result<(), CpuError>)>
        decreases ADDRESS_SPACE_SIZE - self.program_counter,
    {
        if !self.can_step() {
            None
        } else {
            match self.step().1 {
                Ok(RunState::Running) => self.step().0.run(),
                Ok(RunState::Halted) => Some((self.step().0, Ok(()))),
                Err(error) => Some((self.step().0, Err(error))),
            }
        }
    }

    /// Whether a run from this state stays inside the address space: every step up to the
    /// one that ends the run can be taken.
    pub open spec fn can_run(self) -> bool {
        self.run() is Some
    }

    /// A step consumes exactly the instruction it executes: the program counter moves
    /// past the opcode and its operand, and never back. A step does not write to memory.
    pub proof fn lemma_step_advances(self)
        requires
            self.can_step(),
        ensures
            self.step().0.program_counter == self.program_counter + 1 + operand_width_of(
                self.opcode(),
            ),
            self.step().0.memory == self.memory,
    {
    }

    /// A step read off the opcode: Break halts; Load Accumulator loads the byte after the
    /// opcode; Transfer Accumulator to X and Increment X act on the registers alone; any
    /// other byte is reported with its address. The program counter has moved past what
    /// was fetched, two bytes for Load Accumulator and one for the rest.
    pub proof fn lemma_step_by_opcode(self)
        requires
            self.can_step(),
        ensures
            self.opcode() == OPCODE_BRK ==> self.step() == (
                self.advanced(1),
                Ok::<RunState, CpuError>(RunState::Halted),
            ),
            self.opcode() == OPCODE_LDA_IMMEDIATE ==> self.step() == (
                self.advanced(2).lda(read8(self.memory, (self.program_counter + 1) as u16)),
                Ok::<RunState, CpuError>(RunState::Running),
            ),
            self.opcode() == OPCODE_TAX ==> self.step() == (
                self.advanced(1).tax(),
                Ok::<RunState, CpuError>(RunState::Running),
            ),
            self.opcode() == OPCODE_INX ==> self.step() == (
                self.advanced(1).inx(),
                Ok::<RunState, CpuError>(RunState::Running),
            ),
            opcode_table(self.opcode()) is None ==> self.step() == (
                self.advanced(1),
                Err::<RunState, CpuError>(
                    CpuError::UnimplementedOpcode {
                        opcode: self.opcode(),
                        address: self.program_counter,
                    },
                ),
            ),
    {
    }

    /// Load Accumulator with an immediate operand: when the opcode at the program counter
    /// is that of Load Accumulator and `value` is the byte after it, the step leaves
    /// `value` in the accumulator, Zero set exactly if `value` is zero, Negative set
    /// exactly if bit 7 of `value` is set, and every other flag as it was. The program
    /// counter has moved past both bytes; index register X and memory are unchanged.
    pub proof fn lemma_lda_immediate_step(self, value: u8)
        requires
            self.program_counter + 2 <= 0xFFFF,
            self.opcode() == OPCODE_LDA_IMMEDIATE,
            read8(self.memory, (self.program_counter + 1) as u16) == value,
        ensures
            self.can_step(),
            self.step().1 == Ok::<RunState, CpuError>(RunState::Running),
            self.step().0.register_a == value,
            flag_is_set(self.step().0.status, ZERO_FLAG) <==> value == 0,
            flag_is_set(self.step().0.status, NEGATIVE_FLAG) <==> sign_bit(value),
            self.step().0.status & !(ZERO_FLAG | NEGATIVE_FLAG) == self.status & !(ZERO_FLAG
                | NEGATIVE_FLAG),
            self.step().0.register_x == self.register_x,
            self.step().0.program_counter == self.program_counter + 2,
            self.step().0.memory == self.memory,
    {
        lemma_with_zero_and_negative(self.status, value);
    }

    /// Load Accumulator on its own: `value` is in the accumulator, Zero is set exactly if
    /// `value` is zero, Negative exactly if bit 7 of `value` is set, and nothing else has
    /// changed, the other six flags included.
    pub proof fn lemma_lda(self, value: u8)
        ensures
            self.lda(value).register_a == value,
            flag_is_set(self.lda(value).status, ZERO_FLAG) <==> value == 0,
            flag_is_set(self.lda(value).status, NEGATIVE_FLAG) <==> sign_bit(value),
            self.lda(value).status & !(ZERO_FLAG | NEGATIVE_FLAG) == self.status & !(ZERO_FLAG
                | NEGATIVE_FLAG),
            self.lda(value).register_x == self.register_x,
            self.lda(value).program_counter == self.program_counter,
            self.lda(value).memory == self.memory,
    {
        lemma_with_zero_and_negative(self.status, value);
    }

    /// Transfer Accumulator to X twice in a row is the same as once: index register X
    /// holds the accumulator's value, and the second transfer changes nothing.
    pub proof fn lemma_tax_twice(self)
        ensures
            self.tax().register_x == self.register_a,
            self.tax().tax() == self.tax(),
    {
        lemma_with_zero_and_negative_twice(self.status, self.register_a);
    }

    /// Increment X counts modulo 256: 255 is followed by 0. Zero is set exactly when the
    /// register has wrapped to 0, Negative exactly when the new value is 128 or more, and
    /// nothing else has changed, the other six flags included.
    pub proof fn lemma_inx(self)
        ensures
            self.inx().register_x == (if self.register_x == 0xFF {
                0
            } else {
                self.register_x + 1
            }),
            flag_is_set(self.inx().status, ZERO_FLAG) <==> self.register_x == 0xFF,
            flag_is_set(self.inx().status, NEGATIVE_FLAG) <==> 0x7F <= self.register_x < 0xFF,
            self.inx().status & !(ZERO_FLAG | NEGATIVE_FLAG) == self.status & !(ZERO_FLAG
                | NEGATIVE_FLAG),
            self.inx().register_a == self.register_a,
            self.inx().program_counter == self.program_counter,
            self.inx().memory == self.memory,
    {
        lemma_with_zero_and_negative(self.status, self.inx().register_x);
    }

    /// A byte that is no opcode ends the run at once: when the byte at the program
    /// counter is not in the opcode table, the run reports it with its address, and the
    /// state it leaves differs from the one it started in by the program counter alone,
    /// which has moved past the byte.
    pub proof fn lemma_unimplemented_opcode_ends_run(self)
        requires
            self.program_counter < 0xFFFF,
            opcode_table(self.opcode()) is None,
        ensures
            self.run() == Some(
                (
                    CpuState { program_counter: (self.program_counter + 1) as u16, ..self },
                    Err::<(), CpuError>(
                        CpuError::UnimplementedOpcode {
                            opcode: self.opcode(),
                            address: self.program_counter,
                        },
                    ),
                ),
            ),
    {
    }

    /// Where a run ends. A run never writes to memory and always moves the program
    /// counter. If it reports `Ok`, the last byte it fetched is a Break. If it reports an
    /// error, the error is [`CpuError::UnimplementedOpcode`], it names the last byte that
    /// was fetched and the address of that byte, and the opcode table does not hold the
    /// byte.
    pub proof fn lemma_run_end(self)
        requires
            self.can_run(),
        ensures
            self.run().unwrap().0.memory == self.memory,
            self.program_counter < self.run().unwrap().0.program_counter,
            match self.run().unwrap().1 {
                Ok(()) => read8(
                    self.memory,
                    (self.run().unwrap().0.program_counter - 1) as u16,
                ) == OPCODE_BRK,
                Err(CpuError::UnimplementedOpcode { opcode, address }) => {
                    &&& self.program_counter <= address
                    &&& self.run().unwrap().0.program_counter == address + 1
                    &&& read8(self.memory, address) == opcode
                    &&& opcode_table(opcode) is None
                },
                Err(CpuError::LoadOverflow { .. }) => false,
            },
        decreases ADDRESS_SPACE_SIZE - self.program_counter,
    {
        if self.step().1 == Ok::<RunState, CpuError>(RunState::Running) {
            self.step().0.lemma_run_end();
        }
    }

    /// A run that starts at or below the reset vector stays inside the address space if
    /// the low byte of the vector is a Break and its high byte is no opcode: no
    /// instruction is longer than the vector, so the run fetches one of the two bytes as
    /// an opcode and ends there at the latest.
    pub proof fn lemma_reset_vector_ends_run(self)
        requires
            self.program_counter <= RESET_VECTOR + 1,
            read8(self.memory, RESET_VECTOR) == OPCODE_BRK,
            opcode_table(read8(self.memory, (RESET_VECTOR + 1) as u16)) is None,
        ensures
            self.can_run(),
        decreases RESET_VECTOR + 1 - self.program_counter,
    {
        if self.step().1 == Ok::<RunState, CpuError>(RunState::Running) {
            self.step().0.lemma_reset_vector_ends_run();
        }
    }

    /// A program loaded at [`PROGRAM_ORIGIN`] can always be run after a reset: the reset
    /// vector then holds the bytes `0x00`, a Break, and `0x80`, which is no opcode, and
    /// the run starts below them.
    pub proof fn lemma_loaded_program_can_run(self, image: Seq<u8>)
        requires
            self.memory.len() == ADDRESS_SPACE_SIZE,
            PROGRAM_ORIGIN + image.len() <= ADDRESS_SPACE_SIZE,
        ensures
            self.load(image, PROGRAM_ORIGIN).reset().program_counter == PROGRAM_ORIGIN,
            self.load(image, PROGRAM_ORIGIN).reset().can_run(),
    {
        let loaded = self.load(image, PROGRAM_ORIGIN);
        lemma_write16_read16(
            write_block(self.memory, PROGRAM_ORIGIN, image),
            RESET_VECTOR,
            PROGRAM_ORIGIN,
        );
        loaded.reset().lemma_reset_vector_ends_run();
    }
}

} // verus!
