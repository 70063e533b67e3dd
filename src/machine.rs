//! The virtual machine's execution state, its snapshots, and the fetch /
//! decode / execute cycle.

use std::collections::VecDeque;

use vstd::prelude::*;
use vstd::slice::slice_subrange;

use crate::executor::{computes_next, execute_spec, status_spec, Status};
use crate::memory::{Memory, MemoryModel, VmError, HEAP_SIZE};
use crate::opcodes::{decode_spec, DecoderError, Instruction};

verus! {

/// The byte that an input character is queued as: its code point truncated
/// to eight bits.
pub open spec fn input_byte(c: char) -> u8 {
    c as u8
}

/// Mathematical model of a snapshot.
pub struct SavestateModel {
    pub paused: bool,
    pub halted: bool,
    pub cycle: usize,
    pub program_counter: u16,
    pub memory: MemoryModel,
    pub history: Seq<char>,
    pub input: Seq<u8>,
    pub output: Seq<char>,
}

impl SavestateModel {
    /// The snapshot of a machine that was never run.
    pub open spec fn initial() -> SavestateModel {
        SavestateModel {
            paused: false,
            halted: false,
            cycle: 0,
            program_counter: 0,
            memory: MemoryModel::zeroed(),
            history: Seq::empty(),
            input: Seq::empty(),
            output: Seq::empty(),
        }
    }
}

/// Mathematical model of `VirtualMachine`.
pub struct MachineModel {
    pub step_once: bool,
    pub paused: bool,
    pub halted: bool,
    pub cycle: usize,
    pub program_counter: u16,
    pub memory: MemoryModel,
    /// Every character ever supplied as input, in order.
    pub history: Seq<char>,
    /// Input bytes queued and not yet consumed.
    pub input: Seq<u8>,
    /// Everything written by OUT (and echoed input), in order.
    pub output: Seq<char>,
    /// The retained snapshot slot.
    pub saved: SavestateModel,
}

impl MachineModel {
    /// A fresh machine: everything zero, empty and running.
    pub open spec fn initial() -> MachineModel {
        MachineModel {
            step_once: false,
            paused: false,
            halted: false,
            cycle: 0,
            program_counter: 0,
            memory: MemoryModel::zeroed(),
            history: Seq::empty(),
            input: Seq::empty(),
            output: Seq::empty(),
            saved: SavestateModel::initial(),
        }
    }

    /// A deep copy of every piece of mutable state the executor touches.
    pub open spec fn capture(self) -> SavestateModel {
        SavestateModel {
            paused: self.paused,
            halted: self.halted,
            cycle: self.cycle,
            program_counter: self.program_counter,
            memory: self.memory,
            history: self.history,
            input: self.input,
            output: self.output,
        }
    }

    /// Overwrites all captured state with `s`: a total replacement.
    pub open spec fn restore(self, s: SavestateModel) -> MachineModel {
        MachineModel {
            paused: s.paused,
            halted: s.halted,
            cycle: s.cycle,
            program_counter: s.program_counter,
            memory: s.memory,
            history: s.history,
            input: s.input,
            output: s.output,
            ..self
        }
    }

    /// The up-to-four words at the program counter, clamped to the heap.
    pub open spec fn fetch_window(self) -> Seq<u16> {
        let start = if self.program_counter as int <= HEAP_SIZE as int {
            self.program_counter as int
        } else {
            HEAP_SIZE as int
        };
        let end = if start + 4 <= HEAP_SIZE as int {
            start + 4
        } else {
            HEAP_SIZE as int
        };
        self.memory.heap.subrange(start, end)
    }

    /// The instruction at the program counter.
    pub open spec fn next_instruction(self) -> Result<Instruction, DecoderError> {
        decode_spec(self.fetch_window())
    }

    /// Taking the next queued input byte: the byte and the state after, or
    /// nothing and the state unchanged when none is queued.
    pub open spec fn take_input(self) -> (Option<u8>, MachineModel) {
        if self.input.len() == 0 {
            (None, self)
        } else {
            (Some(self.input[0]), MachineModel { input: self.input.drop_first(), ..self })
        }
    }

    /// The machine may execute a cycle: not halted, and running or asked
    /// to step once.
    pub open spec fn runnable(self) -> bool {
        !self.halted && (!self.paused || self.step_once)
    }
}

/// A deep, self-contained copy of the machine state at one instant.
#[derive(Debug)]
pub struct VirtualMachineSavestate {
    pub paused: bool,
    pub halted: bool,
    pub cycle: usize,
    pub program_counter: u16,
    pub memory: Memory,
    pub stdin_history: String,
    pub stdin_buffer: VecDeque<u8>,
    pub output_buffer: String,
}

impl View for VirtualMachineSavestate {
    type V = SavestateModel;

    open spec fn view(&self) -> SavestateModel {
        SavestateModel {
            paused: self.paused,
            halted: self.halted,
            cycle: self.cycle,
            program_counter: self.program_counter,
            memory: self.memory@,
            history: self.stdin_history@,
            input: self.stdin_buffer@,
            output: self.output_buffer@,
        }
    }
}

impl Default for VirtualMachineSavestate {
    fn default() -> (r: VirtualMachineSavestate)
        ensures
            r@ == SavestateModel::initial(),
    {
        VirtualMachineSavestate {
            paused: false,
            halted: false,
            cycle: 0,
            program_counter: 0,
            memory: Memory::default(),
            stdin_history: String::new(),
            stdin_buffer: VecDeque::new(),
            output_buffer: String::new(),
        }
    }
}

impl VirtualMachineSavestate {
    /// A deep copy of this snapshot.
    pub fn duplicate(&self) -> (r: VirtualMachineSavestate)
        ensures
            r@ == self@,
    {
        VirtualMachineSavestate {
            paused: self.paused,
            halted: self.halted,
            cycle: self.cycle,
            program_counter: self.program_counter,
            memory: self.memory.duplicate(),
            stdin_history: self.stdin_history.clone(),
            stdin_buffer: copy_queue(&self.stdin_buffer),
            output_buffer: self.output_buffer.clone(),
        }
    }
}

/// An element-for-element copy of a byte queue.
fn copy_queue(q: &VecDeque<u8>) -> (r: VecDeque<u8>)
    ensures
        r@ == q@,
{
    let mut r: VecDeque<u8> = VecDeque::new();
    let mut i: usize = 0;
    while i < q.len()
        invariant
            i <= q@.len(),
            r@ == q@.subrange(0, i as int),
        decreases q@.len() - i,
    {
        r.push_back(q[i]);
        i = i + 1;
        assert(r@ =~= q@.subrange(0, i as int));
    }
    assert(r@ =~= q@);
    r
}

/// The register machine, with its input and output buffers and one retained
/// snapshot slot.
#[derive(Debug)]
pub struct VirtualMachine {
    pub step_once: bool,
    pub paused: bool,
    pub halted: bool,
    pub cycle: usize,
    pub program_counter: u16,
    pub memory: Memory,
    pub stdin_history: String,
    pub stdin_buffer: VecDeque<u8>,
    pub output_buffer: String,
    pub save_state: VirtualMachineSavestate,
}

impl View for VirtualMachine {
    type V = MachineModel;

    open spec fn view(&self) -> MachineModel {
        MachineModel {
            step_once: self.step_once,
            paused: self.paused,
            halted: self.halted,
            cycle: self.cycle,
            program_counter: self.program_counter,
            memory: self.memory@,
            history: self.stdin_history@,
            input: self.stdin_buffer@,
            output: self.output_buffer@,
            saved: self.save_state@,
        }
    }
}

impl Default for VirtualMachine {
    fn default() -> (r: VirtualMachine)
        ensures
            r@ == MachineModel::initial(),
    {
        VirtualMachine::new()
    }
}

impl VirtualMachine {
    /// A fresh machine: zeroed memory, empty buffers, running.
    pub fn new() -> (r: VirtualMachine)
        ensures
            r@ == MachineModel::initial(),
    {
        VirtualMachine {
            step_once: false,
            paused: false,
            halted: false,
            cycle: 0,
            program_counter: 0,
            memory: Memory::default(),
            stdin_history: String::new(),
            stdin_buffer: VecDeque::new(),
            output_buffer: String::new(),
            save_state: VirtualMachineSavestate::default(),
        }
    }

    /// Captures a snapshot of the live state.
    pub fn get_state(&self) -> (r: VirtualMachineSavestate)
        ensures
            r@ == self@.capture(),
    {
        VirtualMachineSavestate {
            paused: self.paused,
            halted: self.halted,
            cycle: self.cycle,
            program_counter: self.program_counter,
            memory: self.memory.duplicate(),
            stdin_history: self.stdin_history.clone(),
            stdin_buffer: copy_queue(&self.stdin_buffer),
            output_buffer: self.output_buffer.clone(),
        }
    }

    /// Overwrites the live state with the retained snapshot.
    pub fn load_state(&mut self)
        ensures
            final(self)@ == old(self)@.restore(old(self)@.saved),
    {
        let s = self.save_state.duplicate();
        self.paused = s.paused;
        self.halted = s.halted;
        self.cycle = s.cycle;
        self.program_counter = s.program_counter;
        self.memory = s.memory;
        self.stdin_history = s.stdin_history;
        self.stdin_buffer = s.stdin_buffer;
        self.output_buffer = s.output_buffer;
    }

    /// The window of up to four words at the program counter, clamped so it
    /// never reads past the end of the heap.
    pub fn fetch(&self) -> (r: &[u16])
        ensures
            r@ == self@.fetch_window(),
    {
        let start: usize = if (self.program_counter as usize) <= HEAP_SIZE {
            self.program_counter as usize
        } else {
            HEAP_SIZE
        };
        let end: usize = if start + 4 <= HEAP_SIZE {
            start + 4
        } else {
            HEAP_SIZE
        };
        slice_subrange(self.memory.heap.as_slice(), start, end)
    }

    /// Decodes a fetched window.
    pub fn decode(&self, fetched_memory: &[u16]) -> (r: Result<Instruction, DecoderError>)
        ensures
            r == decode_spec(fetched_memory@),
            r matches Ok(i) ==> i.spec_byte_length() <= fetched_memory@.len(),
    {
        Instruction::decode(fetched_memory)
    }

    /// Executes one instruction against this machine.
    pub fn execute(&mut self, instruction: Instruction) -> (r: Result<Status, VmError>)
        requires
            computes_next(instruction, old(self)@) ==> old(self).program_counter
                + instruction.spec_byte_length() <= u16::MAX,
        ensures
            match execute_spec(instruction, old(self)@) {
                Ok(m) => r == Ok::<Status, VmError>(status_spec(instruction, old(self)@))
                    && final(self)@ == m,
                Err(e) => r == Err::<Status, VmError>(e) && final(self)@ == old(self)@,
            },
    {
        instruction.execute(self)
    }

    /// Takes the next queued input byte, if any.
    pub fn get_stdin(&mut self) -> (r: Option<u8>)
        ensures
            (r, final(self)@) == old(self)@.take_input(),
    {
        let r = self.stdin_buffer.pop_front();
        proof {
            if r is Some {
                assert(self@.input =~= old(self)@.input.drop_first());
            }
        }
        r
    }

    /// Copies `program` into the heap from address 0; the rest of memory is
    /// unchanged.
    pub fn load_data(&mut self, program: &[u16])
        requires
            program@.len() <= HEAP_SIZE,
        ensures
            final(self)@ == (MachineModel {
                memory: MemoryModel {
                    heap: program@ + old(self)@.memory.heap.skip(program@.len() as int),
                    ..old(self)@.memory
                },
                ..old(self)@
            }),
    {
        let mut offset: usize = 0;
        while offset < program.len()
            invariant
                offset <= program@.len() <= HEAP_SIZE,
                self.memory.heap@ == program@.subrange(0, offset as int)
                    + old(self).memory.heap@.skip(offset as int),
                self@ == (MachineModel {
                    memory: MemoryModel { heap: self.memory.heap@, ..old(self)@.memory },
                    ..old(self)@
                }),
            decreases program@.len() - offset,
        {
            self.memory.heap[offset] = program[offset];
            offset = offset + 1;
            assert(self.memory.heap@ =~= program@.subrange(0, offset as int)
                + old(self).memory.heap@.skip(offset as int));
        }
        assert(program@.subrange(0, offset as int) =~= program@);
    }

    /// Clears the halted flag, the program counter and all memory.
    pub fn reset(&mut self)
        ensures
            final(self)@ == (MachineModel {
                halted: false,
                program_counter: 0,
                memory: MemoryModel::zeroed(),
                ..old(self)@
            }),
    {
        self.halted = false;
        self.program_counter = 0;
        self.memory = Memory::default();
    }
}

} // verus!
