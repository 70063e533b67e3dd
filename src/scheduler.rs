//! The run loop: fetch, decode, execute and count, gated by the paused,
//! step-once and halted flags. Faults end the run as traps.

use vstd::prelude::*;

use crate::executor::{execute_spec, status_spec, Status};
use crate::machine::{MachineModel, VirtualMachine};
use crate::memory::VmError;
use crate::opcodes::{DecoderError, Instruction};

verus! {

/// What went wrong in a trapping cycle.
#[derive(Debug, Clone, Copy, PartialEq, Eq, Structural)]
pub enum Fault {
    /// The words at the program counter are not an instruction.
    Decode(DecoderError),
    /// The instruction, with its operands, faulted.
    Execute(Instruction, VmError),
}

/// A fatal, unrecoverable fault, with the program counter it happened at.
#[derive(Debug, Clone, Copy, PartialEq, Eq, Structural)]
pub struct Trap {
    pub program_counter: u16,
    pub fault: Fault,
}

/// Why a bounded run stopped without a trap.
#[derive(Debug, Clone, Copy, PartialEq, Eq, Structural)]
pub enum RunStop {
    /// Still runnable: the cycle budget is used up.
    BudgetSpent,
    /// Halted, or paused with no step pending: only a directive changes that.
    Idle,
    /// IN found the input queue empty.
    AwaitingInput,
}

/// One cycle from `m`: the new state and status, or the trap. A trap and an
/// IN that awaits input leave the state as it was; the cycle counter counts
/// executed instructions.
pub open spec fn cycle_spec(m: MachineModel) -> Result<(MachineModel, Status), Trap> {
    match m.next_instruction() {
        Err(e) => Err(Trap { program_counter: m.program_counter, fault: Fault::Decode(e) }),
        Ok(i) => match execute_spec(i, m) {
            Err(e) => Err(Trap { program_counter: m.program_counter, fault: Fault::Execute(i, e) }),
            Ok(m2) => if status_spec(i, m) == Status::AwaitingInput {
                Ok((m2, Status::AwaitingInput))
            } else {
                Ok((MachineModel { cycle: m2.cycle.wrapping_add(1), ..m2 }, Status::Executed))
            },
        },
    }
}

/// At most `budget` cycles from `m`, stopping early when the machine is not
/// runnable, awaits input or traps. A pending single step is used up by
/// the first executed cycle.
pub open spec fn run_spec(m: MachineModel, budget: nat) -> (MachineModel, Result<RunStop, Trap>)
    decreases budget,
{
    if !m.runnable() {
        (m, Ok(RunStop::Idle))
    } else if budget == 0 {
        (m, Ok(RunStop::BudgetSpent))
    } else {
        match cycle_spec(m) {
            Err(t) => (m, Err(t)),
            Ok((m2, Status::AwaitingInput)) => (m2, Ok(RunStop::AwaitingInput)),
            Ok((m2, Status::Executed)) => run_spec(
                MachineModel { step_once: false, ..m2 },
                (budget - 1) as nat,
            ),
        }
    }
}

impl VirtualMachine {
    /// Fetches, decodes and executes one instruction, then counts the cycle.
    pub fn cycle(&mut self) -> (r: Result<Status, Trap>)
        ensures
            match cycle_spec(old(self)@) {
                Ok((m, s)) => r == Ok::<Status, Trap>(s) && final(self)@ == m,
                Err(t) => r == Err::<Status, Trap>(t) && final(self)@ == old(self)@,
            },
    {
        let pc = self.program_counter;
        let fetched_memory = self.fetch();
        let instruction = match self.decode(fetched_memory) {
            Ok(i) => i,
            Err(e) => {
                return Err(Trap { program_counter: pc, fault: Fault::Decode(e) });
            },
        };
        match self.execute(instruction) {
            Ok(Status::Executed) => {
                self.cycle = self.cycle.wrapping_add(1);
                Ok(Status::Executed)
            },
            Ok(Status::AwaitingInput) => Ok(Status::AwaitingInput),
            Err(e) => Err(Trap { program_counter: pc, fault: Fault::Execute(instruction, e) }),
        }
    }

    /// Whether the run loop may execute a cycle now.
    pub fn is_runnable(&self) -> (r: bool)
        ensures
            r == self@.runnable(),
    {
        !self.halted && (!self.paused || self.step_once)
    }

    /// Runs at most `max_cycles` cycles while the machine is runnable. The
    /// caller services directives between calls: polling them after
    /// `BudgetSpent`, waiting for one after `Idle` or `AwaitingInput`, and
    /// ending the run on a trap.
    pub fn run(&mut self, max_cycles: usize) -> (r: Result<RunStop, Trap>)
        ensures
            (final(self)@, r) == run_spec(old(self)@, max_cycles as nat),
    {
        let mut left: usize = max_cycles;
        loop
            invariant
                run_spec(self@, left as nat) == run_spec(old(self)@, max_cycles as nat),
            decreases left,
        {
            if !self.is_runnable() {
                return Ok(RunStop::Idle);
            }
            if left == 0 {
                return Ok(RunStop::BudgetSpent);
            }
            match self.cycle() {
                Ok(Status::Executed) => {
                    self.step_once = false;
                    left = left - 1;
                },
                Ok(Status::AwaitingInput) => {
                    return Ok(RunStop::AwaitingInput);
                },
                Err(t) => {
                    return Err(t);
                },
            }
        }
    }
}

} // verus!
