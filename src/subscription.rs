//! The live-control protocol: directives from a controller, and the update
//! that answers each one with the next instruction and a snapshot.

use std::collections::VecDeque;

use vstd::prelude::*;

use crate::machine::{
    input_byte, MachineModel, SavestateModel, VirtualMachine, VirtualMachineSavestate,
};
use crate::memory::{AMOUNT_REGISTERS, REGISTER_ADDRESS_START};
use crate::opcodes::{DecoderError, Instruction};

verus! {

broadcast use vstd::string::group_string_axioms;

/// A directive from the controller. Every field but the input text is off
/// by default.
#[derive(Debug)]
pub struct VirtualMachineSubscriptionTick {
    /// Text to queue as input; it is also recorded in the input history and
    /// echoed to the output.
    pub additional_stdin: String,
    pub save_state: bool,
    pub load_state: bool,
    pub write_history: bool,
    pub toggle_pause: bool,
    pub step_once: bool,
    pub set_register_id: Option<usize>,
    pub set_register_value: u16,
}

impl VirtualMachineSubscriptionTick {
    /// The directive that asks for nothing.
    pub open spec fn is_empty(&self) -> bool {
        &&& self.additional_stdin@.len() == 0
        &&& !self.save_state
        &&& !self.load_state
        &&& !self.write_history
        &&& !self.toggle_pause
        &&& !self.step_once
        &&& self.set_register_id is None
        &&& self.set_register_value == 0
    }
}

impl Default for VirtualMachineSubscriptionTick {
    fn default() -> (r: VirtualMachineSubscriptionTick)
        ensures
            r.is_empty(),
    {
        VirtualMachineSubscriptionTick {
            additional_stdin: String::new(),
            save_state: false,
            load_state: false,
            write_history: false,
            toggle_pause: false,
            step_once: false,
            set_register_id: None,
            set_register_value: 0,
        }
    }
}

/// What the machine sends back after each directive: the instruction about
/// to execute next and a snapshot of the state.
#[derive(Debug)]
pub struct VirtualMachineSubscriptionUpdate {
    pub current_instruction: Result<Instruction, DecoderError>,
    pub savestate: VirtualMachineSavestate,
}

impl Default for VirtualMachineSubscriptionUpdate {
    fn default() -> (r: VirtualMachineSubscriptionUpdate)
        ensures
            r.current_instruction == Ok::<Instruction, DecoderError>(Instruction::Noop),
            r.savestate@ == SavestateModel::initial(),
    {
        VirtualMachineSubscriptionUpdate {
            current_instruction: Ok(Instruction::Noop),
            savestate: VirtualMachineSavestate::default(),
        }
    }
}

/// The answer to one directive: the update to send, and the input history
/// to persist when the directive asked for that.
#[derive(Debug)]
pub struct DirectiveReply {
    pub update: Box<VirtualMachineSubscriptionUpdate>,
    pub history_to_write: Option<String>,
}

/// The bytes that text is queued as.
pub open spec fn input_bytes(s: Seq<char>) -> Seq<u8> {
    s.map_values(|c: char| input_byte(c))
}

/// `m` with `s` queued as input and recorded in the history, without echo.
pub open spec fn with_input(m: MachineModel, s: Seq<char>) -> MachineModel {
    MachineModel { input: m.input + input_bytes(s), history: m.history + s, ..m }
}

/// The address of register `i` (below `AMOUNT_REGISTERS`).
pub open spec fn register_address(i: usize) -> u16 {
    (REGISTER_ADDRESS_START + i) as u16
}

/// The state after applying directive `t` to `m`, field by field in this
/// order: input (echoed to the output), save, load, pause toggle, register
/// write, single step. The register write resolves its value as an operand
/// write does; it is ignored for an index past the last register or a value
/// that does not resolve to a literal.
pub open spec fn apply_directive(
    m: MachineModel,
    t: VirtualMachineSubscriptionTick,
) -> MachineModel {
    let s = t.additional_stdin@;
    let m1 = MachineModel { output: m.output + s, ..with_input(m, s) };
    let m2 = if t.save_state {
        MachineModel { saved: m1.capture(), ..m1 }
    } else {
        m1
    };
    let m3 = if t.load_state {
        m2.restore(m2.saved)
    } else {
        m2
    };
    let m4 = if t.toggle_pause {
        MachineModel { paused: !m3.paused, ..m3 }
    } else {
        m3
    };
    let m5 = match t.set_register_id {
        Some(i) => if i < AMOUNT_REGISTERS {
            match m4.memory.write(register_address(i), t.set_register_value) {
                Ok(mem) => MachineModel { memory: mem, ..m4 },
                Err(_) => m4,
            }
        } else {
            m4
        },
        None => m4,
    };
    if t.step_once {
        MachineModel { step_once: true, ..m5 }
    } else {
        m5
    }
}

/// Appends the bytes of `text` to `q`.
fn queue_text(q: &mut VecDeque<u8>, text: &str)
    ensures
        final(q)@ == old(q)@ + input_bytes(text@),
{
    let ghost start = q@;
    for c in it: text.chars()
        invariant
            it.seq() == text@,
            q@ == start + input_bytes(it.seq().take(it.index() as int)),
    {
        q.push_back(c as u8);
        assert(input_bytes(it.seq().take(it.index() + 1)) =~= input_bytes(
            it.seq().take(it.index() as int),
        ).push(input_byte(c)));
    }
    assert(text@.take(text@.len() as int) =~= text@);
}

impl VirtualMachine {
    /// Queues `text` as input and records it in the input history, without
    /// echoing it. Seeding a fresh machine with a persisted history replays
    /// that input.
    pub fn supply_input(&mut self, text: &str)
        ensures
            final(self)@ == with_input(old(self)@, text@),
    {
        queue_text(&mut self.stdin_buffer, text);
        self.stdin_history.append(text);
    }

    /// Applies one directive. Returns the input history to persist when the
    /// directive asks for it.
    pub fn handle_subscriber_tick(&mut self, tick: VirtualMachineSubscriptionTick) -> (r: Option<
        String,
    >)
        ensures
            final(self)@ == apply_directive(old(self)@, tick),
            tick.write_history <==> r is Some,
            r matches Some(h) ==> h@ == final(self)@.history,
    {
        let text = tick.additional_stdin.as_str();
        self.output_buffer.append(text);
        queue_text(&mut self.stdin_buffer, text);
        self.stdin_history.append(text);

        if tick.save_state {
            self.save_state = self.get_state();
        }
        if tick.load_state {
            self.load_state();
        }
        let history = if tick.write_history {
            Some(self.stdin_history.clone())
        } else {
            None
        };
        if tick.toggle_pause {
            self.paused = !self.paused;
        }
        if let Some(register_idx) = tick.set_register_id {
            if register_idx < AMOUNT_REGISTERS {
                let address = REGISTER_ADDRESS_START + register_idx as u16;
                let _ = self.memory.write(&address, tick.set_register_value);
            }
        }
        if tick.step_once {
            self.step_once = true;
        }
        history
    }

    /// The update describing the current state: the next instruction and a
    /// snapshot.
    pub fn get_subscription_update(&self) -> (r: Box<VirtualMachineSubscriptionUpdate>)
        ensures
            r.current_instruction == self@.next_instruction(),
            r.savestate@ == self@.capture(),
    {
        let fetched_memory = self.fetch();
        let instruction = self.decode(fetched_memory);
        Box::new(
            VirtualMachineSubscriptionUpdate {
                current_instruction: instruction,
                savestate: self.get_state(),
            },
        )
    }

    /// Services a directive taken from the queue without waiting: applies it
    /// and answers with an update. `None` when nothing was pending.
    pub fn handle_subscriber(&mut self, received: Option<VirtualMachineSubscriptionTick>) -> (r:
        Option<DirectiveReply>)
        ensures
            match received {
                None => r is None && final(self)@ == old(self)@,
                Some(t) => r matches Some(reply) && final(self)@ == apply_directive(old(self)@, t)
                    && reply.update.current_instruction == final(self)@.next_instruction()
                    && reply.update.savestate@ == final(self)@.capture()
                    && (t.write_history <==> reply.history_to_write is Some)
                    && (reply.history_to_write matches Some(h) ==> h@ == final(self)@.history),
            },
    {
        match received {
            None => None,
            Some(tick) => Some(self.handle_subscriber_blocking(tick)),
        }
    }

    /// Services a directive that the caller waited for: applies it and
    /// answers with an update.
    pub fn handle_subscriber_blocking(&mut self, tick: VirtualMachineSubscriptionTick) -> (r:
        DirectiveReply)
        ensures
            final(self)@ == apply_directive(old(self)@, tick),
            r.update.current_instruction == final(self)@.next_instruction(),
            r.update.savestate@ == final(self)@.capture(),
            tick.write_history <==> r.history_to_write is Some,
            r.history_to_write matches Some(h) ==> h@ == final(self)@.history,
    {
        let history_to_write = self.handle_subscriber_tick(tick);
        let update = self.get_subscription_update();
        DirectiveReply { update, history_to_write }
    }
}

} // verus!
