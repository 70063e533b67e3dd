//! The breakpoint shell of the single-threaded debug mode: when to stop,
//! and what each command line does.

use vstd::prelude::*;

use crate::machine::{MachineModel, VirtualMachine};
use crate::memory::REGISTER_ADDRESS_END;
use crate::text::{
    parse_u16, push_char, same_text, split_words, unsigned_decimal, whitespace_words,
};

verus! {

broadcast use vstd::string::group_string_axioms;

/// Output collected so far, the breakpoint addresses, and whether to stop
/// before the next cycle.
#[derive(Debug)]
pub struct Debugger {
    pub collected_output: String,
    pub breakpoints: Vec<u16>,
    pub break_next: bool,
}

/// What a command line of the breakpoint shell asks the caller to do.
#[derive(Debug)]
pub enum DebugReply {
    /// Print the collected output.
    ShowOutput(String),
    /// A breakpoint was set or cleared; prompt again.
    BreakpointToggled(u16),
    /// Print these raw memory cells, starting at the address given.
    Cells(u16, Vec<u16>),
    /// Print the stack, bottom first.
    Stack(Vec<(u16, Option<u16>)>),
    /// Resume until the next breakpoint or halt.
    Resume,
    /// Execute one cycle, then stop again.
    Step,
    /// Abort the process at once.
    Quit,
    /// A command with missing or malformed numbers; prompt again.
    BadArgument,
    /// An unrecognised command; prompt again.
    Unknown,
}

/// The value of decimal text `w` when it fits in a word.
pub open spec fn word_arg(w: Seq<char>) -> Option<u16> {
    match unsigned_decimal(w) {
        Some(v) => if v <= u16::MAX {
            Some(v as u16)
        } else {
            None
        },
        None => None,
    }
}

/// Argument `i` of a command line, as a word.
pub open spec fn arg_at(words: Seq<Seq<char>>, i: int) -> Option<u16> {
    if i < words.len() {
        word_arg(words[i])
    } else {
        None
    }
}

/// `bps` without any occurrence of `a`.
pub open spec fn without(bps: Seq<u16>, a: u16) -> Seq<u16> {
    bps.filter(|b: u16| b != a)
}

/// An element is in `s.push(b)` when it is in `s` or is `b`.
proof fn lemma_contains_push(s: Seq<u16>, b: u16, a: u16)
    ensures
        s.push(b).contains(a) == (s.contains(a) || b == a),
{
    if s.contains(a) {
        let k = choose|k: int| 0 <= k < s.len() && s[k] == a;
        assert(s.push(b)[k] == a);
    }
    if b == a {
        assert(s.push(b)[s.len() as int] == a);
    }
    if s.push(b).contains(a) {
        let k = choose|k: int| 0 <= k < s.len() + 1 && s.push(b)[k] == a;
        if k < s.len() {
            assert(s[k] == a);
        }
    }
}

/// Removing `a` from `s.push(b)` removes it from `s` and keeps `b` unless it
/// is `a`.
proof fn lemma_without_push(s: Seq<u16>, b: u16, a: u16)
    ensures
        without(s.push(b), a) == if b != a {
            without(s, a).push(b)
        } else {
            without(s, a)
        },
{
    reveal(Seq::filter);
    assert(s.push(b).drop_last() =~= s);
}

/// The breakpoints after toggling `a`: removed where present, else added.
pub open spec fn toggled(bps: Seq<u16>, a: u16) -> Seq<u16> {
    if bps.contains(a) {
        without(bps, a)
    } else {
        bps.push(a)
    }
}

/// The raw cells `start..end` of `m`, when every one of them is an address.
pub open spec fn cells_spec(m: MachineModel, start: u16, end: u16) -> Seq<u16> {
    Seq::new(
        if start <= end {
            (end - start) as nat
        } else {
            0
        },
        |k: int| m.memory.mem_read((start + k) as u16)->Ok_0,
    )
}

/// The first word of a command line, or nothing.
pub open spec fn command_word(words: Seq<Seq<char>>) -> Seq<char> {
    if words.len() > 0 {
        words[0]
    } else {
        Seq::empty()
    }
}

/// The views of a list of words.
pub open spec fn word_views(words: Seq<String>) -> Seq<Seq<char>> {
    words.map_values(|w: String| w@)
}

/// What one command line, given as its words `w`, does: `o` and `f` are the
/// debugger before and after, `m` the machine, `r` the reply.
pub open spec fn command_outcome(
    o: Debugger,
    f: Debugger,
    m: MachineModel,
    w: Seq<Seq<char>>,
    r: DebugReply,
) -> bool {
    let c = command_word(w);
    &&& f.collected_output == o.collected_output
    &&& (c != "break"@ ==> f.breakpoints == o.breakpoints)
    &&& f.break_next == (o.break_next || w.len() == 0 || c == "step"@)
    &&& if w.len() == 0 || c == "step"@ {
        r is Step
    } else if c == "output"@ {
        r matches DebugReply::ShowOutput(s) && s@ == o.collected_output@
    } else if c == "break"@ {
        match arg_at(w, 1) {
            Some(a) => r == DebugReply::BreakpointToggled(a) && f.breakpoints@ == toggled(
                o.breakpoints@,
                a,
            ),
            None => r is BadArgument && f.breakpoints == o.breakpoints,
        }
    } else if c == "mem"@ {
        match (arg_at(w, 1), arg_at(w, 2)) {
            (Some(start), Some(end)) => if end <= REGISTER_ADDRESS_END as int + 1 {
                r matches DebugReply::Cells(a, v) && a == start && v@ == cells_spec(
                    m,
                    start,
                    end,
                )
            } else {
                r is BadArgument
            },
            _ => r is BadArgument,
        }
    } else if c == "stack"@ {
        r matches DebugReply::Stack(v) && v@ == m.memory.stack
    } else if c == "run"@ {
        r is Resume
    } else if c == "quit"@ || c == "exit"@ {
        r is Quit
    } else {
        r is Unknown
    }
}

impl Default for Debugger {
    fn default() -> (r: Debugger)
        ensures
            r.collected_output@.len() == 0,
            r.breakpoints@.len() == 0,
            !r.break_next,
    {
        Debugger { collected_output: String::new(), breakpoints: Vec::new(), break_next: false }
    }
}

impl Debugger {
    /// Records one character of program output.
    pub fn push_output(&mut self, character: char)
        ensures
            final(self).collected_output@ == old(self).collected_output@.push(character),
            final(self).breakpoints == old(self).breakpoints,
            final(self).break_next == old(self).break_next,
    {
        push_char(&mut self.collected_output, character);
    }

    /// The gating check before each cycle: stop when a step was asked for or
    /// the program counter is on a breakpoint. A pending step is used up.
    pub fn should_interrupt(&mut self, program_counter: u16) -> (r: bool)
        ensures
            r == (old(self).break_next || old(self).breakpoints@.contains(program_counter)),
            final(self).break_next == (old(self).break_next && !r),
            final(self).breakpoints == old(self).breakpoints,
            final(self).collected_output == old(self).collected_output,
    {
        let mut hit = self.break_next;
        let mut i: usize = 0;
        while i < self.breakpoints.len() && !hit
            invariant
                i <= self.breakpoints@.len(),
                hit == (self.break_next || self.breakpoints@.take(i as int).contains(
                    program_counter,
                )),
            decreases self.breakpoints@.len() - i,
        {
            proof {
                assert(self.breakpoints@.take(i + 1) =~= self.breakpoints@.take(i as int).push(
                    self.breakpoints@[i as int],
                ));
                lemma_contains_push(
                    self.breakpoints@.take(i as int),
                    self.breakpoints@[i as int],
                    program_counter,
                );
            }
            if self.breakpoints[i] == program_counter {
                hit = true;
            }
            i = i + 1;
        }
        proof {
            if !hit {
                assert(self.breakpoints@.take(i as int) =~= self.breakpoints@);
            } else if !self.break_next {
                let k = choose|k: int|
                    0 <= k < i && self.breakpoints@.take(i as int)[k] == program_counter;
                assert(self.breakpoints@[k] == program_counter);
            }
        }
        if hit {
            self.break_next = false;
        }
        hit
    }

    /// Sets a breakpoint at `address`, or clears it where one is set.
    pub fn toggle_breakpoint(&mut self, address: u16)
        ensures
            final(self).breakpoints@ == toggled(old(self).breakpoints@, address),
            final(self).break_next == old(self).break_next,
            final(self).collected_output == old(self).collected_output,
    {
        let mut kept: Vec<u16> = Vec::new();
        let mut found = false;
        let mut i: usize = 0;
        while i < self.breakpoints.len()
            invariant
                i <= self.breakpoints@.len(),
                kept@ == without(self.breakpoints@.take(i as int), address),
                found == self.breakpoints@.take(i as int).contains(address),
            decreases self.breakpoints@.len() - i,
        {
            let b = self.breakpoints[i];
            proof {
                let t = self.breakpoints@.take(i as int);
                assert(self.breakpoints@.take(i + 1) =~= t.push(b));
                lemma_contains_push(t, b, address);
                lemma_without_push(t, b, address);
            }
            if b != address {
                kept.push(b);
            } else {
                found = true;
            }
            i = i + 1;
        }
        assert(self.breakpoints@.take(i as int) =~= self.breakpoints@);
        if found {
            self.breakpoints = kept;
        } else {
            self.breakpoints.push(address);
        }
    }

    /// Carries out one command line of the breakpoint shell, given as its
    /// words, on `vm`. Only `break` and the stepping commands change the
    /// debugger; nothing changes the machine.
    pub fn interpret(&mut self, vm: &VirtualMachine, words: &Vec<String>) -> (r: DebugReply)
        ensures
            command_outcome(*old(self), *final(self), vm@, word_views(words@), r),
    {
        let ghost w = word_views(words@);
        if words.len() == 0 {
            self.break_next = true;
            return DebugReply::Step;
        }
        let command = words[0].as_str();
        assert(command@ == command_word(w));
        if same_text(command, "step") {
            self.break_next = true;
            DebugReply::Step
        } else if same_text(command, "output") {
            DebugReply::ShowOutput(self.collected_output.clone())
        } else if same_text(command, "break") {
            let address = if words.len() > 1 {
                parse_u16(words[1].as_str())
            } else {
                None
            };
            match address {
                Some(a) => {
                    self.toggle_breakpoint(a);
                    DebugReply::BreakpointToggled(a)
                },
                None => DebugReply::BadArgument,
            }
        } else if same_text(command, "mem") {
            let start = if words.len() > 1 {
                parse_u16(words[1].as_str())
            } else {
                None
            };
            let end = if words.len() > 2 {
                parse_u16(words[2].as_str())
            } else {
                None
            };
            match (start, end) {
                (Some(s), Some(e)) => {
                    if e > REGISTER_ADDRESS_END && e - REGISTER_ADDRESS_END > 1 {
                        return DebugReply::BadArgument;
                    }
                    let mut cells: Vec<u16> = Vec::new();
                    let mut k: u16 = s;
                    while k < e
                        invariant
                            s <= e || k == s,
                            s <= k,
                            k <= e || k == s,
                            e <= REGISTER_ADDRESS_END + 1,
                            cells@ == cells_spec(vm@, s, k),
                        decreases e - k,
                    {
                        let v = match vm.memory.mem_read(&k) {
                            Ok(v) => v,
                            Err(_) => 0,
                        };
                        cells.push(v);
                        k = k + 1;
                        assert(cells@ =~= cells_spec(vm@, s, k));
                    }
                    assert(cells@ =~= cells_spec(vm@, s, e));
                    DebugReply::Cells(s, cells)
                },
                _ => DebugReply::BadArgument,
            }
        } else if same_text(command, "stack") {
            DebugReply::Stack(vm.memory.duplicate().stack)
        } else if same_text(command, "run") {
            DebugReply::Resume
        } else if same_text(command, "quit") || same_text(command, "exit") {
            DebugReply::Quit
        } else {
            DebugReply::Unknown
        }
    }

    /// Carries out one command line of the breakpoint shell: its words are
    /// those of `command_line`, split at white space.
    pub fn interrupt(&mut self, vm: &VirtualMachine, command_line: &str) -> (r: DebugReply)
        ensures
            command_outcome(*old(self), *final(self), vm@, whitespace_words(command_line@), r),
    {
        let words = split_words(command_line);
        proof {
            assert(word_views(words@) == whitespace_words(command_line@));
        }
        self.interpret(vm, &words)
    }
}

} // verus!
