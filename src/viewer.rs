//! State of the live viewer: the page shown, the line being typed, the
//! directive being prepared for the next frame, and the last update.

use vstd::prelude::*;

use crate::debugger::word_arg;
use crate::machine::SavestateModel;
use crate::memory::HEAP_SIZE;
use crate::opcodes::{DecoderError, Instruction};
use crate::subscription::{VirtualMachineSubscriptionTick, VirtualMachineSubscriptionUpdate};
use crate::text::{
    parse_u16, parse_usize, pop_char, push_char, same_text, split_words, starts_with_char,
    unsigned_decimal, whitespace_words,
};

verus! {

broadcast use vstd::string::group_string_axioms;

/// The page the viewer shows beside the CPU state.
#[derive(Debug, Clone, Copy, PartialEq, Eq, Structural)]
pub enum Page {
    Output,
    MemoryView,
}

/// A key press, as far as the viewer distinguishes keys.
#[derive(Debug, Clone, Copy, PartialEq, Eq, Structural)]
pub enum Key {
    Esc,
    Tab,
    Up,
    Down,
    /// A function key, by number.
    F(u8),
    Enter,
    Backspace,
    Char(char),
    /// Any other key.
    Other,
}

/// The viewer application.
#[derive(Debug)]
pub struct App {
    pub should_quit: bool,
    pub current_input: String,
    pub active_page: Page,
    pub memory_page_scroll: usize,
    pub next_tick_to_send: VirtualMachineSubscriptionTick,
    pub last_update: Box<VirtualMachineSubscriptionUpdate>,
}

/// The value of decimal text `w` when it fits in a `usize`.
pub open spec fn index_arg(w: Seq<char>) -> Option<usize> {
    match unsigned_decimal(w) {
        Some(v) => if v <= usize::MAX {
            Some(v as usize)
        } else {
            None
        },
        None => None,
    }
}

/// The directive `t` after the `!` command with words `w`: `!pause` asks
/// to toggle the pause; `!setr <index> <value>` asks to set a register when
/// both numbers parse; anything else changes nothing.
pub open spec fn command_tick(
    t: VirtualMachineSubscriptionTick,
    w: Seq<Seq<char>>,
) -> VirtualMachineSubscriptionTick {
    if w.len() > 0 && w[0] == "!pause"@ {
        VirtualMachineSubscriptionTick { toggle_pause: true, ..t }
    } else if w.len() > 2 && w[0] == "!setr"@ && index_arg(w[1]) is Some && word_arg(w[2]) is Some {
        VirtualMachineSubscriptionTick {
            set_register_id: Some(index_arg(w[1])->Some_0),
            set_register_value: word_arg(w[2])->Some_0,
            ..t
        }
    } else {
        t
    }
}

/// The view of a list of words.
pub open spec fn views_of(words: Seq<String>) -> Seq<Seq<char>> {
    words.map_values(|w: String| w@)
}

/// `f` is `o` with only the directive being prepared changed, to `t`.
pub open spec fn only_tick_changed(o: App, f: App, t: VirtualMachineSubscriptionTick) -> bool {
    &&& f.next_tick_to_send == t
    &&& f.should_quit == o.should_quit
    &&& f.current_input == o.current_input
    &&& f.active_page == o.active_page
    &&& f.memory_page_scroll == o.memory_page_scroll
    &&& f.last_update == o.last_update
}

/// What a key press does to the viewer, `o` before and `f` after.
pub open spec fn key_outcome(o: App, f: App, key: Key) -> bool {
    let t = o.next_tick_to_send;
    let unchanged_but_input = f.should_quit == o.should_quit && f.active_page == o.active_page
        && f.memory_page_scroll == o.memory_page_scroll && f.last_update == o.last_update;
    match key {
        Key::Esc => App { should_quit: true, ..o } == f,
        Key::Tab => App {
            active_page: if o.active_page == Page::Output {
                Page::MemoryView
            } else {
                Page::Output
            },
            ..o
        } == f,
        Key::Up => App { memory_page_scroll: o.memory_page_scroll.saturating_sub(1), ..o } == f,
        Key::Down => App { memory_page_scroll: o.memory_page_scroll.saturating_add(1), ..o } == f,
        Key::F(5) => only_tick_changed(
            o,
            f,
            VirtualMachineSubscriptionTick { save_state: true, ..t },
        ),
        Key::F(6) => only_tick_changed(
            o,
            f,
            VirtualMachineSubscriptionTick { write_history: true, ..t },
        ),
        Key::F(8) => only_tick_changed(
            o,
            f,
            VirtualMachineSubscriptionTick { step_once: true, ..t },
        ),
        Key::F(9) => only_tick_changed(
            o,
            f,
            VirtualMachineSubscriptionTick { load_state: true, ..t },
        ),
        Key::Enter => {
            &&& unchanged_but_input
            &&& f.current_input@.len() == 0
            &&& if o.current_input@.len() > 0 && o.current_input@[0] == '!' {
                f.next_tick_to_send == command_tick(t, whitespace_words(o.current_input@))
            } else {
                f.next_tick_to_send.additional_stdin@ == o.current_input@.push('\n')
                    && f.next_tick_to_send == VirtualMachineSubscriptionTick {
                    additional_stdin: f.next_tick_to_send.additional_stdin,
                    ..t
                }
            }
        },
        Key::Backspace => {
            &&& unchanged_but_input
            &&& f.next_tick_to_send == t
            &&& f.current_input@ == if o.current_input@.len() > 0 {
                o.current_input@.drop_last()
            } else {
                o.current_input@
            }
        },
        Key::Char(c) => {
            &&& unchanged_but_input
            &&& f.next_tick_to_send == t
            &&& f.current_input@ == o.current_input@.push(c)
        },
        _ => f == o,
    }
}

/// Applies the words of a `!` command to the directive being prepared.
pub fn apply_command(app: &mut App, words: &Vec<String>)
    ensures
        only_tick_changed(
            *old(app),
            *final(app),
            command_tick(old(app).next_tick_to_send, views_of(words@)),
        ),
{
    let ghost w = views_of(words@);
    if words.len() > 0 && same_text(words[0].as_str(), "!pause") {
        app.next_tick_to_send.toggle_pause = true;
    } else if words.len() > 2 && same_text(words[0].as_str(), "!setr") {
        assert(w[0] == words@[0]@ && w[1] == words@[1]@ && w[2] == words@[2]@);
        if let Some(register_idx) = parse_usize(words[1].as_str()) {
            if let Some(register_value) = parse_u16(words[2].as_str()) {
                app.next_tick_to_send.set_register_id = Some(register_idx);
                app.next_tick_to_send.set_register_value = register_value;
            }
        }
    }
}

/// Handles a `!` command line typed into the viewer.
pub fn handle_command(app: &mut App, input: String)
    ensures
        only_tick_changed(
            *old(app),
            *final(app),
            command_tick(old(app).next_tick_to_send, whitespace_words(input@)),
        ),
{
    let words = split_words(input.as_str());
    apply_command(app, &words);
}

/// Handles one key press.
pub fn update(app: &mut App, key: Key)
    ensures
        key_outcome(*old(app), *final(app), key),
{
    match key {
        Key::Esc => app.quit(),
        Key::Tab => app.toggle_page(),
        Key::Up => app.memory_page_scroll = app.memory_page_scroll.saturating_sub(1),
        Key::Down => app.memory_page_scroll = app.memory_page_scroll.saturating_add(1),
        Key::F(5) => app.next_tick_to_send.save_state = true,
        Key::F(6) => app.next_tick_to_send.write_history = true,
        Key::F(8) => app.next_tick_to_send.step_once = true,
        Key::F(9) => app.next_tick_to_send.load_state = true,
        Key::Enter => {
            let line = app.current_input.clone();
            if starts_with_char(line.as_str(), '!') {
                handle_command(app, line);
            } else {
                let mut result = line;
                push_char(&mut result, '\n');
                app.next_tick_to_send.additional_stdin = result;
            }
            app.current_input = String::new();
        },
        Key::Backspace => {
            pop_char(&mut app.current_input);
        },
        Key::Char(c) => {
            push_char(&mut app.current_input, c);
        },
        _ => {},
    }
}

impl App {
    /// A viewer on the output page, with nothing typed and nothing pending.
    pub fn new() -> (r: App)
        ensures
            !r.should_quit,
            r.current_input@.len() == 0,
            r.active_page == Page::Output,
            r.memory_page_scroll == 0,
            r.next_tick_to_send.is_empty(),
            r.last_update.current_instruction == Ok::<Instruction, DecoderError>(Instruction::Noop),
            r.last_update.savestate@ == SavestateModel::initial(),
    {
        App {
            should_quit: false,
            current_input: String::new(),
            active_page: Page::Output,
            memory_page_scroll: 0,
            next_tick_to_send: VirtualMachineSubscriptionTick::default(),
            last_update: Box::new(VirtualMachineSubscriptionUpdate::default()),
        }
    }

    /// Hands out the directive prepared since the last frame (to be sent,
    /// even when empty) and starts an empty one.
    pub fn tick(&mut self) -> (r: VirtualMachineSubscriptionTick)
        ensures
            r == old(self).next_tick_to_send,
            final(self).next_tick_to_send.is_empty(),
            final(self).should_quit == old(self).should_quit,
            final(self).current_input == old(self).current_input,
            final(self).active_page == old(self).active_page,
            final(self).memory_page_scroll == old(self).memory_page_scroll,
            final(self).last_update == old(self).last_update,
    {
        let mut fresh = VirtualMachineSubscriptionTick::default();
        std::mem::swap(&mut fresh, &mut self.next_tick_to_send);
        fresh
    }

    /// Keeps the newest update from the machine for display.
    pub fn update(&mut self, update: Box<VirtualMachineSubscriptionUpdate>)
        ensures
            *final(self) == (App { last_update: update, ..*old(self) }),
    {
        self.last_update = update;
    }

    /// Switches between the output page and the memory page.
    pub fn toggle_page(&mut self)
        ensures
            *final(self) == (App {
                active_page: if old(self).active_page == Page::Output {
                    Page::MemoryView
                } else {
                    Page::Output
                },
                ..*old(self)
            }),
    {
        self.active_page = match self.active_page {
            Page::Output => Page::MemoryView,
            Page::MemoryView => Page::Output,
        }
    }

    /// Asks the viewer to quit.
    pub fn quit(&mut self)
        ensures
            *final(self) == (App { should_quit: true, ..*old(self) }),
    {
        self.should_quit = true;
    }

    /// Keeps the memory page within the heap: a page of `values_total`
    /// cells in lines of `values_per_line` must not run past the last cell.
    pub fn clamp_memory_scroll(&mut self, values_per_line: usize, values_total: usize)
        requires
            values_per_line > 0,
            values_total <= HEAP_SIZE,
        ensures
            *final(self) == (App {
                memory_page_scroll: if old(self).memory_page_scroll * values_per_line
                    + values_total > HEAP_SIZE {
                    ((HEAP_SIZE - values_total) as int / values_per_line as int) as usize
                } else {
                    old(self).memory_page_scroll
                },
                ..*old(self)
            }),
            final(self).memory_page_scroll * values_per_line + values_total <= HEAP_SIZE,
    {
        let limit = (HEAP_SIZE - values_total) / values_per_line;
        let scroll = self.memory_page_scroll;
        proof {
            let room = (HEAP_SIZE - values_total) as int;
            let p = values_per_line as int;
            assert(limit * p <= room) by (nonlinear_arith)
                requires
                    limit == room / p,
                    p > 0,
                    room >= 0,
            ;
            assert(room < (limit + 1) * p) by (nonlinear_arith)
                requires
                    limit == room / p,
                    p > 0,
                    room >= 0,
            ;
            assert((scroll > limit) == (scroll * p > room)) by (nonlinear_arith)
                requires
                    limit * p <= room,
                    room < (limit + 1) * p,
                    p > 0,
                    scroll >= 0,
            ;
        }
        if scroll > limit {
            self.memory_page_scroll = limit;
        }
    }
}

} // verus!
