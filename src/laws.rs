//! Laws of the machine, proved over the models that the executable
//! functions' contracts are stated in.

use vstd::prelude::*;
use vstd::set_lib::{lemma_int_range, lemma_len_subset, lemma_map_size, set_int_range};

use crate::executor::{alu, execute_spec, status_spec, Status};
use crate::machine::{input_byte, MachineModel};
use crate::memory::{
    is_address, is_literal, is_register, resolve_within, MemoryModel, VmError, MAX_ADDRESS,
    MAX_REGISTER_HOPS, REGISTER_ADDRESS_START,
};
use crate::opcodes::Instruction;
use crate::scheduler::{cycle_spec, run_spec, Fault, RunStop, Trap};
use crate::subscription::{apply_directive, input_bytes, with_input, VirtualMachineSubscriptionTick};

verus! {

/// Resolution never ends on a register address.
pub proof fn lemma_resolution_is_not_register(regs: Seq<u16>, v: u16, hops: nat)
    ensures
        resolve_within(regs, v, hops) matches Some(x) ==> !is_register(x),
    decreases hops,
{
    if is_register(v) && hops > 0 {
        lemma_resolution_is_not_register(regs, regs[v - REGISTER_ADDRESS_START], (hops - 1) as nat);
    }
}

/// The value reached after `k` register lookups from `v` (a value that is
/// not a register address stays put).
pub open spec fn alias_chain(regs: Seq<u16>, v: u16, k: nat) -> u16
    decreases k,
{
    if k == 0 {
        v
    } else {
        let p = alias_chain(regs, v, (k - 1) as nat);
        if is_register(p) {
            regs[p - REGISTER_ADDRESS_START]
        } else {
            p
        }
    }
}

/// One lookup, then `k` more, is `k + 1` lookups.
proof fn lemma_chain_shift(regs: Seq<u16>, v: u16, k: nat)
    requires
        is_register(v),
    ensures
        alias_chain(regs, v, k + 1) == alias_chain(regs, regs[v - REGISTER_ADDRESS_START], k),
    decreases k,
{
    if k > 0 {
        lemma_chain_shift(regs, v, (k - 1) as nat);
        assert(alias_chain(regs, v, k + 1) == {
            let p = alias_chain(regs, v, k);
            if is_register(p) {
                regs[p - REGISTER_ADDRESS_START]
            } else {
                p
            }
        });
    } else {
        reveal_with_fuel(alias_chain, 2);
    }
}

/// Resolution within `n` lookups fails exactly when the chain is still on
/// a register after `n` lookups.
proof fn lemma_resolution_follows_chain(regs: Seq<u16>, v: u16, n: nat)
    ensures
        resolve_within(regs, v, n) == if is_register(alias_chain(regs, v, n)) {
            None
        } else {
            Some(alias_chain(regs, v, n))
        },
    decreases n,
{
    if n > 0 {
        if is_register(v) {
            let next = regs[v - REGISTER_ADDRESS_START];
            lemma_resolution_follows_chain(regs, next, (n - 1) as nat);
            lemma_chain_shift(regs, v, (n - 1) as nat);
        } else {
            lemma_chain_stays_off_registers(regs, v, 0, n);
        }
    }
}

/// Once off the registers, the chain stays where it is.
proof fn lemma_chain_stays_off_registers(regs: Seq<u16>, v: u16, i: nat, j: nat)
    requires
        i <= j,
        !is_register(alias_chain(regs, v, i)),
    ensures
        alias_chain(regs, v, j) == alias_chain(regs, v, i),
    decreases j - i,
{
    if i < j {
        lemma_chain_stays_off_registers(regs, v, i, (j - 1) as nat);
    }
}

/// Equal points of the chain have equal successors.
proof fn lemma_chain_repeats(regs: Seq<u16>, v: u16, i: nat, j: nat, t: nat)
    requires
        alias_chain(regs, v, i) == alias_chain(regs, v, j),
    ensures
        alias_chain(regs, v, i + t) == alias_chain(regs, v, j + t),
    decreases t,
{
    if t > 0 {
        lemma_chain_repeats(regs, v, i, j, (t - 1) as nat);
    }
}

/// Nine register addresses in a row on the chain include a repeat.
proof fn lemma_chain_pigeonhole(regs: Seq<u16>, v: u16) -> (pair: (nat, nat))
    requires
        forall|k: nat| k <= 8 ==> is_register(#[trigger] alias_chain(regs, v, k)),
    ensures
        pair.0 < pair.1 <= 8,
        alias_chain(regs, v, pair.0) == alias_chain(regs, v, pair.1),
{
    let f = |i: int| alias_chain(regs, v, i as nat) - REGISTER_ADDRESS_START;
    let steps = set_int_range(0, 9);
    let slots = set_int_range(0, 8);
    lemma_int_range(0, 9);
    lemma_int_range(0, 8);
    if forall|i: int, j: int|
        steps.contains(i) && steps.contains(j) && #[trigger] f(i) == #[trigger] f(j) ==> i == j {
        assert(vstd::relations::injective_on(f, steps));
        lemma_map_size(steps, steps.map(f), f);
        assert forall|x: int| #[trigger] steps.map(f).contains(x) implies slots.contains(x) by {
            let i = choose|i: int| steps.contains(i) && f(i) == x;
            assert(is_register(alias_chain(regs, v, i as nat)));
        }
        lemma_len_subset(steps.map(f), slots);
        assert(false);
        (0, 1)
    } else {
        let (i, j) = choose|i: int, j: int|
            steps.contains(i) && steps.contains(j) && #[trigger] f(i) == #[trigger] f(j) && i != j;
        if i < j {
            (i as nat, j as nat)
        } else {
            (j as nat, i as nat)
        }
    }
}

/// Resolution gives up only on a genuine register cycle: when it fails
/// within the bounded number of lookups, no number of lookups would reach a
/// value that is not a register address.
pub proof fn lemma_register_cycle_is_genuine(regs: Seq<u16>, v: u16, n: nat)
    requires
        resolve_within(regs, v, MAX_REGISTER_HOPS as nat) is None,
    ensures
        resolve_within(regs, v, n) is None,
{
    lemma_resolution_follows_chain(regs, v, MAX_REGISTER_HOPS as nat);
    assert forall|k: nat| k <= 8 implies is_register(#[trigger] alias_chain(regs, v, k)) by {
        if !is_register(alias_chain(regs, v, k)) {
            lemma_chain_stays_off_registers(regs, v, k, 8);
        }
    }
    let (i, j) = lemma_chain_pigeonhole(regs, v);
    lemma_chain_always_register(regs, v, i, j, n);
    lemma_resolution_follows_chain(regs, v, n);
}

/// With a repeat at `i < j <= 8` and registers up to step 8, every step of
/// the chain is a register.
proof fn lemma_chain_always_register(regs: Seq<u16>, v: u16, i: nat, j: nat, n: nat)
    requires
        i < j <= 8,
        alias_chain(regs, v, i) == alias_chain(regs, v, j),
        forall|k: nat| k <= 8 ==> is_register(#[trigger] alias_chain(regs, v, k)),
    ensures
        is_register(alias_chain(regs, v, n)),
    decreases n,
{
    if n > 8 {
        let t = (n - j) as nat;
        lemma_chain_repeats(regs, v, i, j, t);
        lemma_chain_always_register(regs, v, i, j, i + t);
    }
}

/// Every register holds a literal, and the register file has its size.
pub open spec fn literal_registers(mem: MemoryModel) -> bool {
    mem.well_sized() && mem.registers_literal()
}

/// Storing a literal into a register keeps every register holding a literal.
proof fn lemma_update_keeps_literals(mem: MemoryModel, k: int, x: u16)
    requires
        literal_registers(mem),
        0 <= k < mem.registers.len(),
        x <= MAX_ADDRESS,
    ensures
        literal_registers(MemoryModel { registers: mem.registers.update(k, x), ..mem }),
{
    let after = MemoryModel { registers: mem.registers.update(k, x), ..mem };
    assert forall|i: int| 0 <= i < after.registers.len() implies is_literal(
        #[trigger] after.registers[i],
    ) by {
        if i != k {
            assert(after.registers[i] == mem.registers[i]);
        }
    }
}

/// A successful operand write leaves every register holding a literal.
pub broadcast proof fn lemma_write_keeps_literals(mem: MemoryModel, a: u16, v: u16)
    requires
        literal_registers(mem),
    ensures
        #[trigger] mem.write(a, v) matches Ok(after) ==> literal_registers(after),
{
    if let Ok(after) = mem.write(a, v) {
        lemma_update_keeps_literals(mem, a - REGISTER_ADDRESS_START, mem.read(v)->Ok_0);
    }
}

/// Executing any instruction keeps every register holding a literal.
pub proof fn lemma_execute_keeps_literals(i: Instruction, m: MachineModel)
    requires
        literal_registers(m.memory),
    ensures
        execute_spec(i, m) matches Ok(after) ==> literal_registers(after.memory),
{
    broadcast use lemma_write_keeps_literals;

    match i {
        Instruction::Store(a, b) => {
            if let (Ok(v), Ok(p)) = (m.memory.read(b), m.memory.read(a)) {
                if is_register(p) {
                    lemma_update_keeps_literals(m.memory, p - REGISTER_ADDRESS_START, v);
                }
            }
        },
        Instruction::Pop(a) => {
            if m.memory.stack.len() > 0 {
                if let Ok(mem) = m.memory.write(a, m.memory.stack.last().0) {
                    assert(literal_registers(mem));
                }
            }
        },
        Instruction::Push(_) | Instruction::Call(_) | Instruction::Return => {
            assert(literal_registers(m.memory));
        },
        _ => {},
    }
}

/// Registers of the live state and of the snapshot slot all hold literals.
pub open spec fn machine_registers_literal(m: MachineModel) -> bool {
    literal_registers(m.memory) && literal_registers(m.saved.memory)
}

/// A fresh machine's registers hold literals, and every cycle, run and
/// directive keeps them so: registers only ever hold literals.
pub proof fn lemma_registers_stay_literal(
    m: MachineModel,
    budget: nat,
    t: VirtualMachineSubscriptionTick,
)
    requires
        machine_registers_literal(m),
    ensures
        machine_registers_literal(MachineModel::initial()),
        cycle_spec(m) matches Ok((after, _)) ==> machine_registers_literal(after),
        machine_registers_literal(run_spec(m, budget).0),
        machine_registers_literal(apply_directive(m, t)),
    decreases budget,
{
    broadcast use lemma_write_keeps_literals;

    assert(literal_registers(MemoryModel::zeroed()));
    if let Ok(i) = m.next_instruction() {
        lemma_execute_keeps_literals(i, m);
    }
    if m.runnable() && budget > 0 {
        if let Ok((m2, Status::Executed)) = cycle_spec(m) {
            lemma_registers_stay_literal(
                MachineModel { step_once: false, ..m2 },
                (budget - 1) as nat,
                t,
            );
        }
    }
}

/// A literal operand resolves to itself, whatever the registers hold.
pub proof fn lemma_literal_reads_itself(mem: MemoryModel, v: u16)
    requires
        v <= MAX_ADDRESS,
    ensures
        mem.read(v) == Ok::<u16, VmError>(v),
{
}

/// Resolution succeeds only with a literal.
pub proof fn lemma_read_yields_literal(mem: MemoryModel, v: u16)
    ensures
        mem.read(v) matches Ok(x) ==> x <= MAX_ADDRESS,
{
}

/// Writing a literal into register `r`, then reading `r`, gives the literal
/// back.
pub proof fn lemma_write_then_read(mem: MemoryModel, r: u16, v: u16)
    requires
        mem.well_sized(),
        is_register(r),
        v <= MAX_ADDRESS,
    ensures
        mem.write(r, v) matches Ok(after) && after.read(r) == Ok::<u16, VmError>(v),
{
    let after = mem.write(r, v)->Ok_0;
    reveal_with_fuel(resolve_within, 2);
    assert(after.registers[r - REGISTER_ADDRESS_START] == v);
}

/// Writing a value above the register range into a register is a violation
/// and changes nothing.
pub proof fn lemma_write_rejects_non_address(mem: MemoryModel, r: u16, v: u16)
    requires
        is_register(r),
        !is_address(v),
    ensures
        mem.write(r, v) == Err::<MemoryModel, VmError>(VmError::AddressingViolation(v)),
{
}

/// Writing register `s`'s address into register `r` copies the literal that
/// `s` resolves to at that moment: changing `s` afterwards leaves `r` as it
/// was.
pub proof fn lemma_write_copies_not_aliases(mem: MemoryModel, r: u16, s: u16, later: u16)
    requires
        mem.well_sized(),
        is_register(r),
        is_register(s),
        r != s,
        mem.read(s) is Ok,
        later <= MAX_ADDRESS,
    ensures
        mem.write(r, s) is Ok,
        ({
            let copied = mem.write(r, s)->Ok_0;
            &&& copied.registers[r - REGISTER_ADDRESS_START] == mem.read(s)->Ok_0
            &&& copied.registers[r - REGISTER_ADDRESS_START] <= MAX_ADDRESS
            &&& copied.write(s, later) matches Ok(changed) && changed.read(r) == mem.read(s)
        }),
{
    let x = mem.read(s)->Ok_0;
    let copied = mem.write(r, s)->Ok_0;
    assert(copied.registers[r - REGISTER_ADDRESS_START] == x);
    reveal_with_fuel(resolve_within, 2);
    let changed = copied.write(s, later)->Ok_0;
    assert(changed.registers[r - REGISTER_ADDRESS_START] == x);
}

/// ADD and MULT results stay in the 15-bit space: they are the sum and the
/// product modulo 32768, for all operands.
pub proof fn lemma_add_mult_wrap(a: u16, b: u16, c: u16, x: u16, y: u16)
    ensures
        alu(Instruction::Add(a, b, c), x, y) matches Some(v) && v <= MAX_ADDRESS && v == (x + y)
            % 32768,
        alu(Instruction::Mult(a, b, c), x, y) matches Some(v) && v <= MAX_ADDRESS && v == (x * y)
            % 32768,
{
}

/// After an ADD or MULT executes, its target register holds a value in the
/// 15-bit space.
pub proof fn lemma_add_mult_store_in_range(i: Instruction, m: MachineModel)
    requires
        i is Add || i is Mult,
        m.memory.well_sized(),
        execute_spec(i, m) is Ok,
    ensures
        ({
            let a = match i {
                Instruction::Add(a, _, _) => a,
                Instruction::Mult(a, _, _) => a,
                _ => 0,
            };
            execute_spec(i, m)->Ok_0.memory.registers[a - REGISTER_ADDRESS_START] <= MAX_ADDRESS
        }),
{
}

/// ADD and MULT of resolved operands store the sum and the product modulo
/// 32768 into the target register and move past the instruction.
pub proof fn lemma_add_mult_effect(m: MachineModel, a: u16, b: u16, c: u16)
    requires
        m.memory.well_sized(),
        is_register(a),
        m.memory.read(b) is Ok,
        m.memory.read(c) is Ok,
    ensures
        ({
            let x = m.memory.read(b)->Ok_0;
            let y = m.memory.read(c)->Ok_0;
            let sum = execute_spec(Instruction::Add(a, b, c), m);
            let product = execute_spec(Instruction::Mult(a, b, c), m);
            &&& sum is Ok
            &&& sum->Ok_0.memory.registers[a - REGISTER_ADDRESS_START] == (x + y) % 32768
            &&& sum->Ok_0.program_counter == (m.program_counter + 4) as u16
            &&& product is Ok
            &&& product->Ok_0.memory.registers[a - REGISTER_ADDRESS_START] == (x * y) % 32768
            &&& product->Ok_0.program_counter == (m.program_counter + 4) as u16
        }),
{
    let x = m.memory.read(b)->Ok_0;
    let y = m.memory.read(c)->Ok_0;
    let s = ((x + y) % 32768) as u16;
    let p = ((x * y) % 32768) as u16;
    assert(m.memory.read(s) == Ok::<u16, VmError>(s));
    assert(m.memory.read(p) == Ok::<u16, VmError>(p));
}

/// MOD by a zero divisor faults with an arithmetic error, and a run that
/// reaches it stops there with a trap at that instruction, state unchanged.
pub proof fn lemma_mod_by_zero_traps(m: MachineModel, a: u16, b: u16, c: u16, budget: nat)
    requires
        m.memory.read(b) is Ok,
        m.memory.read(c) == Ok::<u16, VmError>(0),
        m.runnable(),
        budget > 0,
        m.next_instruction() == Ok::<Instruction, crate::opcodes::DecoderError>(
            Instruction::Mod(a, b, c),
        ),
    ensures
        execute_spec(Instruction::Mod(a, b, c), m) == Err::<MachineModel, VmError>(
            VmError::ArithmeticError,
        ),
        run_spec(m, budget) == (
            m,
            Err::<RunStop, Trap>(
                Trap {
                    program_counter: m.program_counter,
                    fault: Fault::Execute(Instruction::Mod(a, b, c), VmError::ArithmeticError),
                },
            ),
        ),
{
}

/// CALL followed by RET comes back to the instruction after the CALL, for
/// every target, with the stack as it was.
pub proof fn lemma_call_then_return(m: MachineModel, a: u16)
    requires
        m.memory.read(a) is Ok,
    ensures
        execute_spec(Instruction::Call(a), m) matches Ok(called) && execute_spec(
            Instruction::Return,
            called,
        ) matches Ok(back) && back.program_counter == (m.program_counter + 2) as u16
            && back.memory == m.memory,
{
    let called = execute_spec(Instruction::Call(a), m)->Ok_0;
    assert(called.memory.stack.drop_last() =~= m.memory.stack);
    assert(MemoryModel { stack: m.memory.stack, ..m.memory } == m.memory);
}

/// PUSH then POP hands the pushed value to the register and leaves the
/// stack as it was, at any depth.
pub proof fn lemma_push_then_pop(m: MachineModel, a: u16, r: u16)
    requires
        m.memory.well_sized(),
        m.memory.read(a) is Ok,
        is_register(r),
    ensures
        execute_spec(Instruction::Push(a), m) matches Ok(pushed) && execute_spec(
            Instruction::Pop(r),
            pushed,
        ) matches Ok(popped) && popped.memory.registers[r - REGISTER_ADDRESS_START]
            == m.memory.read(a)->Ok_0 && popped.memory.stack == m.memory.stack,
{
    let v = m.memory.read(a)->Ok_0;
    lemma_resolution_is_not_register(m.memory.registers, a, MAX_REGISTER_HOPS as nat);
    let pushed = execute_spec(Instruction::Push(a), m)->Ok_0;
    assert(pushed.memory.stack.last() == (v, None::<u16>));
    assert(pushed.memory.stack.drop_last() =~= m.memory.stack);
}

/// The state after executing `program` from `m` in order; an instruction
/// that faults is skipped.
pub open spec fn run_each(m: MachineModel, program: Seq<Instruction>) -> MachineModel
    decreases program.len(),
{
    if program.len() == 0 {
        m
    } else {
        let before = run_each(m, program.drop_last());
        match execute_spec(program.last(), before) {
            Ok(after) => after,
            Err(_) => before,
        }
    }
}

/// PUSH of each operand of `xs`, in order.
pub open spec fn push_program(xs: Seq<u16>) -> Seq<Instruction> {
    Seq::new(xs.len(), |k: int| Instruction::Push(xs[k]))
}

/// POP into each of the first `n` registers of `rs`, in order.
pub open spec fn pop_program(rs: Seq<u16>, n: nat) -> Seq<Instruction> {
    Seq::new(n, |k: int| Instruction::Pop(rs[k]))
}

/// The stack entries that pushing `xs` adds, resolved against `mem`.
pub open spec fn pushed_entries(mem: MemoryModel, xs: Seq<u16>) -> Seq<(u16, Option<u16>)> {
    Seq::new(xs.len(), |k: int| (mem.read(xs[k])->Ok_0, None::<u16>))
}

/// Pushing `xs` appends their resolved values to the stack and changes no
/// register or heap cell.
proof fn lemma_pushes(m: MachineModel, xs: Seq<u16>)
    requires
        forall|k: int| 0 <= k < xs.len() ==> (#[trigger] m.memory.read(xs[k])) is Ok,
    ensures
        run_each(m, push_program(xs)).memory == (MemoryModel {
            stack: m.memory.stack + pushed_entries(m.memory, xs),
            ..m.memory
        }),
    decreases xs.len(),
{
    if xs.len() == 0 {
        assert(push_program(xs) =~= Seq::<Instruction>::empty());
        assert(m.memory.stack + pushed_entries(m.memory, xs) =~= m.memory.stack);
    } else {
        let init = xs.drop_last();
        assert(push_program(xs).drop_last() =~= push_program(init));
        assert forall|k: int| 0 <= k < init.len() implies (#[trigger] m.memory.read(
            init[k],
        )) is Ok by {
            assert(init[k] == xs[k]);
        }
        lemma_pushes(m, init);
        assert(m.memory.read(xs[xs.len() - 1]) is Ok);
        assert((m.memory.stack + pushed_entries(m.memory, init)).push(
            (m.memory.read(xs.last())->Ok_0, None::<u16>),
        ) =~= m.memory.stack + pushed_entries(m.memory, xs));
    }
}

/// Popping into the first `k` registers of `rs` from a stack that ends with
/// `entries` removes the last `k` entries, the `k`-th pop storing the value
/// of entry `len - k`.
proof fn lemma_pops(
    m: MachineModel,
    rs: Seq<u16>,
    base: Seq<(u16, Option<u16>)>,
    entries: Seq<(u16, Option<u16>)>,
    k: nat,
)
    requires
        literal_registers(m.memory),
        m.memory.stack == base + entries,
        k <= entries.len() <= rs.len(),
        forall|j: int| 0 <= j < rs.len() ==> is_register(#[trigger] rs[j]),
        forall|j: int| 0 <= j < entries.len() ==> (#[trigger] entries[j]).0 <= MAX_ADDRESS,
    ensures
        literal_registers(run_each(m, pop_program(rs, k)).memory),
        run_each(m, pop_program(rs, k)).memory.stack == base + entries.take(
            entries.len() - k,
        ),
        k > 0 ==> run_each(m, pop_program(rs, k)).memory.registers[rs[k - 1]
            - REGISTER_ADDRESS_START] == entries[entries.len() - k].0,
    decreases k,
{
    broadcast use lemma_write_keeps_literals;

    if k == 0 {
        assert(pop_program(rs, 0) =~= Seq::<Instruction>::empty());
        assert(entries.take(entries.len() as int) =~= entries);
    } else {
        lemma_pops(m, rs, base, entries, (k - 1) as nat);
        assert(pop_program(rs, k).drop_last() =~= pop_program(rs, (k - 1) as nat));
        let before = run_each(m, pop_program(rs, (k - 1) as nat));
        let rest = base + entries.take(entries.len() - k + 1);
        assert(rest.last() == entries[entries.len() - k]);
        assert(rest.drop_last() =~= base + entries.take(entries.len() - k));
        let v = entries[entries.len() - k].0;
        assert(before.memory.read(v) == Ok::<u16, VmError>(v));
    }
}

/// PUSH of `n >= 1` operands followed by `n` POPs hands the values back in
/// reverse order, each exactly, and leaves the stack as it was.
pub proof fn lemma_push_pop_sequence(m: MachineModel, xs: Seq<u16>, rs: Seq<u16>)
    requires
        literal_registers(m.memory),
        xs.len() >= 1,
        rs.len() == xs.len(),
        forall|k: int| 0 <= k < xs.len() ==> (#[trigger] m.memory.read(xs[k])) is Ok,
        forall|j: int| 0 <= j < rs.len() ==> is_register(#[trigger] rs[j]),
    ensures
        forall|k: nat|
            1 <= k <= xs.len() ==> #[trigger] run_each(
                run_each(m, push_program(xs)),
                pop_program(rs, k),
            ).memory.registers[rs[k - 1] - REGISTER_ADDRESS_START] == m.memory.read(
                xs[xs.len() - k],
            )->Ok_0,
        run_each(run_each(m, push_program(xs)), pop_program(rs, xs.len())).memory.stack
            == m.memory.stack,
{
    lemma_pushes(m, xs);
    let pushed = run_each(m, push_program(xs));
    let entries = pushed_entries(m.memory, xs);
    assert forall|j: int| 0 <= j < entries.len() implies (#[trigger] entries[j]).0
        <= MAX_ADDRESS by {
        lemma_read_yields_literal(m.memory, xs[j]);
    }
    assert(literal_registers(pushed.memory));
    assert forall|k: nat| 1 <= k <= xs.len() implies #[trigger] run_each(
        pushed,
        pop_program(rs, k),
    ).memory.registers[rs[k - 1] - REGISTER_ADDRESS_START] == m.memory.read(
        xs[xs.len() - k],
    )->Ok_0 by {
        lemma_pops(pushed, rs, m.memory.stack, entries, k);
    }
    lemma_pops(pushed, rs, m.memory.stack, entries, xs.len());
    assert(entries.take(0) =~= Seq::<(u16, Option<u16>)>::empty());
    assert(m.memory.stack + entries.take(0) =~= m.memory.stack);
}

/// POP and RET on an empty stack fault with a stack underflow.
pub proof fn lemma_empty_stack_underflows(m: MachineModel, r: u16)
    requires
        m.memory.stack.len() == 0,
    ensures
        execute_spec(Instruction::Pop(r), m) == Err::<MachineModel, VmError>(
            VmError::StackUnderflow,
        ),
        execute_spec(Instruction::Return, m) == Err::<MachineModel, VmError>(
            VmError::StackUnderflow,
        ),
{
}

/// A cycle leaves the snapshot slot alone.
pub proof fn lemma_cycle_keeps_snapshot(m: MachineModel)
    ensures
        cycle_spec(m) matches Ok((after, _)) ==> after.saved == m.saved,
{
}

/// A run of any length leaves the snapshot slot alone.
pub proof fn lemma_run_keeps_snapshot(m: MachineModel, budget: nat)
    ensures
        run_spec(m, budget).0.saved == m.saved,
    decreases budget,
{
    if m.runnable() && budget > 0 {
        if let Ok((m2, Status::Executed)) = cycle_spec(m) {
            lemma_run_keeps_snapshot(MachineModel { step_once: false, ..m2 }, (budget - 1) as nat);
        }
    }
}

/// A directive that does not save leaves the snapshot slot alone.
pub proof fn lemma_directive_keeps_snapshot(m: MachineModel, t: VirtualMachineSubscriptionTick)
    requires
        !t.save_state,
    ensures
        apply_directive(m, t).saved == m.saved,
{
}

/// Save (with a directive that writes no register), then run any number of
/// cycles and apply any directive that does not save (such as a register
/// write), then load (with a directive that writes no register): the cycle
/// count, program counter, memory, halted flag and buffers are exactly those
/// at the save.
pub proof fn lemma_snapshot_round_trip(
    m: MachineModel,
    save: VirtualMachineSubscriptionTick,
    cycles: nat,
    meddle: VirtualMachineSubscriptionTick,
    load: VirtualMachineSubscriptionTick,
)
    requires
        save.save_state,
        !save.load_state,
        save.set_register_id is None,
        !meddle.save_state,
        load.load_state,
        !load.save_state,
        load.set_register_id is None,
    ensures
        ({
            let at_save = apply_directive(m, save);
            let restored = apply_directive(
                apply_directive(run_spec(at_save, cycles).0, meddle),
                load,
            );
            &&& restored.cycle == at_save.cycle
            &&& restored.program_counter == at_save.program_counter
            &&& restored.memory == at_save.memory
            &&& restored.halted == at_save.halted
            &&& restored.history == at_save.history
            &&& restored.input == at_save.input
            &&& restored.output == at_save.output
        }),
{
    let at_save = apply_directive(m, save);
    lemma_run_keeps_snapshot(at_save, cycles);
    lemma_directive_keeps_snapshot(run_spec(at_save, cycles).0, meddle);
}

/// `n` successive IN instructions into register `r`, from `m`.
pub open spec fn read_inputs(m: MachineModel, r: u16, n: nat) -> MachineModel
    decreases n,
{
    if n == 0 {
        m
    } else {
        let before = read_inputs(m, r, (n - 1) as nat);
        match execute_spec(Instruction::In(r), before) {
            Ok(after) => after,
            Err(_) => before,
        }
    }
}

/// While `k` inputs of a replayed history have been read, the rest of it is
/// queued, in order.
proof fn lemma_replay_progress(m: MachineModel, r: u16, k: nat)
    requires
        is_register(r),
        m.memory.well_sized(),
        k <= m.input.len(),
        forall|i: int| 0 <= i < m.input.len() ==> !is_register(#[trigger] m.input[i] as u16),
    ensures
        read_inputs(m, r, k).input == m.input.skip(k as int),
        read_inputs(m, r, k).memory.well_sized(),
        k > 0 ==> read_inputs(m, r, k).memory.registers[r - REGISTER_ADDRESS_START]
            == m.input[k - 1] as u16,
    decreases k,
{
    if k > 0 {
        lemma_replay_progress(m, r, (k - 1) as nat);
        let before = read_inputs(m, r, (k - 1) as nat);
        assert(before.input[0] == m.input[k - 1]);
        assert(before.input.drop_first() =~= m.input.skip(k as int));
    } else {
        assert(m.input.skip(0) =~= m.input);
    }
}

/// The state after `k` takes of queued input.
pub open spec fn take_inputs(m: MachineModel, k: nat) -> MachineModel
    decreases k,
{
    if k == 0 {
        m
    } else {
        take_inputs(m, (k - 1) as nat).take_input().1
    }
}

/// After `k` takes, the rest of the queue is left, in order.
proof fn lemma_take_progress(m: MachineModel, k: nat)
    requires
        k <= m.input.len(),
    ensures
        take_inputs(m, k).input == m.input.skip(k as int),
    decreases k,
{
    if k > 0 {
        lemma_take_progress(m, (k - 1) as nat);
        assert(m.input.skip(k - 1).drop_first() =~= m.input.skip(k as int));
    } else {
        assert(m.input.skip(0) =~= m.input);
    }
}

/// A persisted input history, seeded into a fresh machine and taken byte by
/// byte with no live input, yields the `k`-th character's byte at the
/// `k`-th take, and nothing once the whole history is taken.
pub proof fn lemma_history_replay_takes(history: Seq<char>, k: nat)
    requires
        k < history.len(),
    ensures
        ({
            let seeded = with_input(MachineModel::initial(), history);
            &&& take_inputs(seeded, k).take_input().0 == Some(input_byte(history[k as int]))
            &&& take_inputs(seeded, history.len()).take_input().0 is None
        }),
{
    let seeded = with_input(MachineModel::initial(), history);
    assert(seeded.input =~= input_bytes(history));
    lemma_take_progress(seeded, k);
    lemma_take_progress(seeded, history.len());
}

/// A persisted input history, seeded into a fresh machine, is consumed
/// exactly: the `k`-th IN reads the `k`-th character's byte, in order, and
/// once the whole history has been read, IN waits for more input.
pub proof fn lemma_history_replay(history: Seq<char>, r: u16, k: nat)
    requires
        is_register(r),
        k < history.len(),
    ensures
        ({
            let seeded = with_input(MachineModel::initial(), history);
            &&& seeded.input == input_bytes(history)
            &&& seeded.history == history
            &&& status_spec(Instruction::In(r), read_inputs(seeded, r, k)) == Status::Executed
            &&& read_inputs(seeded, r, k + 1).memory.registers[r - REGISTER_ADDRESS_START]
                == input_byte(history[k as int]) as u16
            &&& status_spec(Instruction::In(r), read_inputs(seeded, r, history.len()))
                == Status::AwaitingInput
        }),
{
    let seeded = with_input(MachineModel::initial(), history);
    assert(seeded.input =~= input_bytes(history));
    assert(seeded.history =~= history);
    assert forall|i: int| 0 <= i < seeded.input.len() implies !is_register(
        #[trigger] seeded.input[i] as u16,
    ) by {}
    lemma_replay_progress(seeded, r, k);
    lemma_replay_progress(seeded, r, k + 1);
    lemma_replay_progress(seeded, r, history.len());
}

} // verus!
