//! The addressable state of the machine: heap, registers and stack, with the
//! operand-resolution rule and the raw-memory accessors.

use vstd::prelude::*;

verus! {

/// Number of heap cells (a 15-bit space).
pub const HEAP_SIZE: usize = 32768;

/// Highest heap address; also the largest literal operand.
pub const MAX_ADDRESS: u16 = 32767;

/// Number of general-purpose registers.
pub const AMOUNT_REGISTERS: usize = 8;

/// Address of register 0.
pub const REGISTER_ADDRESS_START: u16 = 32768;

/// Address of the last register.
pub const REGISTER_ADDRESS_END: u16 = 32775;

/// How many register lookups operand resolution follows before it gives up:
/// a chain through more registers than exist must revisit one of them.
pub const MAX_REGISTER_HOPS: usize = 8;

/// A fatal fault of the executor.
#[derive(Debug, Clone, Copy, PartialEq, Eq, Structural)]
pub enum VmError {
    /// An operand or raw-memory reference outside `[0, 32775]`, or a write to
    /// a non-register address; holds the offending value.
    AddressingViolation(u16),
    /// Register aliasing that never reaches a literal; holds the operand.
    RegisterCycle(u16),
    /// POP or RET on an empty stack.
    StackUnderflow,
    /// MOD by zero.
    ArithmeticError,
}

/// `v` denotes itself.
pub open spec fn is_literal(v: u16) -> bool {
    v <= MAX_ADDRESS
}

/// `v` names a register.
pub open spec fn is_register(v: u16) -> bool {
    REGISTER_ADDRESS_START <= v <= REGISTER_ADDRESS_END
}

/// `v` is a legal heap-or-register index.
pub open spec fn is_address(v: u16) -> bool {
    v <= REGISTER_ADDRESS_END
}

/// Follows register references from `v` through `regs`, taking at most
/// `hops` lookups; `None` when the chain is still on a register after that.
pub open spec fn resolve_within(regs: Seq<u16>, v: u16, hops: nat) -> Option<u16>
    decreases hops,
{
    if !is_register(v) {
        Some(v)
    } else if hops == 0 {
        None
    } else {
        resolve_within(regs, regs[v - REGISTER_ADDRESS_START], (hops - 1) as nat)
    }
}

/// Mathematical model of `Memory`.
pub struct MemoryModel {
    pub heap: Seq<u16>,
    pub registers: Seq<u16>,
    pub stack: Seq<(u16, Option<u16>)>,
}

impl MemoryModel {
    /// Operand resolution: a literal is itself, a register is resolved through
    /// aliasing, and a value outside `[0, 32775]`, given or reached through a
    /// register, is a violation. Success always yields a literal.
    pub open spec fn read(self, v: u16) -> Result<u16, VmError> {
        match resolve_within(self.registers, v, MAX_REGISTER_HOPS as nat) {
            Some(x) => if is_literal(x) {
                Ok(x)
            } else {
                Err(VmError::AddressingViolation(x))
            },
            None => Err(VmError::RegisterCycle(v)),
        }
    }

    /// Stores the resolved `value` into register `address`: registers only
    /// ever receive literals.
    pub open spec fn write(self, address: u16, value: u16) -> Result<MemoryModel, VmError> {
        if !is_register(address) {
            Err(VmError::AddressingViolation(address))
        } else {
            match self.read(value) {
                Ok(x) => Ok(
                    MemoryModel {
                        registers: self.registers.update(address - REGISTER_ADDRESS_START, x),
                        ..self
                    },
                ),
                Err(e) => Err(e),
            }
        }
    }

    /// Direct heap-or-register read, with no resolution.
    pub open spec fn mem_read(self, address: u16) -> Result<u16, VmError> {
        if address <= MAX_ADDRESS {
            Ok(self.heap[address as int])
        } else if is_register(address) {
            Ok(self.registers[address - REGISTER_ADDRESS_START])
        } else {
            Err(VmError::AddressingViolation(address))
        }
    }

    /// Direct heap-or-register write, with no resolution.
    pub open spec fn mem_write(self, address: u16, value: u16) -> Result<MemoryModel, VmError> {
        if address <= MAX_ADDRESS {
            Ok(MemoryModel { heap: self.heap.update(address as int, value), ..self })
        } else if is_register(address) {
            Ok(
                MemoryModel {
                    registers: self.registers.update(address - REGISTER_ADDRESS_START, value),
                    ..self
                },
            )
        } else {
            Err(VmError::AddressingViolation(address))
        }
    }

    /// The initial memory: all cells and registers zero, stack empty.
    pub open spec fn zeroed() -> MemoryModel {
        MemoryModel {
            heap: Seq::new(HEAP_SIZE as nat, |i: int| 0u16),
            registers: Seq::new(AMOUNT_REGISTERS as nat, |i: int| 0u16),
            stack: Seq::empty(),
        }
    }

    /// Every register holds a literal.
    pub open spec fn registers_literal(self) -> bool {
        forall|i: int| 0 <= i < self.registers.len() ==> is_literal(#[trigger] self.registers[i])
    }

    /// Heap and registers have their fixed sizes.
    pub open spec fn well_sized(self) -> bool {
        self.heap.len() == HEAP_SIZE && self.registers.len() == AMOUNT_REGISTERS
    }
}

/// Heap, registers and the call/value stack. Each stack entry holds a value
/// and, for return addresses, the call target it was pushed for (shown in
/// diagnostics only).
#[derive(Debug)]
pub struct Memory {
    pub heap: [u16; HEAP_SIZE],
    pub registers: [u16; AMOUNT_REGISTERS],
    pub stack: Vec<(u16, Option<u16>)>,
}

impl View for Memory {
    type V = MemoryModel;

    open spec fn view(&self) -> MemoryModel {
        MemoryModel { heap: self.heap@, registers: self.registers@, stack: self.stack@ }
    }
}

impl Default for Memory {
    fn default() -> (r: Memory)
        ensures
            r@ == MemoryModel::zeroed(),
    {
        let r = Memory {
            heap: [0u16; HEAP_SIZE],
            registers: [0u16; AMOUNT_REGISTERS],
            stack: Vec::new(),
        };
        assert(r.heap@ =~= MemoryModel::zeroed().heap);
        assert(r.registers@ =~= MemoryModel::zeroed().registers);
        r
    }
}

impl Memory {
    /// A deep copy of this memory.
    pub fn duplicate(&self) -> (r: Memory)
        ensures
            r@ == self@,
    {
        let mut stack: Vec<(u16, Option<u16>)> = Vec::new();
        let mut i: usize = 0;
        while i < self.stack.len()
            invariant
                i <= self.stack@.len(),
                stack@ == self.stack@.subrange(0, i as int),
            decreases self.stack@.len() - i,
        {
            stack.push(self.stack[i]);
            i = i + 1;
            assert(stack@ =~= self.stack@.subrange(0, i as int));
        }
        assert(stack@ =~= self.stack@);
        Memory { heap: self.heap, registers: self.registers, stack }
    }

    /// Resolves an operand: literals denote themselves, register addresses
    /// resolve through registers (following aliases up to a bounded number of
    /// hops), anything else fails.
    pub fn read(&self, value: &u16) -> (r: Result<u16, VmError>)
        ensures
            r == self@.read(*value),
            r matches Ok(x) ==> x <= MAX_ADDRESS,
    {
        let v = *value;
        let mut current: u16 = v;
        let mut hops: usize = 0;
        while current >= REGISTER_ADDRESS_START && current <= REGISTER_ADDRESS_END
            invariant
                v == *value,
                hops <= MAX_REGISTER_HOPS,
                resolve_within(self.registers@, current, (MAX_REGISTER_HOPS - hops) as nat)
                    == resolve_within(self.registers@, v, MAX_REGISTER_HOPS as nat),
            decreases MAX_REGISTER_HOPS - hops,
        {
            if hops == MAX_REGISTER_HOPS {
                assert(resolve_within(self.registers@, current, 0) is None);
                return Err(VmError::RegisterCycle(v));
            }
            current = self.registers[(current - REGISTER_ADDRESS_START) as usize];
            hops = hops + 1;
        }
        if current > MAX_ADDRESS {
            return Err(VmError::AddressingViolation(current));
        }
        Ok(current)
    }

    /// Stores into the register at `address` the value resolved by the
    /// addressing rule: a literal as it is, a register's address as that
    /// register's current literal content (a copy, never a live alias).
    /// A value above 32775 is a violation. On failure nothing changes.
    pub fn write(&mut self, address: &u16, value: u16) -> (r: Result<(), VmError>)
        ensures
            match old(self)@.write(*address, value) {
                Ok(m) => r is Ok && final(self)@ == m,
                Err(e) => r == Err::<(), VmError>(e) && final(self)@ == old(self)@,
            },
    {
        let a = *address;
        if a < REGISTER_ADDRESS_START || a > REGISTER_ADDRESS_END {
            return Err(VmError::AddressingViolation(a));
        }
        let stored = self.read(&value)?;
        self.registers[(a - REGISTER_ADDRESS_START) as usize] = stored;
        Ok(())
    }

    /// Reads the heap cell or register at `address` directly.
    pub fn mem_read(&self, address: &u16) -> (r: Result<u16, VmError>)
        ensures
            r == self@.mem_read(*address),
    {
        let a = *address;
        if a <= MAX_ADDRESS {
            Ok(self.heap[a as usize])
        } else if a <= REGISTER_ADDRESS_END {
            Ok(self.registers[(a - REGISTER_ADDRESS_START) as usize])
        } else {
            Err(VmError::AddressingViolation(a))
        }
    }

    /// Writes the heap cell or register at `address` directly. On failure
    /// nothing changes.
    pub fn mem_write(&mut self, address: &u16, value: u16) -> (r: Result<(), VmError>)
        ensures
            match old(self)@.mem_write(*address, value) {
                Ok(m) => r is Ok && final(self)@ == m,
                Err(e) => r == Err::<(), VmError>(e) && final(self)@ == old(self)@,
            },
    {
        let a = *address;
        if a <= MAX_ADDRESS {
            self.heap[a as usize] = value;
            Ok(())
        } else if a <= REGISTER_ADDRESS_END {
            self.registers[(a - REGISTER_ADDRESS_START) as usize] = value;
            Ok(())
        } else {
            Err(VmError::AddressingViolation(a))
        }
    }
}

} // verus!
