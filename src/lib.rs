//! A register/stack virtual machine over a 15-bit address space: memory and
//! operand resolution, a decoder and executor for its 22 instructions, a
//! run loop gated by pause, single-step and halt, the directive/update
//! protocol of a live controller with snapshots and input history, and the
//! state of the debug shell and the live viewer.

pub mod debugger;
pub mod executor;
pub mod laws;
pub mod loader;
pub mod machine;
pub mod memory;
pub mod opcodes;
pub mod scheduler;
pub mod subscription;
pub mod text;
pub mod viewer;

pub use debugger::{DebugReply, Debugger};
pub use executor::Status;
pub use loader::transform_bytes_to_program_code;
pub use machine::{VirtualMachine, VirtualMachineSavestate};
pub use memory::{
    Memory, VmError, AMOUNT_REGISTERS, HEAP_SIZE, MAX_ADDRESS, REGISTER_ADDRESS_END,
    REGISTER_ADDRESS_START,
};
pub use opcodes::{DecoderError, Instruction};
pub use scheduler::{Fault, RunStop, Trap};
pub use subscription::{
    DirectiveReply, VirtualMachineSubscriptionTick, VirtualMachineSubscriptionUpdate,
};
pub use viewer::{handle_command, update, App, Key, Page};
