//! Read-only views of the execution engine's state, reduced to the plain
//! values the panes read: register values as canonical field-element
//! integers, addresses, flags, and already-printed messages. The engine
//! owns the originals; one snapshot is handed in per draw call and never
//! mutated here.

use vstd::prelude::*;

use crate::program::Program;
use crate::program::items_total_size;

verus! {

/// One externally produced snapshot of the virtual machine's execution
/// state at a point in time.
#[derive(Clone, Debug)]
pub struct VmSnapshot {
    /// Address of the next instruction to execute.
    pub instruction_pointer: usize,
    /// How many cycles the machine has run.
    pub cycle_count: u32,
    /// Whether the machine has halted.
    pub halting: bool,
    /// The register stack, bottom first; the last element is the top.
    pub op_stack: Vec<u64>,
    /// The call stack of `(return address, call address)` pairs, oldest
    /// first.
    pub jump_stack: Vec<(u64, u64)>,
    /// The sponge state, present once the program has started one.
    pub sponge: Option<Vec<u64>>,
    /// The public input stream.
    pub public_input: Vec<u64>,
    /// The secret input stream, token by token.
    pub secret_individual_tokens: Vec<u64>,
    /// The public output stream.
    pub public_output: Vec<u64>,
}

/// Everything the view reads per draw call: the loaded program, the
/// current snapshot, the stack of type hints, and the engine's error and
/// warning reports, already printed to text.
#[derive(Clone, Debug)]
pub struct DebuggerState {
    pub program: Program,
    pub vm_state: VmSnapshot,
    /// One optional hint per register-stack slot, bottom first.
    pub type_hints: Vec<Option<String>>,
    pub error: Option<String>,
    pub warning: Option<String>,
}

impl DebuggerState {
    /// The one machine limit the view relies on: the program's total
    /// word length fits an address.
    pub open spec fn wf(self) -> bool {
        items_total_size(self.program.items@) <= usize::MAX as int
    }
}

} // verus!
