//! The state of one call frame.

use vstd::prelude::*;
use crate::revision::Revision;
use crate::word::{Address, Word};

verus! {

/// The most words that a frame's stack holds.
pub const STACK_LIMIT: usize = 1024;

/// The call that a frame executes.
#[derive(Clone, Copy, Debug, PartialEq, Eq)]
pub struct Message {
    pub destination: Address,
    pub sender: Address,
    pub value: Word,
    pub is_static: bool,
}

/// The mutable context of one call frame. The top of the stack is the last
/// word of `stack`.
#[derive(Clone, Debug, PartialEq, Eq)]
pub struct ExecutionState {
    pub stack: Vec<Word>,
    pub memory: Vec<u8>,
    pub gas_left: i64,
    pub message: Message,
    pub evm_revision: Revision,
}

impl ExecutionState {
    /// Whether the stack takes one more word.
    pub open spec fn has_room(self) -> bool {
        self.stack@.len() < STACK_LIMIT
    }

    /// The same frame but for its stack and its gas.
    pub open spec fn same_frame(self, other: ExecutionState) -> bool {
        self.memory@ == other.memory@ && self.message == other.message && self.evm_revision
            == other.evm_revision
    }

    /// A frame at its start: empty stack and memory.
    pub fn new(message: Message, evm_revision: Revision, gas: i64) -> (s: ExecutionState)
        ensures
            s.stack@.len() == 0,
            s.memory@.len() == 0,
            s.gas_left == gas,
            s.message == message,
            s.evm_revision == evm_revision,
    {
        ExecutionState {
            stack: Vec::new(),
            memory: Vec::new(),
            gas_left: gas,
            message,
            evm_revision,
        }
    }
}

} // verus!
