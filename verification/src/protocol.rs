//! The instructions that talk to the host, what a suspended handler waits
//! for, and what one step of a handler hands back to its driver.

use vstd::prelude::*;
use crate::host::{Interrupt, ResumeKind, StatusCode};
use crate::state::ExecutionState;
use crate::word::{Address, Hash256, Word};

verus! {

/// A field of the transaction context.
#[derive(Clone, Copy, Debug, PartialEq, Eq, Structural)]
pub enum TxField {
    Origin,
    Coinbase,
    GasPrice,
    Timestamp,
    Number,
    GasLimit,
    Difficulty,
    ChainId,
    BaseFee,
}

/// An instruction of this core.
#[derive(Clone, Copy, Debug, PartialEq, Eq, Structural)]
pub enum Opcode {
    Address,
    Caller,
    CallValue,
    Balance,
    ExtCodeSize,
    SelfBalance,
    TxContextRead { field: TxField },
    BlockHash,
    Sload,
    Sstore,
    Log { num_topics: u8 },
    Selfdestruct,
}

/// What a suspended handler does with the host's answer, and the operands
/// that it keeps meanwhile. It is neither copied nor cloned: resuming uses
/// it up, so that no handler is resumed twice.
#[derive(Debug, PartialEq, Eq)]
pub enum Pending {
    BalanceAccess { address: Address },
    PushBalance,
    CodeSizeAccess { address: Address },
    PushCodeSize,
    PushTxField { field: TxField },
    BlockHashBounds { number: Word },
    PushBlockHash,
    SloadAccess { key: Hash256 },
    PushStorage,
    SstoreAccess { key: Hash256, value: Hash256 },
    SstoreStatus { cold: bool },
    LogAck,
    SelfdestructAccess { beneficiary: Address },
    SelfdestructBalance { beneficiary: Address },
    SelfdestructExists { beneficiary: Address },
    SelfdestructAck,
}

/// A validated, non-empty range of the frame's memory.
#[derive(Clone, Copy, Debug, PartialEq, Eq)]
pub struct MemoryRegion {
    pub offset: usize,
    pub size: usize,
}

/// What one step of a handler hands back to its driver.
#[derive(Debug, PartialEq, Eq)]
pub enum Step {
    /// The instruction is complete.
    Done,
    /// The instruction failed, and the frame with it.
    Failed { status: StatusCode },
    /// The handler is suspended on a request to the host.
    Request { interrupt: Interrupt, pending: Pending },
    /// The handler needs the memory region of a log's data resolved.
    Region { offset: Word, size: Word, num_topics: u8 },
}

impl Opcode {
    /// Whether the instruction changes the ledger.
    pub open spec fn mutates(self) -> bool {
        self is Sstore || self is Log || self is Selfdestruct
    }

    /// The number of operands that the first step pops.
    pub open spec fn pops(self) -> nat {
        match self {
            Opcode::Balance | Opcode::ExtCodeSize | Opcode::BlockHash | Opcode::Sload
            | Opcode::Selfdestruct => 1,
            Opcode::Sstore | Opcode::Log { .. } => 2,
            _ => 0,
        }
    }

    /// Whether the instruction asks nothing of the host.
    pub open spec fn is_local(self) -> bool {
        self is Address || self is Caller || self is CallValue
    }
}

impl Pending {
    /// The kind of answer that the suspended handler waits for.
    pub open spec fn expects(self) -> ResumeKind {
        match self {
            Pending::BalanceAccess { .. } => ResumeKind::AccessAccountStatus,
            Pending::PushBalance => ResumeKind::Balance,
            Pending::CodeSizeAccess { .. } => ResumeKind::AccessAccountStatus,
            Pending::PushCodeSize => ResumeKind::CodeSize,
            Pending::PushTxField { .. } => ResumeKind::TxContextData,
            Pending::BlockHashBounds { .. } => ResumeKind::TxContextData,
            Pending::PushBlockHash => ResumeKind::BlockHash,
            Pending::SloadAccess { .. } => ResumeKind::AccessStorageStatus,
            Pending::PushStorage => ResumeKind::StorageValue,
            Pending::SstoreAccess { .. } => ResumeKind::AccessStorageStatus,
            Pending::SstoreStatus { .. } => ResumeKind::StorageStatusInfo,
            Pending::LogAck => ResumeKind::Empty,
            Pending::SelfdestructAccess { .. } => ResumeKind::AccessAccountStatus,
            Pending::SelfdestructBalance { .. } => ResumeKind::Balance,
            Pending::SelfdestructExists { .. } => ResumeKind::AccountExistsStatus,
            Pending::SelfdestructAck => ResumeKind::Empty,
        }
    }
}

impl Pending {
    /// Whether the suspended handler may push a word when it is resumed.
    pub open spec fn may_push(self) -> bool {
        self is PushBalance || self is PushCodeSize || self is PushTxField
            || self is BlockHashBounds || self is PushBlockHash || self is PushStorage
    }
}

impl Step {
    /// A step that suspends pairs its request with a handler that waits for
    /// the matching kind of answer.
    pub open spec fn paired(self) -> bool {
        self matches Step::Request { interrupt, pending } ==> interrupt.answer_kind()
            == pending.expects()
    }
}

/// Operand `i` of the stack, operand 0 on top.
pub open spec fn operand(s: ExecutionState, i: int) -> Word {
    s.stack@[s.stack@.len() - 1 - i]
}

/// `post` is `pre` with its `n` top operands popped.
pub open spec fn popped(pre: ExecutionState, post: ExecutionState, n: int) -> bool {
    &&& post.same_frame(pre)
    &&& post.stack@ == pre.stack@.take(pre.stack@.len() - n)
    &&& post.gas_left == pre.gas_left
}

/// `post` is `pre` with `w` pushed.
pub open spec fn pushed(pre: ExecutionState, post: ExecutionState, w: Word) -> bool {
    &&& post.same_frame(pre)
    &&& post.stack@ == pre.stack@.push(w)
    &&& post.gas_left == pre.gas_left
}

/// `post` is `pre` with `gas` deducted.
pub open spec fn charged(pre: ExecutionState, post: ExecutionState, gas: int) -> bool {
    &&& post.same_frame(pre)
    &&& post.stack@ == pre.stack@
    &&& post.gas_left == pre.gas_left - gas
}

/// The request for the balance of `address`, suspended to push the answer.
pub open spec fn asks_balance(r: Step, address: Address) -> bool {
    r == (Step::Request {
        interrupt: Interrupt::GetBalance { address },
        pending: Pending::PushBalance,
    })
}

/// The request to destruct the frame's account in favour of `beneficiary`.
pub open spec fn asks_selfdestruct(r: Step, pre: ExecutionState, beneficiary: Address) -> bool {
    r == (Step::Request {
        interrupt: Interrupt::Selfdestruct { address: pre.message.destination, beneficiary },
        pending: Pending::SelfdestructAck,
    })
}

/// The request whether `beneficiary` exists.
pub open spec fn asks_exists(r: Step, beneficiary: Address) -> bool {
    r == (Step::Request {
        interrupt: Interrupt::AccountExists { address: beneficiary },
        pending: Pending::SelfdestructExists { beneficiary },
    })
}

/// The failure with the given status.
pub open spec fn fails(r: Step, status: StatusCode) -> bool {
    r == (Step::Failed { status })
}

} // verus!
