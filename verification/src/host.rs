//! What a handler asks of its host, and what the host answers.

use vstd::prelude::*;
use arrayvec::ArrayVec;
use crate::word::{Address, Hash256, Word};

verus! {

/// Whether an account or storage slot was touched earlier in the transaction.
#[derive(Clone, Copy, Debug, PartialEq, Eq, Structural)]
pub enum AccessStatus {
    Cold,
    Warm,
}

/// What a storage write did to its slot, as the host classifies it.
#[derive(Clone, Copy, Debug, PartialEq, Eq, Structural)]
pub enum StorageStatus {
    Unchanged,
    Modified,
    ModifiedAgain,
    Added,
    Deleted,
}

/// Why an instruction failed.
#[derive(Clone, Copy, Debug, PartialEq, Eq, Structural)]
pub enum StatusCode {
    OutOfGas,
    StaticModeViolation,
}

/// The data of the transaction and its block.
#[derive(Clone, Copy, Debug, PartialEq, Eq)]
pub struct TxContext {
    pub tx_gas_price: Word,
    pub tx_origin: Address,
    pub block_coinbase: Address,
    pub block_number: u64,
    pub block_timestamp: u64,
    pub block_gas_limit: u64,
    pub block_difficulty: Word,
    pub chain_id: Word,
    pub block_base_fee: Word,
}

/// A request to the host.
#[derive(Debug, PartialEq, Eq)]
pub enum Interrupt {
    AccessAccount { address: Address },
    AccessStorage { address: Address, key: Hash256 },
    GetBalance { address: Address },
    GetCodeSize { address: Address },
    GetTxContext,
    GetBlockHash { block_number: u64 },
    GetStorage { address: Address, key: Hash256 },
    SetStorage { address: Address, key: Hash256, value: Hash256 },
    AccountExists { address: Address },
    EmitLog { address: Address, data: Vec<u8>, topics: ArrayVec<[u8; 32], 4> },
    Selfdestruct { address: Address, beneficiary: Address },
}

/// The host's answer to a request.
#[allow(inconsistent_fields)]
#[derive(Clone, Copy, Debug, PartialEq, Eq)]
pub enum Resume {
    AccessAccountStatus { status: AccessStatus },
    AccessStorageStatus { status: AccessStatus },
    Balance { balance: Word },
    CodeSize { code_size: Word },
    TxContextData { context: TxContext },
    BlockHash { hash: Hash256 },
    StorageValue { value: Hash256 },
    StorageStatusInfo { status: StorageStatus },
    AccountExistsStatus { exists: bool },
    Empty,
}

/// The kind of answer that a request calls for.
#[derive(Clone, Copy, Debug, PartialEq, Eq, Structural)]
pub enum ResumeKind {
    AccessAccountStatus,
    AccessStorageStatus,
    Balance,
    CodeSize,
    TxContextData,
    BlockHash,
    StorageValue,
    StorageStatusInfo,
    AccountExistsStatus,
    Empty,
}

impl Interrupt {
    /// The kind of answer that the host owes to this request.
    pub open spec fn answer_kind(self) -> ResumeKind {
        match self {
            Interrupt::AccessAccount { .. } => ResumeKind::AccessAccountStatus,
            Interrupt::AccessStorage { .. } => ResumeKind::AccessStorageStatus,
            Interrupt::GetBalance { .. } => ResumeKind::Balance,
            Interrupt::GetCodeSize { .. } => ResumeKind::CodeSize,
            Interrupt::GetTxContext => ResumeKind::TxContextData,
            Interrupt::GetBlockHash { .. } => ResumeKind::BlockHash,
            Interrupt::GetStorage { .. } => ResumeKind::StorageValue,
            Interrupt::SetStorage { .. } => ResumeKind::StorageStatusInfo,
            Interrupt::AccountExists { .. } => ResumeKind::AccountExistsStatus,
            Interrupt::EmitLog { .. } => ResumeKind::Empty,
            Interrupt::Selfdestruct { .. } => ResumeKind::Empty,
        }
    }
}

impl Resume {
    /// The kind of this answer.
    pub open spec fn kind(self) -> ResumeKind {
        match self {
            Resume::AccessAccountStatus { .. } => ResumeKind::AccessAccountStatus,
            Resume::AccessStorageStatus { .. } => ResumeKind::AccessStorageStatus,
            Resume::Balance { .. } => ResumeKind::Balance,
            Resume::CodeSize { .. } => ResumeKind::CodeSize,
            Resume::TxContextData { .. } => ResumeKind::TxContextData,
            Resume::BlockHash { .. } => ResumeKind::BlockHash,
            Resume::StorageValue { .. } => ResumeKind::StorageValue,
            Resume::StorageStatusInfo { .. } => ResumeKind::StorageStatusInfo,
            Resume::AccountExistsStatus { .. } => ResumeKind::AccountExistsStatus,
            Resume::Empty => ResumeKind::Empty,
        }
    }
}

} // verus!
