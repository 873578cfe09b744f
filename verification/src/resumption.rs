//! The later steps of a handler: what it does with each answer of the host.

use vstd::prelude::*;
use crate::gas::{
    sstore_cost, sstore_price, ADDITIONAL_COLD_ACCOUNT_ACCESS_COST, ADDITIONAL_COLD_SLOAD_COST,
    COLD_ACCOUNT_ACCESS_COST, SELFDESTRUCT_NEW_ACCOUNT_COST,
};
use crate::host::{AccessStatus, Interrupt, Resume, StatusCode};
use crate::instructions::{
    charge, is_tx_field, push, selfdestruct_proceed, selfdestruct_proceeds, tx_field,
};
use crate::protocol::{
    asks_balance, asks_exists, asks_selfdestruct, charged, fails, pushed, Pending, Step,
};
use crate::state::{ExecutionState, STACK_LIMIT};
use crate::word::{
    hash_to_u256, same_bytes, small_words, word_determined_by_bytes, zero_word_encoding,
    Hash256, Word,
};

verus! {

/// The gas that an access with the given status adds: `cost` where the host
/// reports it cold, nothing where warm.
pub open spec fn cold_charge(status: AccessStatus, cost: int) -> int {
    if status == AccessStatus::Cold {
        cost
    } else {
        0
    }
}

/// The oldest block whose hash a frame in block `current` can ask for.
pub open spec fn oldest_hash(current: u64) -> int {
    if current >= 256 {
        current - 256
    } else {
        0
    }
}

/// Whether the hash of block `number` is to be had in block `current`: the
/// block is one of the 256 before `current`.
pub open spec fn hash_in_reach(number: Word, current: u64) -> bool {
    oldest_hash(current) <= number.value() < current
}

/// What a handler suspended as `pending` does with `answer`: how it leaves
/// the frame, and what it hands back. After each deduction that leaves the
/// gas negative the step fails with `OutOfGas`.
pub open spec fn resumes(
    pre: ExecutionState,
    pending: Pending,
    answer: Resume,
    post: ExecutionState,
    r: Step,
) -> bool {
    let me = pre.message.destination;
    match pending {
        Pending::BalanceAccess { address } => answer matches Resume::AccessAccountStatus {
            status,
        } && charged(pre, post, cold_charge(status, ADDITIONAL_COLD_ACCOUNT_ACCESS_COST as int))
            && if post.gas_left < 0 {
            fails(r, StatusCode::OutOfGas)
        } else {
            asks_balance(r, address)
        },
        Pending::PushBalance => answer matches Resume::Balance { balance } && pushed(
            pre,
            post,
            balance,
        ) && r == Step::Done,
        Pending::CodeSizeAccess { address } => answer matches Resume::AccessAccountStatus {
            status,
        } && charged(pre, post, cold_charge(status, ADDITIONAL_COLD_ACCOUNT_ACCESS_COST as int))
            && if post.gas_left < 0 {
            fails(r, StatusCode::OutOfGas)
        } else {
            r == (Step::Request {
                interrupt: Interrupt::GetCodeSize { address },
                pending: Pending::PushCodeSize,
            })
        },
        Pending::PushCodeSize => answer matches Resume::CodeSize { code_size } && pushed(
            pre,
            post,
            code_size,
        ) && r == Step::Done,
        Pending::PushTxField { field } => answer matches Resume::TxContextData { context }
            && pushed(pre, post, post.stack@.last()) && is_tx_field(
            post.stack@.last(),
            context,
            field,
        ) && r == Step::Done,
        Pending::BlockHashBounds { number } => answer matches Resume::TxContextData { context }
            && if hash_in_reach(number, context.block_number) {
            post == pre && r == (Step::Request {
                interrupt: Interrupt::GetBlockHash { block_number: number.l0 },
                pending: Pending::PushBlockHash,
            })
        } else {
            pushed(pre, post, Word { l0: 0, l1: 0, l2: 0, l3: 0 }) && r == Step::Done
        },
        Pending::PushBlockHash => answer matches Resume::BlockHash { hash } && pushed(
            pre,
            post,
            post.stack@.last(),
        ) && same_bytes(hash, post.stack@.last()) && r == Step::Done,
        Pending::SloadAccess { key } => answer matches Resume::AccessStorageStatus { status }
            && charged(pre, post, cold_charge(status, ADDITIONAL_COLD_SLOAD_COST as int))
            && if post.gas_left < 0 {
            fails(r, StatusCode::OutOfGas)
        } else {
            r == (Step::Request {
                interrupt: Interrupt::GetStorage { address: me, key },
                pending: Pending::PushStorage,
            })
        },
        Pending::PushStorage => answer matches Resume::StorageValue { value } && pushed(
            pre,
            post,
            post.stack@.last(),
        ) && same_bytes(value, post.stack@.last()) && r == Step::Done,
        Pending::SstoreAccess { key, value } => answer matches Resume::AccessStorageStatus {
            status,
        } && post == pre && r == (Step::Request {
            interrupt: Interrupt::SetStorage { address: me, key, value },
            pending: Pending::SstoreStatus { cold: status == AccessStatus::Cold },
        }),
        Pending::SstoreStatus { cold } => answer matches Resume::StorageStatusInfo { status }
            && charged(pre, post, sstore_price(pre.evm_revision, cold, status)) && if post.gas_left
            < 0 {
            fails(r, StatusCode::OutOfGas)
        } else {
            r == Step::Done
        },
        Pending::LogAck => answer == Resume::Empty && post == pre && r == Step::Done,
        Pending::SelfdestructAccess { beneficiary } => answer matches Resume::AccessAccountStatus {
            status,
        } && charged(pre, post, cold_charge(status, COLD_ACCOUNT_ACCESS_COST as int))
            && if post.gas_left < 0 {
            fails(r, StatusCode::OutOfGas)
        } else {
            selfdestruct_proceeds(pre, beneficiary, r)
        },
        Pending::SelfdestructBalance { beneficiary } => answer matches Resume::Balance { balance }
            && post == pre && if balance.spec_is_zero() {
            asks_selfdestruct(r, pre, beneficiary)
        } else {
            asks_exists(r, beneficiary)
        },
        Pending::SelfdestructExists { beneficiary } => answer matches Resume::AccountExistsStatus {
            exists: found,
        } && charged(
            pre,
            post,
            if found {
                0
            } else {
                SELFDESTRUCT_NEW_ACCOUNT_COST as int
            },
        ) && if post.gas_left < 0 {
            fails(r, StatusCode::OutOfGas)
        } else {
            asks_selfdestruct(r, pre, beneficiary)
        },
        Pending::SelfdestructAck => answer == Resume::Empty && post == pre && r == Step::Done,
    }
}

/// Charges `cost` where `status` is cold.
fn charge_cold(state: &mut ExecutionState, status: AccessStatus, cost: i64) -> (ok: bool)
    requires
        old(state).gas_left >= 0,
        cost >= 0,
    ensures
        charged(*old(state), *final(state), cold_charge(status, cost as int)),
        ok == (final(state).gas_left >= 0),
{
    match status {
        AccessStatus::Cold => charge(state, cost),
        AccessStatus::Warm => true,
    }
}

/// Whether the number of a block is one whose hash can be had in block
/// `current`.
pub fn blockhash_in_reach(number: Word, current: u64) -> (r: bool)
    ensures
        r == hash_in_reach(number, current),
{
    proof {
        small_words(number);
    }
    let lower = current.saturating_sub(256);
    match number.to_u64() {
        Some(n) => lower <= n && n < current,
        None => false,
    }
}

/// Whether a handler suspended as `pending` can be resumed with `answer`:
/// the answer is of the kind that the handler waits for, the frame has gas,
/// and the stack has room where the handler may push.
pub open spec fn resumable(s: ExecutionState, pending: Pending, answer: Resume) -> bool {
    &&& pending.expects() == answer.kind()
    &&& s.gas_left >= 0
    &&& pending.may_push() ==> s.has_room()
}

/// Whether a handler suspended as `pending` can be resumed with `answer`.
pub fn can_resume(state: &ExecutionState, pending: &Pending, answer: &Resume) -> (r: bool)
    ensures
        r == resumable(*state, *pending, *answer),
{
    let room = state.stack.len() < STACK_LIMIT;
    let fits = match (pending, answer) {
        (Pending::BalanceAccess { .. }, Resume::AccessAccountStatus { .. }) => true,
        (Pending::PushBalance, Resume::Balance { .. }) => room,
        (Pending::CodeSizeAccess { .. }, Resume::AccessAccountStatus { .. }) => true,
        (Pending::PushCodeSize, Resume::CodeSize { .. }) => room,
        (Pending::PushTxField { .. }, Resume::TxContextData { .. }) => room,
        (Pending::BlockHashBounds { .. }, Resume::TxContextData { .. }) => room,
        (Pending::PushBlockHash, Resume::BlockHash { .. }) => room,
        (Pending::SloadAccess { .. }, Resume::AccessStorageStatus { .. }) => true,
        (Pending::PushStorage, Resume::StorageValue { .. }) => room,
        (Pending::SstoreAccess { .. }, Resume::AccessStorageStatus { .. }) => true,
        (Pending::SstoreStatus { .. }, Resume::StorageStatusInfo { .. }) => true,
        (Pending::LogAck, Resume::Empty) => true,
        (Pending::SelfdestructAccess { .. }, Resume::AccessAccountStatus { .. }) => true,
        (Pending::SelfdestructBalance { .. }, Resume::Balance { .. }) => true,
        (Pending::SelfdestructExists { .. }, Resume::AccountExistsStatus { .. }) => true,
        (Pending::SelfdestructAck, Resume::Empty) => true,
        _ => false,
    };
    fits && state.gas_left >= 0
}

/// Takes the host's answer to the request on which the handler suspended as
/// `pending`, and runs the handler up to its next request or to its end.
/// The answer must be of the kind that `pending` waits for.
pub fn resume(state: &mut ExecutionState, pending: Pending, answer: Resume) -> (r: Step)
    requires
        resumable(*old(state), pending, answer),
    ensures
        resumes(*old(state), pending, answer, *final(state), r),
        r.paired(),
        old(state).stack@.len() <= STACK_LIMIT ==> final(state).stack@.len() <= STACK_LIMIT,
{
    let out_of_gas = Step::Failed { status: StatusCode::OutOfGas };
    let me = state.message.destination;
    match (pending, answer) {
        (Pending::BalanceAccess { address }, Resume::AccessAccountStatus { status }) => {
            if charge_cold(state, status, ADDITIONAL_COLD_ACCOUNT_ACCESS_COST) {
                Step::Request {
                    interrupt: Interrupt::GetBalance { address },
                    pending: Pending::PushBalance,
                }
            } else {
                out_of_gas
            }
        },
        (Pending::PushBalance, Resume::Balance { balance }) => {
            push(state, balance);
            Step::Done
        },
        (Pending::CodeSizeAccess { address }, Resume::AccessAccountStatus { status }) => {
            if charge_cold(state, status, ADDITIONAL_COLD_ACCOUNT_ACCESS_COST) {
                Step::Request {
                    interrupt: Interrupt::GetCodeSize { address },
                    pending: Pending::PushCodeSize,
                }
            } else {
                out_of_gas
            }
        },
        (Pending::PushCodeSize, Resume::CodeSize { code_size }) => {
            push(state, code_size);
            Step::Done
        },
        (Pending::PushTxField { field }, Resume::TxContextData { context }) => {
            push(state, tx_field(context, field));
            Step::Done
        },
        (Pending::BlockHashBounds { number }, Resume::TxContextData { context }) => {
            if blockhash_in_reach(number, context.block_number) {
                proof {
                    small_words(number);
                }
                Step::Request {
                    interrupt: Interrupt::GetBlockHash { block_number: number.l0 },
                    pending: Pending::PushBlockHash,
                }
            } else {
                let zero = hash_to_u256(Hash256::zero());
                proof {
                    zero_word_encoding();
                    word_determined_by_bytes(zero, Word { l0: 0, l1: 0, l2: 0, l3: 0 });
                }
                push(state, zero);
                Step::Done
            }
        },
        (Pending::PushBlockHash, Resume::BlockHash { hash }) => {
            push(state, hash_to_u256(hash));
            Step::Done
        },
        (Pending::SloadAccess { key }, Resume::AccessStorageStatus { status }) => {
            if charge_cold(state, status, ADDITIONAL_COLD_SLOAD_COST) {
                Step::Request {
                    interrupt: Interrupt::GetStorage { address: me, key },
                    pending: Pending::PushStorage,
                }
            } else {
                out_of_gas
            }
        },
        (Pending::PushStorage, Resume::StorageValue { value }) => {
            push(state, hash_to_u256(value));
            Step::Done
        },
        (Pending::SstoreAccess { key, value }, Resume::AccessStorageStatus { status }) => {
            Step::Request {
                interrupt: Interrupt::SetStorage { address: me, key, value },
                pending: Pending::SstoreStatus { cold: status == AccessStatus::Cold },
            }
        },
        (Pending::SstoreStatus { cold }, Resume::StorageStatusInfo { status }) => {
            if charge(state, sstore_cost(state.evm_revision, cold, status)) {
                Step::Done
            } else {
                out_of_gas
            }
        },
        (Pending::LogAck, Resume::Empty) => Step::Done,
        (Pending::SelfdestructAccess { beneficiary }, Resume::AccessAccountStatus { status }) => {
            if charge_cold(state, status, COLD_ACCOUNT_ACCESS_COST) {
                selfdestruct_proceed(state, beneficiary)
            } else {
                out_of_gas
            }
        },
        (Pending::SelfdestructBalance { beneficiary }, Resume::Balance { balance }) => {
            if balance.is_zero() {
                Step::Request {
                    interrupt: Interrupt::Selfdestruct { address: me, beneficiary },
                    pending: Pending::SelfdestructAck,
                }
            } else {
                Step::Request {
                    interrupt: Interrupt::AccountExists { address: beneficiary },
                    pending: Pending::SelfdestructExists { beneficiary },
                }
            }
        },
        (
            Pending::SelfdestructExists { beneficiary },
            Resume::AccountExistsStatus { exists: found },
        ) => {
            if found || charge(state, SELFDESTRUCT_NEW_ACCOUNT_COST) {
                Step::Request {
                    interrupt: Interrupt::Selfdestruct { address: me, beneficiary },
                    pending: Pending::SelfdestructAck,
                }
            } else {
                out_of_gas
            }
        },
        (Pending::SelfdestructAck, Resume::Empty) => Step::Done,
        _ => vstd::pervasive::unreached(),
    }
}

} // verus!
