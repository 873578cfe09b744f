//! The first step of each instruction that reads or changes the ledger:
//! what it pops, what it asks of the host, and when it fails at once.

use vstd::prelude::*;
use crate::gas::SSTORE_STIPEND;
use crate::host::{Interrupt, StatusCode, TxContext};
use crate::protocol::{
    asks_balance, asks_exists, asks_selfdestruct, charged, fails, operand, popped, pushed, Opcode,
    Pending, Step, TxField,
};
use crate::revision::Revision;
use crate::state::{ExecutionState, STACK_LIMIT};
use crate::word::{
    address_to_u256, low_address, same_bytes, u256_to_address, u256_to_hash, widened, Address,
    Word,
};

verus! {

/// Pops the top operand.
pub(crate) fn pop(state: &mut ExecutionState) -> (w: Word)
    requires
        old(state).stack@.len() > 0,
    ensures
        w == operand(*old(state), 0),
        popped(*old(state), *final(state), 1),
{
    let w = state.stack.pop().unwrap();
    assert(state.stack@ =~= old(state).stack@.take(old(state).stack@.len() - 1));
    w
}

/// Pushes a word.
pub(crate) fn push(state: &mut ExecutionState, w: Word)
    requires
        old(state).has_room(),
    ensures
        pushed(*old(state), *final(state), w),
{
    state.stack.push(w);
}

/// Deducts `cost` and says whether gas is left.
pub(crate) fn charge(state: &mut ExecutionState, cost: i64) -> (ok: bool)
    requires
        old(state).gas_left >= 0,
        cost >= 0,
    ensures
        charged(*old(state), *final(state), cost as int),
        ok == (final(state).gas_left >= 0),
{
    state.gas_left = state.gas_left - cost;
    state.gas_left >= 0
}

/// Whether `w` is the given field of the context, widened to a word.
pub open spec fn is_tx_field(w: Word, context: TxContext, field: TxField) -> bool {
    match field {
        TxField::Origin => widened(w, context.tx_origin),
        TxField::Coinbase => widened(w, context.block_coinbase),
        TxField::GasPrice => w == context.tx_gas_price,
        TxField::Timestamp => w == (Word { l0: context.block_timestamp, l1: 0, l2: 0, l3: 0 }),
        TxField::Number => w == (Word { l0: context.block_number, l1: 0, l2: 0, l3: 0 }),
        TxField::GasLimit => w == (Word { l0: context.block_gas_limit, l1: 0, l2: 0, l3: 0 }),
        TxField::Difficulty => w == context.block_difficulty,
        TxField::ChainId => w == context.chain_id,
        TxField::BaseFee => w == context.block_base_fee,
    }
}

/// ORIGIN: the address that the transaction came from, as a word.
pub fn origin_accessor(tx_context: TxContext) -> (w: Word)
    ensures
        is_tx_field(w, tx_context, TxField::Origin),
{
    address_to_u256(tx_context.tx_origin)
}

/// COINBASE: the address of the block's beneficiary, as a word.
pub fn coinbase_accessor(tx_context: TxContext) -> (w: Word)
    ensures
        is_tx_field(w, tx_context, TxField::Coinbase),
{
    address_to_u256(tx_context.block_coinbase)
}

/// GASPRICE: the transaction's gas price.
pub fn gasprice_accessor(tx_context: TxContext) -> (w: Word)
    ensures
        is_tx_field(w, tx_context, TxField::GasPrice),
{
    tx_context.tx_gas_price
}

/// TIMESTAMP: the block's timestamp, as a word.
pub fn timestamp_accessor(tx_context: TxContext) -> (w: Word)
    ensures
        is_tx_field(w, tx_context, TxField::Timestamp),
{
    Word::from_u64(tx_context.block_timestamp)
}

/// NUMBER: the block's number, as a word.
pub fn number_accessor(tx_context: TxContext) -> (w: Word)
    ensures
        is_tx_field(w, tx_context, TxField::Number),
{
    Word::from_u64(tx_context.block_number)
}

/// GASLIMIT: the block's gas limit, as a word.
pub fn gaslimit_accessor(tx_context: TxContext) -> (w: Word)
    ensures
        is_tx_field(w, tx_context, TxField::GasLimit),
{
    Word::from_u64(tx_context.block_gas_limit)
}

/// DIFFICULTY: the block's difficulty.
pub fn difficulty_accessor(tx_context: TxContext) -> (w: Word)
    ensures
        is_tx_field(w, tx_context, TxField::Difficulty),
{
    tx_context.block_difficulty
}

/// CHAINID: the chain's id.
pub fn chainid_accessor(tx_context: TxContext) -> (w: Word)
    ensures
        is_tx_field(w, tx_context, TxField::ChainId),
{
    tx_context.chain_id
}

/// BASEFEE: the block's base fee.
pub fn basefee_accessor(tx_context: TxContext) -> (w: Word)
    ensures
        is_tx_field(w, tx_context, TxField::BaseFee),
{
    tx_context.block_base_fee
}

/// The field of the context that an instruction reads, widened to a word.
pub fn tx_field(tx_context: TxContext, field: TxField) -> (w: Word)
    ensures
        is_tx_field(w, tx_context, field),
{
    match field {
        TxField::Origin => origin_accessor(tx_context),
        TxField::Coinbase => coinbase_accessor(tx_context),
        TxField::GasPrice => gasprice_accessor(tx_context),
        TxField::Timestamp => timestamp_accessor(tx_context),
        TxField::Number => number_accessor(tx_context),
        TxField::GasLimit => gaslimit_accessor(tx_context),
        TxField::Difficulty => difficulty_accessor(tx_context),
        TxField::ChainId => chainid_accessor(tx_context),
        TxField::BaseFee => basefee_accessor(tx_context),
    }
}

/// ADDRESS: pushes the frame's own address.
pub fn address(state: &mut ExecutionState)
    requires
        old(state).has_room(),
    ensures
        pushed(*old(state), *final(state), final(state).stack@.last()),
        widened(final(state).stack@.last(), old(state).message.destination),
{
    let w = address_to_u256(state.message.destination);
    push(state, w);
}

/// CALLER: pushes the sender's address.
pub fn caller(state: &mut ExecutionState)
    requires
        old(state).has_room(),
    ensures
        pushed(*old(state), *final(state), final(state).stack@.last()),
        widened(final(state).stack@.last(), old(state).message.sender),
{
    let w = address_to_u256(state.message.sender);
    push(state, w);
}

/// CALLVALUE: pushes the value sent with the call.
pub fn callvalue(state: &mut ExecutionState)
    requires
        old(state).has_room(),
    ensures
        pushed(*old(state), *final(state), old(state).message.value),
{
    let w = state.message.value;
    push(state, w);
}

/// The first step of BALANCE: the address is popped; from Berlin on its
/// access status is asked for, before that its balance.
pub open spec fn balance_starts(pre: ExecutionState, post: ExecutionState, r: Step) -> bool {
    &&& popped(pre, post, 1)
    &&& if pre.evm_revision.since(Revision::Berlin) {
        r matches Step::Request {
            interrupt: Interrupt::AccessAccount { address },
            pending: Pending::BalanceAccess { address: kept },
        } && kept == address && low_address(address, operand(pre, 0))
    } else {
        r matches Step::Request {
            interrupt: Interrupt::GetBalance { address },
            pending: Pending::PushBalance,
        } && low_address(address, operand(pre, 0))
    }
}

/// The first step of EXTCODESIZE: the address is popped; from Berlin on its
/// access status is asked for, before that its code size.
pub open spec fn extcodesize_starts(pre: ExecutionState, post: ExecutionState, r: Step) -> bool {
    &&& popped(pre, post, 1)
    &&& if pre.evm_revision.since(Revision::Berlin) {
        r matches Step::Request {
            interrupt: Interrupt::AccessAccount { address },
            pending: Pending::CodeSizeAccess { address: kept },
        } && kept == address && low_address(address, operand(pre, 0))
    } else {
        r matches Step::Request {
            interrupt: Interrupt::GetCodeSize { address },
            pending: Pending::PushCodeSize,
        } && low_address(address, operand(pre, 0))
    }
}

/// The first step of SLOAD: the key is popped; from Berlin on the slot's
/// access status is asked for, before that its value.
pub open spec fn sload_starts(pre: ExecutionState, post: ExecutionState, r: Step) -> bool {
    &&& popped(pre, post, 1)
    &&& if pre.evm_revision.since(Revision::Berlin) {
        r matches Step::Request {
            interrupt: Interrupt::AccessStorage { address, key },
            pending: Pending::SloadAccess { key: kept },
        } && address == pre.message.destination && kept == key && same_bytes(
            key,
            operand(pre, 0),
        )
    } else {
        r matches Step::Request {
            interrupt: Interrupt::GetStorage { address, key },
            pending: Pending::PushStorage,
        } && address == pre.message.destination && same_bytes(key, operand(pre, 0))
    }
}

/// The first step of SSTORE. A static call fails at once, and so does, from
/// Istanbul on, a frame with no more gas than the stipend; the state is then
/// as it was. Else the key and then the value are popped; from Berlin on the
/// slot's access status is asked for, before that the write is.
pub open spec fn sstore_starts(pre: ExecutionState, post: ExecutionState, r: Step) -> bool {
    if pre.message.is_static {
        fails(r, StatusCode::StaticModeViolation) && post == pre
    } else if pre.evm_revision.since(Revision::Istanbul) && pre.gas_left <= SSTORE_STIPEND {
        fails(r, StatusCode::OutOfGas) && post == pre
    } else {
        &&& popped(pre, post, 2)
        &&& if pre.evm_revision.since(Revision::Berlin) {
            r matches Step::Request {
                interrupt: Interrupt::AccessStorage { address, key },
                pending: Pending::SstoreAccess { key: kept, value },
            } && address == pre.message.destination && kept == key && same_bytes(
                key,
                operand(pre, 0),
            ) && same_bytes(value, operand(pre, 1))
        } else {
            r matches Step::Request {
                interrupt: Interrupt::SetStorage { address, key, value },
                pending: Pending::SstoreStatus { cold },
            } && address == pre.message.destination && !cold && same_bytes(
                key,
                operand(pre, 0),
            ) && same_bytes(value, operand(pre, 1))
        }
    }
}

/// The first step of a LOG: a static call fails with the state as it was;
/// else the offset and then the size are popped and handed out for the
/// memory region to be resolved.
pub open spec fn log_starts(
    pre: ExecutionState,
    num_topics: u8,
    post: ExecutionState,
    r: Step,
) -> bool {
    if pre.message.is_static {
        fails(r, StatusCode::StaticModeViolation) && post == pre
    } else {
        popped(pre, post, 2) && r == (Step::Region {
            offset: operand(pre, 0),
            size: operand(pre, 1),
            num_topics,
        })
    }
}

/// What SELFDESTRUCT asks once the beneficiary's access is paid for. At
/// Tangerine Whistle: whether the beneficiary exists. Later: the frame's own
/// balance. Earlier: the destruction itself.
pub open spec fn selfdestruct_proceeds(pre: ExecutionState, beneficiary: Address, r: Step) -> bool {
    if pre.evm_revision == Revision::Tangerine {
        asks_exists(r, beneficiary)
    } else if pre.evm_revision.since(Revision::Tangerine) {
        r == (Step::Request {
            interrupt: Interrupt::GetBalance { address: pre.message.destination },
            pending: Pending::SelfdestructBalance { beneficiary },
        })
    } else {
        asks_selfdestruct(r, pre, beneficiary)
    }
}

/// The first step of SELFDESTRUCT: a static call fails with the state as it
/// was; else the beneficiary is popped, and from Berlin on its access status
/// is asked for.
pub open spec fn selfdestruct_starts(pre: ExecutionState, post: ExecutionState, r: Step) -> bool {
    if pre.message.is_static {
        fails(r, StatusCode::StaticModeViolation) && post == pre
    } else {
        &&& popped(pre, post, 1)
        &&& if pre.evm_revision.since(Revision::Berlin) {
            r matches Step::Request {
                interrupt: Interrupt::AccessAccount { address },
                pending: Pending::SelfdestructAccess { beneficiary },
            } && address == beneficiary && low_address(beneficiary, operand(pre, 0))
        } else {
            exists|beneficiary: Address| #[trigger]
                low_address(beneficiary, operand(pre, 0)) && selfdestruct_proceeds(
                    pre,
                    beneficiary,
                    r,
                )
        }
    }
}

/// What the first step of an instruction does to the frame and hands back.
pub open spec fn starts(pre: ExecutionState, op: Opcode, post: ExecutionState, r: Step) -> bool {
    match op {
        Opcode::Address => r == Step::Done && pushed(pre, post, post.stack@.last()) && widened(
            post.stack@.last(),
            pre.message.destination,
        ),
        Opcode::Caller => r == Step::Done && pushed(pre, post, post.stack@.last()) && widened(
            post.stack@.last(),
            pre.message.sender,
        ),
        Opcode::CallValue => r == Step::Done && pushed(pre, post, pre.message.value),
        Opcode::Balance => balance_starts(pre, post, r),
        Opcode::ExtCodeSize => extcodesize_starts(pre, post, r),
        Opcode::SelfBalance => post == pre && asks_balance(r, pre.message.destination),
        Opcode::TxContextRead { field } => post == pre && r == (Step::Request {
            interrupt: Interrupt::GetTxContext,
            pending: Pending::PushTxField { field },
        }),
        Opcode::BlockHash => popped(pre, post, 1) && r == (Step::Request {
            interrupt: Interrupt::GetTxContext,
            pending: Pending::BlockHashBounds { number: operand(pre, 0) },
        }),
        Opcode::Sload => sload_starts(pre, post, r),
        Opcode::Sstore => sstore_starts(pre, post, r),
        Opcode::Log { num_topics } => log_starts(pre, num_topics, post, r),
        Opcode::Selfdestruct => selfdestruct_starts(pre, post, r),
    }
}

/// Whether the frame holds the operands that the first step of `op` pops.
/// A state-changing instruction in a static call pops none.
pub open spec fn has_operands(s: ExecutionState, op: Opcode) -> bool {
    (op.mutates() && s.message.is_static) || s.stack@.len() >= op.pops()
}

/// Whether the first step of `op` can run on the frame: a LOG has at most
/// four topics, and the stack holds the operands that the step pops and has
/// room for the word that it pushes.
pub open spec fn startable(s: ExecutionState, op: Opcode) -> bool {
    &&& op matches Opcode::Log { num_topics } ==> num_topics <= 4
    &&& has_operands(s, op)
    &&& op.is_local() ==> s.has_room()
}


/// Whether the first step of `op` can run on the frame.
pub fn can_start(state: &ExecutionState, op: Opcode) -> (r: bool)
    ensures
        r == startable(*state, op),
{
    let len = state.stack.len();
    match op {
        Opcode::Address | Opcode::Caller | Opcode::CallValue => len < STACK_LIMIT,
        Opcode::Balance | Opcode::ExtCodeSize | Opcode::BlockHash | Opcode::Sload => len >= 1,
        Opcode::SelfBalance | Opcode::TxContextRead { .. } => true,
        Opcode::Sstore => state.message.is_static || len >= 2,
        Opcode::Log { num_topics } => num_topics <= 4 && (state.message.is_static || len >= 2),
        Opcode::Selfdestruct => state.message.is_static || len >= 1,
    }
}

/// BALANCE, up to its first request.
pub fn balance(state: &mut ExecutionState) -> (r: Step)
    requires
        old(state).stack@.len() >= 1,
    ensures
        balance_starts(*old(state), *final(state), r),
        r.paired(),
{
    let address = u256_to_address(pop(state));
    if state.evm_revision.at_least(Revision::Berlin) {
        Step::Request {
            interrupt: Interrupt::AccessAccount { address },
            pending: Pending::BalanceAccess { address },
        }
    } else {
        Step::Request {
            interrupt: Interrupt::GetBalance { address },
            pending: Pending::PushBalance,
        }
    }
}

/// EXTCODESIZE, up to its first request.
pub fn extcodesize(state: &mut ExecutionState) -> (r: Step)
    requires
        old(state).stack@.len() >= 1,
    ensures
        extcodesize_starts(*old(state), *final(state), r),
        r.paired(),
{
    let address = u256_to_address(pop(state));
    if state.evm_revision.at_least(Revision::Berlin) {
        Step::Request {
            interrupt: Interrupt::AccessAccount { address },
            pending: Pending::CodeSizeAccess { address },
        }
    } else {
        Step::Request {
            interrupt: Interrupt::GetCodeSize { address },
            pending: Pending::PushCodeSize,
        }
    }
}

/// SELFBALANCE, up to its request: the frame's own account is never cold,
/// so its balance is asked for at once.
pub fn selfbalance(state: &ExecutionState) -> (r: Step)
    ensures
        asks_balance(r, state.message.destination),
        r.paired(),
{
    Step::Request {
        interrupt: Interrupt::GetBalance { address: state.message.destination },
        pending: Pending::PushBalance,
    }
}

/// A read of the transaction context, up to its request.
pub fn push_txcontext(field: TxField) -> (r: Step)
    ensures
        r == (Step::Request {
            interrupt: Interrupt::GetTxContext,
            pending: Pending::PushTxField { field },
        }),
        r.paired(),
{
    Step::Request { interrupt: Interrupt::GetTxContext, pending: Pending::PushTxField { field } }
}

/// BLOCKHASH, up to its first request: the block number is popped and the
/// transaction context asked for.
pub fn blockhash(state: &mut ExecutionState) -> (r: Step)
    requires
        old(state).stack@.len() >= 1,
    ensures
        popped(*old(state), *final(state), 1),
        r == (Step::Request {
            interrupt: Interrupt::GetTxContext,
            pending: Pending::BlockHashBounds { number: operand(*old(state), 0) },
        }),
        r.paired(),
{
    let number = pop(state);
    Step::Request {
        interrupt: Interrupt::GetTxContext,
        pending: Pending::BlockHashBounds { number },
    }
}

/// SLOAD, up to its first request.
pub fn sload(state: &mut ExecutionState) -> (r: Step)
    requires
        old(state).stack@.len() >= 1,
    ensures
        sload_starts(*old(state), *final(state), r),
        r.paired(),
{
    let key = u256_to_hash(pop(state));
    let address = state.message.destination;
    if state.evm_revision.at_least(Revision::Berlin) {
        Step::Request {
            interrupt: Interrupt::AccessStorage { address, key },
            pending: Pending::SloadAccess { key },
        }
    } else {
        Step::Request {
            interrupt: Interrupt::GetStorage { address, key },
            pending: Pending::PushStorage,
        }
    }
}

/// SSTORE, up to its first request.
pub fn sstore(state: &mut ExecutionState) -> (r: Step)
    requires
        has_operands(*old(state), Opcode::Sstore),
    ensures
        sstore_starts(*old(state), *final(state), r),
        r.paired(),
{
    if state.message.is_static {
        return Step::Failed { status: StatusCode::StaticModeViolation };
    }
    if state.evm_revision.at_least(Revision::Istanbul) && state.gas_left <= SSTORE_STIPEND {
        return Step::Failed { status: StatusCode::OutOfGas };
    }
    let ghost pre = *state;
    let key = u256_to_hash(pop(state));
    let ghost mid = *state;
    let value = u256_to_hash(pop(state));
    proof {
        assert(state.stack@ =~= pre.stack@.take(pre.stack@.len() - 2));
        assert(operand(mid, 0) == operand(pre, 1));
    }
    let address = state.message.destination;
    if state.evm_revision.at_least(Revision::Berlin) {
        Step::Request {
            interrupt: Interrupt::AccessStorage { address, key },
            pending: Pending::SstoreAccess { key, value },
        }
    } else {
        Step::Request {
            interrupt: Interrupt::SetStorage { address, key, value },
            pending: Pending::SstoreStatus { cold: false },
        }
    }
}

/// A LOG with `num_topics` topics, up to the point where the memory region
/// of its data is to be resolved.
pub fn do_log(state: &mut ExecutionState, num_topics: u8) -> (r: Step)
    requires
        startable(*old(state), Opcode::Log { num_topics }),
    ensures
        log_starts(*old(state), num_topics, *final(state), r),
        r.paired(),
{
    if state.message.is_static {
        return Step::Failed { status: StatusCode::StaticModeViolation };
    }
    let ghost pre = *state;
    let offset = pop(state);
    let ghost mid = *state;
    let size = pop(state);
    proof {
        assert(state.stack@ =~= pre.stack@.take(pre.stack@.len() - 2));
        assert(operand(mid, 0) == operand(pre, 1));
    }
    Step::Region { offset, size, num_topics }
}

/// SELFDESTRUCT once the beneficiary's access is paid for.
pub(crate) fn selfdestruct_proceed(state: &ExecutionState, beneficiary: Address) -> (r: Step)
    ensures
        selfdestruct_proceeds(*state, beneficiary, r),
        r.paired(),
{
    let address = state.message.destination;
    if state.evm_revision == Revision::Tangerine {
        Step::Request {
            interrupt: Interrupt::AccountExists { address: beneficiary },
            pending: Pending::SelfdestructExists { beneficiary },
        }
    } else if state.evm_revision.at_least(Revision::Tangerine) {
        Step::Request {
            interrupt: Interrupt::GetBalance { address },
            pending: Pending::SelfdestructBalance { beneficiary },
        }
    } else {
        Step::Request {
            interrupt: Interrupt::Selfdestruct { address, beneficiary },
            pending: Pending::SelfdestructAck,
        }
    }
}

/// SELFDESTRUCT, up to its first request.
pub fn selfdestruct(state: &mut ExecutionState) -> (r: Step)
    requires
        has_operands(*old(state), Opcode::Selfdestruct),
    ensures
        selfdestruct_starts(*old(state), *final(state), r),
        r.paired(),
{
    if state.message.is_static {
        return Step::Failed { status: StatusCode::StaticModeViolation };
    }
    let beneficiary = u256_to_address(pop(state));
    if state.evm_revision.at_least(Revision::Berlin) {
        Step::Request {
            interrupt: Interrupt::AccessAccount { address: beneficiary },
            pending: Pending::SelfdestructAccess { beneficiary },
        }
    } else {
        selfdestruct_proceed(state, beneficiary)
    }
}

/// Runs the handler of `op` up to its first request, or to its end where it
/// makes none.
pub fn start(state: &mut ExecutionState, op: Opcode) -> (r: Step)
    requires
        startable(*old(state), op),
    ensures
        starts(*old(state), op, *final(state), r),
        r.paired(),
        old(state).stack@.len() <= STACK_LIMIT ==> final(state).stack@.len() <= STACK_LIMIT,
{
    match op {
        Opcode::Address => {
            address(state);
            Step::Done
        },
        Opcode::Caller => {
            caller(state);
            Step::Done
        },
        Opcode::CallValue => {
            callvalue(state);
            Step::Done
        },
        Opcode::Balance => balance(state),
        Opcode::ExtCodeSize => extcodesize(state),
        Opcode::SelfBalance => selfbalance(state),
        Opcode::TxContextRead { field } => push_txcontext(field),
        Opcode::BlockHash => blockhash(state),
        Opcode::Sload => sload(state),
        Opcode::Sstore => sstore(state),
        Opcode::Log { num_topics } => do_log(state, num_topics),
        Opcode::Selfdestruct => selfdestruct(state),
    }
}

} // verus!
