//! What holds of the handlers whatever the frame and the host's answers.

use vstd::prelude::*;
use crate::gas::{
    sstore_price, COLD_ACCOUNT_ACCESS_COST, COLD_SLOAD_COST, SELFDESTRUCT_NEW_ACCOUNT_COST,
    SSTORE_STIPEND, WARM_STORAGE_READ_COST,
};
use crate::host::{AccessStatus, Interrupt, Resume, StatusCode, StorageStatus, TxContext};
use crate::instructions::starts;
use crate::logs::log_emits;
use crate::resumption::resumes;
use crate::protocol::{
    asks_balance, asks_exists, asks_selfdestruct, fails, MemoryRegion, Opcode, Pending, Step,
};
use crate::revision::Revision;
use crate::state::ExecutionState;
use crate::word::{small_words, Address, Word};

verus! {

/// BALANCE, EXTCODESIZE and SLOAD ask for the access status from Berlin on
/// and never before, and their first step charges nothing.
pub proof fn reads_ask_for_access_from_berlin(
    pre: ExecutionState,
    op: Opcode,
    post: ExecutionState,
    r: Step,
)
    requires
        op is Balance || op is ExtCodeSize || op is Sload,
        starts(pre, op, post, r),
    ensures
        post.gas_left == pre.gas_left,
        r is Request,
        pre.evm_revision.since(Revision::Berlin) <==> (r->pending is BalanceAccess
            || r->pending is CodeSizeAccess || r->pending is SloadAccess),
{
}

/// When BALANCE, EXTCODESIZE or SLOAD learns the access status, a cold
/// account or slot costs the cold cost less the warm cost, which the
/// instruction's base cost holds already, and a warm one costs nothing.
pub proof fn cold_read_costs_the_difference(
    pre: ExecutionState,
    pending: Pending,
    answer: Resume,
    post: ExecutionState,
    r: Step,
)
    requires
        pending is BalanceAccess || pending is CodeSizeAccess || pending is SloadAccess,
        pending.expects() == answer.kind(),
        resumes(pre, pending, answer, post, r),
    ensures
        answer == (Resume::AccessAccountStatus { status: AccessStatus::Cold }) ==> pre.gas_left
            - post.gas_left == COLD_ACCOUNT_ACCESS_COST - WARM_STORAGE_READ_COST,
        answer == (Resume::AccessStorageStatus { status: AccessStatus::Cold }) ==> pre.gas_left
            - post.gas_left == COLD_SLOAD_COST - WARM_STORAGE_READ_COST,
        answer == (Resume::AccessAccountStatus { status: AccessStatus::Warm }) || answer == (
        Resume::AccessStorageStatus { status: AccessStatus::Warm }) ==> post.gas_left
            == pre.gas_left,
        post.stack@ == pre.stack@,
{
}

/// From Istanbul on, SSTORE outside a static call with no more gas than the
/// stipend fails with `OutOfGas`, asks nothing of the host and leaves the
/// frame as it was.
pub proof fn sstore_needs_more_than_the_stipend(pre: ExecutionState, post: ExecutionState, r: Step)
    requires
        !pre.message.is_static,
        pre.evm_revision.since(Revision::Istanbul),
        pre.gas_left <= SSTORE_STIPEND,
        starts(pre, Opcode::Sstore, post, r),
    ensures
        fails(r, StatusCode::OutOfGas),
        post == pre,
{
}

/// When SSTORE learns the outcome of its write it deducts the price of that
/// outcome, counting the slot as cold only where the host said so.
pub proof fn sstore_charges_the_price(
    pre: ExecutionState,
    cold: bool,
    status: StorageStatus,
    post: ExecutionState,
    r: Step,
)
    requires
        resumes(pre, Pending::SstoreStatus { cold }, Resume::StorageStatusInfo { status }, post, r),
    ensures
        pre.gas_left - post.gas_left == sstore_price(pre.evm_revision, cold, status),
        r == Step::Done <==> post.gas_left >= 0,
        fails(r, StatusCode::OutOfGas) <==> post.gas_left < 0,
{
}

/// BLOCKHASH in block `current`: a number that is `current` or above, or
/// more than 256 below it, gives the zero hash with no further request; one
/// of the 256 blocks before `current` gives one request for that block's
/// hash, and nothing is pushed before the answer.
pub proof fn blockhash_window(
    pre: ExecutionState,
    number: Word,
    context: TxContext,
    post: ExecutionState,
    r: Step,
)
    requires
        resumes(
            pre,
            Pending::BlockHashBounds { number },
            Resume::TxContextData { context },
            post,
            r,
        ),
    ensures
        ({
            let current = context.block_number;
            let near = current - 256 <= number.value() < current;
            &&& near ==> post == pre && r == (Step::Request {
                interrupt: Interrupt::GetBlockHash { block_number: number.l0 },
                pending: Pending::PushBlockHash,
            }) && number.l0 == number.value()
            &&& !near ==> r == Step::Done && post.stack@ == pre.stack@.push(
                Word { l0: 0, l1: 0, l2: 0, l3: 0 },
            )
        }),
{
    small_words(number);
}

/// After Tangerine Whistle, SELFDESTRUCT asks whether the beneficiary
/// exists only where the frame's balance is not zero; with a zero balance it
/// goes on to the destruction and charges nothing.
pub proof fn selfdestruct_balance_decides(
    pre: ExecutionState,
    beneficiary: Address,
    balance: Word,
    post: ExecutionState,
    r: Step,
)
    requires
        resumes(
            pre,
            Pending::SelfdestructBalance { beneficiary },
            Resume::Balance { balance },
            post,
            r,
        ),
    ensures
        post == pre,
        balance.value() == 0 ==> asks_selfdestruct(r, pre, beneficiary),
        balance.value() != 0 ==> asks_exists(r, beneficiary),
{
    small_words(balance);
}

/// Wherever SELFDESTRUCT asks whether the beneficiary exists, one that does
/// not costs 25000 and one that does costs nothing; the destruction follows
/// if gas is left.
pub proof fn selfdestruct_new_account_charge(
    pre: ExecutionState,
    beneficiary: Address,
    found: bool,
    post: ExecutionState,
    r: Step,
)
    requires
        resumes(
            pre,
            Pending::SelfdestructExists { beneficiary },
            Resume::AccountExistsStatus { exists: found },
            post,
            r,
        ),
    ensures
        pre.gas_left - post.gas_left == (if found {
            0
        } else {
            SELFDESTRUCT_NEW_ACCOUNT_COST as int
        }),
        post.stack@ == pre.stack@,
        post.gas_left >= 0 ==> asks_selfdestruct(r, pre, beneficiary),
        post.gas_left < 0 ==> fails(r, StatusCode::OutOfGas),
{
}

/// At Tangerine Whistle the first step of SELFDESTRUCT outside a static call
/// asks whether the beneficiary exists: the frame's balance is never asked
/// for.
pub proof fn selfdestruct_at_tangerine_skips_the_balance(
    pre: ExecutionState,
    post: ExecutionState,
    r: Step,
)
    requires
        pre.evm_revision == Revision::Tangerine,
        !pre.message.is_static,
        starts(pre, Opcode::Selfdestruct, post, r),
    ensures
        r matches Step::Request {
            interrupt: Interrupt::AccountExists { address },
            pending: Pending::SelfdestructExists { beneficiary },
        } && address == beneficiary,
{
}

/// ADDRESS, CALLER and CALLVALUE ask nothing of the host: their first step
/// is their last.
pub proof fn local_reads_complete(pre: ExecutionState, op: Opcode, post: ExecutionState, r: Step)
    requires
        op.is_local(),
        starts(pre, op, post, r),
    ensures
        r == Step::Done,
        post.stack@.len() == pre.stack@.len() + 1,
{
}

/// In a static call SSTORE, every LOG and SELFDESTRUCT fail with
/// `StaticModeViolation`: no operand is popped, no gas deducted and nothing
/// asked of the host.
pub proof fn static_call_guard(pre: ExecutionState, op: Opcode, post: ExecutionState, r: Step)
    requires
        op.mutates(),
        pre.message.is_static,
        starts(pre, op, post, r),
    ensures
        fails(r, StatusCode::StaticModeViolation),
        post == pre,
{
}

/// BALANCE from Berlin on, run to its end: where the host answers the two
/// requests and gas is left after the first, the instruction completes, the
/// address on top of the stack gives way to the balance, and the gas goes
/// down by 2500 for a cold account and by nothing for a warm one.
pub proof fn balance_runs_to_its_end(
    s0: ExecutionState,
    s1: ExecutionState,
    r1: Step,
    status: AccessStatus,
    s2: ExecutionState,
    r2: Step,
    balance: Word,
    s3: ExecutionState,
    r3: Step,
)
    requires
        s0.stack@.len() >= 1,
        s0.evm_revision.since(Revision::Berlin),
        starts(s0, Opcode::Balance, s1, r1),
        r1 matches Step::Request { pending, .. } && resumes(
            s1,
            pending,
            Resume::AccessAccountStatus { status },
            s2,
            r2,
        ),
        s2.gas_left >= 0,
        r2 matches Step::Request { pending, .. } && resumes(
            s2,
            pending,
            Resume::Balance { balance },
            s3,
            r3,
        ),
    ensures
        r1 matches Step::Request { interrupt: Interrupt::AccessAccount { address }, .. }
            && asks_balance(r2, address),
        r3 == Step::Done,
        s3.stack@ == s0.stack@.drop_last().push(balance),
        s3.gas_left == s0.gas_left - (if status == AccessStatus::Cold {
            COLD_ACCOUNT_ACCESS_COST - WARM_STORAGE_READ_COST
        } else {
            0
        }),
{
    assert(s0.stack@.take(s0.stack@.len() - 1) =~= s0.stack@.drop_last());
}

/// SSTORE from Berlin on, run to its end outside a static call and with more
/// gas than the stipend: the key and the value leave the stack, the write
/// that is asked for is the one of that key and value, and the gas goes down
/// by the price of the write's outcome, a cold slot counted as the host said.
pub proof fn sstore_runs_to_its_end(
    s0: ExecutionState,
    s1: ExecutionState,
    r1: Step,
    access: AccessStatus,
    s2: ExecutionState,
    r2: Step,
    status: StorageStatus,
    s3: ExecutionState,
    r3: Step,
)
    requires
        s0.stack@.len() >= 2,
        !s0.message.is_static,
        s0.evm_revision.since(Revision::Berlin),
        s0.gas_left > SSTORE_STIPEND,
        starts(s0, Opcode::Sstore, s1, r1),
        r1 matches Step::Request { pending, .. } && resumes(
            s1,
            pending,
            Resume::AccessStorageStatus { status: access },
            s2,
            r2,
        ),
        r2 matches Step::Request { pending, .. } && resumes(
            s2,
            pending,
            Resume::StorageStatusInfo { status },
            s3,
            r3,
        ),
    ensures
        r1 matches Step::Request { interrupt: Interrupt::AccessStorage { key, .. }, .. } && (
        r2 matches Step::Request {
            interrupt: Interrupt::SetStorage { address, key: written, value },
            ..
        }
            && address == s0.message.destination && written == key),
        s3.stack@ == s0.stack@.take(s0.stack@.len() - 2),
        s3.gas_left == s0.gas_left - sstore_price(
            s0.evm_revision,
            access == AccessStatus::Cold,
            status,
        ),
        s3.gas_left >= 0 ==> r3 == Step::Done,
        s3.gas_left < 0 ==> fails(r3, StatusCode::OutOfGas),
{
}

/// A LOG that reaches its request has paid eight gas for each byte of its
/// data, nothing where there is none, and has popped its topics and no
/// other word.
pub proof fn log_pays_for_its_data(
    pre: ExecutionState,
    num_topics: u8,
    found: Option<MemoryRegion>,
    post: ExecutionState,
    r: Step,
)
    requires
        pre.stack@.len() >= num_topics,
        log_emits(pre, num_topics, Ok(found), post, r),
        r is Request,
    ensures
        found is None ==> post.gas_left == pre.gas_left,
        found matches Some(region) ==> post.gas_left == pre.gas_left - 8 * region.size,
        post.stack@.len() == pre.stack@.len() - num_topics,
        forall|i: int| 0 <= i < post.stack@.len() ==> post.stack@[i] == pre.stack@[i],
{
}

} // verus!
