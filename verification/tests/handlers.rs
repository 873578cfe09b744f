use arrayvec::ArrayVec;
use evm_host::gas::sstore_cost;
use evm_host::host::{AccessStatus, Interrupt, Resume, StatusCode, StorageStatus, TxContext};
use evm_host::instructions::{
    address, balance, basefee_accessor, blockhash, caller, callvalue, can_start, chainid_accessor,
    coinbase_accessor, difficulty_accessor, do_log, extcodesize, gaslimit_accessor,
    gasprice_accessor, number_accessor, origin_accessor, push_txcontext, selfbalance,
    selfdestruct, sload, sstore, start, timestamp_accessor,
};
use evm_host::logs::{can_emit, log_emit};
use evm_host::resumption::{blockhash_in_reach, can_resume, resume};
use evm_host::protocol::{MemoryRegion, Opcode, Pending, Step, TxField};
use evm_host::revision::Revision;
use evm_host::state::{ExecutionState, Message};
use evm_host::word::{Address, Hash256, Word};

fn addr(last: u8) -> Address {
    let mut bytes = [0u8; 20];
    bytes[19] = last;
    Address { bytes }
}

fn key(last: u8) -> Hash256 {
    let mut bytes = [0u8; 32];
    bytes[31] = last;
    Hash256 { bytes }
}

fn word(x: u64) -> Word {
    Word::from_u64(x)
}

fn frame(revision: Revision, gas: i64, is_static: bool, stack: &[u64]) -> ExecutionState {
    let message =
        Message { destination: addr(0xaa), sender: addr(0xbb), value: word(77), is_static };
    let mut state = ExecutionState::new(message, revision, gas);
    for x in stack {
        state.stack.push(word(*x));
    }
    state
}

fn out_of_gas() -> Step {
    Step::Failed { status: StatusCode::OutOfGas }
}

fn static_violation() -> Step {
    Step::Failed { status: StatusCode::StaticModeViolation }
}

fn context(block_number: u64) -> TxContext {
    TxContext {
        tx_gas_price: word(11),
        tx_origin: addr(0x01),
        block_coinbase: addr(0x02),
        block_number,
        block_timestamp: 1234,
        block_gas_limit: 5678,
        block_difficulty: word(13),
        chain_id: word(1),
        block_base_fee: word(17),
    }
}

#[test]
fn address_caller_callvalue_complete_at_once() {
    let mut state = frame(Revision::London, 100, false, &[]);
    assert_eq!(start(&mut state, Opcode::Address), Step::Done);
    assert_eq!(start(&mut state, Opcode::Caller), Step::Done);
    assert_eq!(start(&mut state, Opcode::CallValue), Step::Done);
    assert_eq!(state.stack, vec![word(0xaa), word(0xbb), word(77)]);
    assert_eq!(state.gas_left, 100);
}

#[test]
fn address_caller_callvalue_push_one_word() {
    let mut state = frame(Revision::Frontier, 5, true, &[9]);
    address(&mut state);
    assert_eq!(state.stack, vec![word(9), word(0xaa)]);
    caller(&mut state);
    assert_eq!(state.stack, vec![word(9), word(0xaa), word(0xbb)]);
    callvalue(&mut state);
    assert_eq!(state.stack, vec![word(9), word(0xaa), word(0xbb), word(77)]);
}

#[test]
fn balance_cold_costs_the_difference() {
    let mut state = frame(Revision::Berlin, 10000, false, &[5, 0x42]);
    let step = balance(&mut state);
    assert_eq!(
        step,
        Step::Request {
            interrupt: Interrupt::AccessAccount { address: addr(0x42) },
            pending: Pending::BalanceAccess { address: addr(0x42) },
        }
    );
    assert_eq!(state.stack, vec![word(5)]);
    assert_eq!(state.gas_left, 10000);
    let step = resume(
        &mut state,
        Pending::BalanceAccess { address: addr(0x42) },
        Resume::AccessAccountStatus { status: AccessStatus::Cold },
    );
    assert_eq!(
        step,
        Step::Request {
            interrupt: Interrupt::GetBalance { address: addr(0x42) },
            pending: Pending::PushBalance,
        }
    );
    assert_eq!(state.gas_left, 7500);
    let step = resume(&mut state, Pending::PushBalance, Resume::Balance { balance: word(99) });
    assert_eq!(step, Step::Done);
    assert_eq!(state.stack, vec![word(5), word(99)]);
    assert_eq!(state.gas_left, 7500);
}

#[test]
fn balance_warm_costs_nothing_more() {
    let mut state = frame(Revision::London, 10000, false, &[]);
    let step = resume(
        &mut state,
        Pending::BalanceAccess { address: addr(0x42) },
        Resume::AccessAccountStatus { status: AccessStatus::Warm },
    );
    assert_eq!(
        step,
        Step::Request {
            interrupt: Interrupt::GetBalance { address: addr(0x42) },
            pending: Pending::PushBalance,
        }
    );
    assert_eq!(state.gas_left, 10000);
}

#[test]
fn balance_before_berlin_asks_no_access() {
    let mut state = frame(Revision::Istanbul, 10000, false, &[0x42]);
    assert_eq!(
        start(&mut state, Opcode::Balance),
        Step::Request {
            interrupt: Interrupt::GetBalance { address: addr(0x42) },
            pending: Pending::PushBalance,
        }
    );
    assert_eq!(state.gas_left, 10000);
    assert!(state.stack.is_empty());
}

#[test]
fn cold_access_runs_out_of_gas() {
    let mut state = frame(Revision::Berlin, 2499, false, &[]);
    let step = resume(
        &mut state,
        Pending::BalanceAccess { address: addr(1) },
        Resume::AccessAccountStatus { status: AccessStatus::Cold },
    );
    assert_eq!(step, out_of_gas());
    let mut state = frame(Revision::Berlin, 2500, false, &[]);
    let step = resume(
        &mut state,
        Pending::CodeSizeAccess { address: addr(1) },
        Resume::AccessAccountStatus { status: AccessStatus::Cold },
    );
    assert_eq!(
        step,
        Step::Request {
            interrupt: Interrupt::GetCodeSize { address: addr(1) },
            pending: Pending::PushCodeSize,
        }
    );
    assert_eq!(state.gas_left, 0);
    let mut state = frame(Revision::Berlin, 1999, false, &[]);
    let step = resume(
        &mut state,
        Pending::SloadAccess { key: key(1) },
        Resume::AccessStorageStatus { status: AccessStatus::Cold },
    );
    assert_eq!(step, out_of_gas());
}

#[test]
fn extcodesize_follows_balance() {
    let mut state = frame(Revision::Berlin, 3000, false, &[0x42]);
    assert_eq!(
        extcodesize(&mut state),
        Step::Request {
            interrupt: Interrupt::AccessAccount { address: addr(0x42) },
            pending: Pending::CodeSizeAccess { address: addr(0x42) },
        }
    );
    let step = resume(
        &mut state,
        Pending::CodeSizeAccess { address: addr(0x42) },
        Resume::AccessAccountStatus { status: AccessStatus::Cold },
    );
    assert_eq!(
        step,
        Step::Request {
            interrupt: Interrupt::GetCodeSize { address: addr(0x42) },
            pending: Pending::PushCodeSize,
        }
    );
    assert_eq!(state.gas_left, 500);
    let step = resume(&mut state, Pending::PushCodeSize, Resume::CodeSize { code_size: word(3) });
    assert_eq!(step, Step::Done);
    assert_eq!(state.stack, vec![word(3)]);
    let mut old = frame(Revision::Frontier, 3000, false, &[0x42]);
    assert_eq!(
        start(&mut old, Opcode::ExtCodeSize),
        Step::Request {
            interrupt: Interrupt::GetCodeSize { address: addr(0x42) },
            pending: Pending::PushCodeSize,
        }
    );
}

#[test]
fn selfbalance_asks_for_own_balance() {
    let mut state = frame(Revision::Berlin, 10, false, &[]);
    let expected = Step::Request {
        interrupt: Interrupt::GetBalance { address: addr(0xaa) },
        pending: Pending::PushBalance,
    };
    assert_eq!(selfbalance(&state), expected);
    assert_eq!(start(&mut state, Opcode::SelfBalance), expected);
    assert_eq!(state.gas_left, 10);
}

#[test]
fn tx_context_reads_project_one_field() {
    let c = context(1000);
    assert_eq!(origin_accessor(c), word(0x01));
    assert_eq!(coinbase_accessor(c), word(0x02));
    assert_eq!(gasprice_accessor(c), word(11));
    assert_eq!(timestamp_accessor(c), word(1234));
    assert_eq!(number_accessor(c), word(1000));
    assert_eq!(gaslimit_accessor(c), word(5678));
    assert_eq!(difficulty_accessor(c), word(13));
    assert_eq!(chainid_accessor(c), word(1));
    assert_eq!(basefee_accessor(c), word(17));
    let fields = [
        (TxField::Origin, 0x01),
        (TxField::Coinbase, 0x02),
        (TxField::GasPrice, 11),
        (TxField::Timestamp, 1234),
        (TxField::Number, 1000),
        (TxField::GasLimit, 5678),
        (TxField::Difficulty, 13),
        (TxField::ChainId, 1),
        (TxField::BaseFee, 17),
    ];
    for (field, expected) in fields {
        let mut state = frame(Revision::London, 10, false, &[]);
        let request = Step::Request {
            interrupt: Interrupt::GetTxContext,
            pending: Pending::PushTxField { field },
        };
        assert_eq!(push_txcontext(field), request);
        assert_eq!(start(&mut state, Opcode::TxContextRead { field }), request);
        let step =
            resume(&mut state, Pending::PushTxField { field }, Resume::TxContextData {
                context: c,
            });
        assert_eq!(step, Step::Done);
        assert_eq!(state.stack, vec![word(expected)]);
    }
}

fn blockhash_of(number: Word, current: u64) -> (Step, Vec<Word>) {
    let mut state = frame(Revision::London, 10, false, &[]);
    state.stack.push(number);
    let step = blockhash(&mut state);
    assert_eq!(
        step,
        Step::Request {
            interrupt: Interrupt::GetTxContext,
            pending: Pending::BlockHashBounds { number },
        }
    );
    assert!(state.stack.is_empty());
    let step = resume(
        &mut state,
        Pending::BlockHashBounds { number },
        Resume::TxContextData { context: context(current) },
    );
    (step, state.stack)
}

#[test]
fn blockhash_window_is_the_last_256_blocks() {
    for n in [1000u64, 1001, 5000, u64::MAX, 743, 0, 1] {
        assert_eq!(blockhash_of(word(n), 1000), (Step::Done, vec![Word::zero()]));
        assert!(!blockhash_in_reach(word(n), 1000));
    }
    for n in [744u64, 745, 900, 999] {
        let (step, stack) = blockhash_of(word(n), 1000);
        assert_eq!(
            step,
            Step::Request {
                interrupt: Interrupt::GetBlockHash { block_number: n },
                pending: Pending::PushBlockHash,
            }
        );
        assert!(stack.is_empty());
        assert!(blockhash_in_reach(word(n), 1000));
    }
}

#[test]
fn blockhash_near_genesis_and_beyond_64_bits() {
    let (step, _) = blockhash_of(word(0), 100);
    assert_eq!(
        step,
        Step::Request {
            interrupt: Interrupt::GetBlockHash { block_number: 0 },
            pending: Pending::PushBlockHash,
        }
    );
    assert_eq!(blockhash_of(word(0), 0), (Step::Done, vec![Word::zero()]));
    let wide = Word { l0: 999, l1: 1, l2: 0, l3: 0 };
    assert_eq!(blockhash_of(wide, 1000), (Step::Done, vec![Word::zero()]));
    let (step, _) = blockhash_of(word(0), 256);
    assert_eq!(
        step,
        Step::Request {
            interrupt: Interrupt::GetBlockHash { block_number: 0 },
            pending: Pending::PushBlockHash,
        }
    );
    assert_eq!(blockhash_of(word(0), 257), (Step::Done, vec![Word::zero()]));
}

#[test]
fn blockhash_pushes_the_answer() {
    let mut state = frame(Revision::London, 10, false, &[]);
    let step = resume(&mut state, Pending::PushBlockHash, Resume::BlockHash { hash: key(0x33) });
    assert_eq!(step, Step::Done);
    assert_eq!(state.stack, vec![word(0x33)]);
}

#[test]
fn sload_cold_and_warm() {
    let mut state = frame(Revision::Berlin, 5000, false, &[7]);
    assert_eq!(
        sload(&mut state),
        Step::Request {
            interrupt: Interrupt::AccessStorage { address: addr(0xaa), key: key(7) },
            pending: Pending::SloadAccess { key: key(7) },
        }
    );
    let step = resume(
        &mut state,
        Pending::SloadAccess { key: key(7) },
        Resume::AccessStorageStatus { status: AccessStatus::Cold },
    );
    let get = Step::Request {
        interrupt: Interrupt::GetStorage { address: addr(0xaa), key: key(7) },
        pending: Pending::PushStorage,
    };
    assert_eq!(step, get);
    assert_eq!(state.gas_left, 3000);
    let step = resume(
        &mut state,
        Pending::SloadAccess { key: key(7) },
        Resume::AccessStorageStatus { status: AccessStatus::Warm },
    );
    assert_eq!(step, get);
    assert_eq!(state.gas_left, 3000);
    let step = resume(&mut state, Pending::PushStorage, Resume::StorageValue { value: key(0x55) });
    assert_eq!(step, Step::Done);
    assert_eq!(state.stack, vec![word(0x55)]);
    let mut old = frame(Revision::Istanbul, 5000, false, &[7]);
    assert_eq!(start(&mut old, Opcode::Sload), get);
    assert_eq!(old.gas_left, 5000);
}

#[test]
fn sstore_with_the_stipend_fails_from_istanbul() {
    for revision in [Revision::Istanbul, Revision::Berlin, Revision::London] {
        for gas in [2300i64, 2299, 0] {
            let mut state = frame(revision, gas, false, &[2, 1]);
            assert_eq!(sstore(&mut state), out_of_gas());
            assert_eq!(state.stack, vec![word(2), word(1)]);
            assert_eq!(state.gas_left, gas);
        }
    }
    let mut state = frame(Revision::Istanbul, 2301, false, &[2, 1]);
    assert_eq!(
        sstore(&mut state),
        Step::Request {
            interrupt: Interrupt::SetStorage { address: addr(0xaa), key: key(1), value: key(2) },
            pending: Pending::SstoreStatus { cold: false },
        }
    );
    let mut state = frame(Revision::Petersburg, 2300, false, &[2, 1]);
    assert_eq!(
        start(&mut state, Opcode::Sstore),
        Step::Request {
            interrupt: Interrupt::SetStorage { address: addr(0xaa), key: key(1), value: key(2) },
            pending: Pending::SstoreStatus { cold: false },
        }
    );
    assert!(state.stack.is_empty());
}

#[test]
fn sstore_from_berlin_asks_access_then_writes() {
    let mut state = frame(Revision::Berlin, 30000, false, &[2, 1]);
    assert_eq!(
        sstore(&mut state),
        Step::Request {
            interrupt: Interrupt::AccessStorage { address: addr(0xaa), key: key(1) },
            pending: Pending::SstoreAccess { key: key(1), value: key(2) },
        }
    );
    for (status, cold) in [(AccessStatus::Cold, true), (AccessStatus::Warm, false)] {
        let step = resume(
            &mut state,
            Pending::SstoreAccess { key: key(1), value: key(2) },
            Resume::AccessStorageStatus { status },
        );
        assert_eq!(
            step,
            Step::Request {
                interrupt: Interrupt::SetStorage {
                    address: addr(0xaa),
                    key: key(1),
                    value: key(2)
                },
                pending: Pending::SstoreStatus { cold },
            }
        );
        assert_eq!(state.gas_left, 30000);
    }
}

fn sstore_charge(revision: Revision, cold: bool, status: StorageStatus) -> i64 {
    let mut state = frame(revision, 100000, false, &[]);
    let step = resume(
        &mut state,
        Pending::SstoreStatus { cold },
        Resume::StorageStatusInfo { status },
    );
    assert_eq!(step, Step::Done);
    assert_eq!(sstore_cost(revision, cold, status), 100000 - state.gas_left);
    100000 - state.gas_left
}

#[test]
fn sstore_prices_before_berlin() {
    let table = [
        (Revision::Frontier, 5000, 5000, 20000),
        (Revision::Constantinople, 200, 5000, 20000),
        (Revision::Petersburg, 5000, 5000, 20000),
        (Revision::Istanbul, 800, 5000, 20000),
    ];
    for (revision, unchanged, modified, added) in table {
        assert_eq!(sstore_charge(revision, false, StorageStatus::Unchanged), unchanged);
        assert_eq!(sstore_charge(revision, false, StorageStatus::ModifiedAgain), unchanged);
        assert_eq!(sstore_charge(revision, false, StorageStatus::Modified), modified);
        assert_eq!(sstore_charge(revision, false, StorageStatus::Deleted), modified);
        assert_eq!(sstore_charge(revision, false, StorageStatus::Added), added);
    }
}

#[test]
fn sstore_prices_from_berlin() {
    for revision in [Revision::Berlin, Revision::London] {
        assert_eq!(sstore_charge(revision, false, StorageStatus::Unchanged), 100);
        assert_eq!(sstore_charge(revision, false, StorageStatus::ModifiedAgain), 100);
        assert_eq!(sstore_charge(revision, false, StorageStatus::Modified), 2900);
        assert_eq!(sstore_charge(revision, false, StorageStatus::Deleted), 2900);
        assert_eq!(sstore_charge(revision, false, StorageStatus::Added), 20000);
        assert_eq!(sstore_charge(revision, true, StorageStatus::Unchanged), 2200);
        assert_eq!(sstore_charge(revision, true, StorageStatus::ModifiedAgain), 2200);
        assert_eq!(sstore_charge(revision, true, StorageStatus::Modified), 5000);
        assert_eq!(sstore_charge(revision, true, StorageStatus::Deleted), 5000);
        assert_eq!(sstore_charge(revision, true, StorageStatus::Added), 22100);
    }
}

#[test]
fn sstore_price_runs_out_of_gas() {
    let mut state = frame(Revision::Frontier, 19999, false, &[]);
    let step = resume(
        &mut state,
        Pending::SstoreStatus { cold: false },
        Resume::StorageStatusInfo { status: StorageStatus::Added },
    );
    assert_eq!(step, out_of_gas());
    let mut state = frame(Revision::Frontier, 20000, false, &[]);
    let step = resume(
        &mut state,
        Pending::SstoreStatus { cold: false },
        Resume::StorageStatusInfo { status: StorageStatus::Added },
    );
    assert_eq!(step, Step::Done);
    assert_eq!(state.gas_left, 0);
}

#[test]
fn static_call_stops_state_changes() {
    let mut ops = vec![Opcode::Sstore, Opcode::Selfdestruct];
    for num_topics in 0..=4u8 {
        ops.push(Opcode::Log { num_topics });
    }
    for op in ops {
        for revision in [Revision::Frontier, Revision::Istanbul, Revision::London] {
            let mut state = frame(revision, 100, true, &[6, 5, 4, 3, 2, 1]);
            assert_eq!(start(&mut state, op), static_violation());
            assert_eq!(state, frame(revision, 100, true, &[6, 5, 4, 3, 2, 1]));
        }
    }
    let mut state = frame(Revision::London, 100, true, &[]);
    assert_eq!(sstore(&mut state), static_violation());
    assert_eq!(selfdestruct(&mut state), static_violation());
    assert_eq!(do_log(&mut state, 4), static_violation());
}

#[test]
fn log_hands_out_offset_and_size() {
    let mut state = frame(Revision::London, 100, false, &[9, 32, 64]);
    assert_eq!(
        do_log(&mut state, 1),
        Step::Region { offset: word(64), size: word(32), num_topics: 1 }
    );
    assert_eq!(state.stack, vec![word(9)]);
    assert_eq!(state.gas_left, 100);
}

#[test]
fn log_without_data_charges_nothing() {
    for num_topics in 0..=4u8 {
        let mut state = frame(Revision::London, 100, false, &[5, 4, 3, 2, 1]);
        state.memory = vec![1, 2, 3];
        let step = log_emit(&mut state, num_topics, Ok(None));
        let mut topics = ArrayVec::<[u8; 32], 4>::new();
        for t in 1..=num_topics {
            topics.push(key(t).bytes);
        }
        assert_eq!(
            step,
            Step::Request {
                interrupt: Interrupt::EmitLog { address: addr(0xaa), data: vec![], topics },
                pending: Pending::LogAck,
            }
        );
        assert_eq!(state.gas_left, 100);
        assert_eq!(state.stack.len(), 5 - num_topics as usize);
    }
}

#[test]
fn log_data_costs_eight_a_byte() {
    let mut state = frame(Revision::London, 100, false, &[3, 2, 1]);
    state.memory = vec![10, 11, 12, 13, 14, 15];
    let step = log_emit(&mut state, 2, Ok(Some(MemoryRegion { offset: 1, size: 4 })));
    let mut topics = ArrayVec::<[u8; 32], 4>::new();
    topics.push(key(1).bytes);
    topics.push(key(2).bytes);
    assert_eq!(
        step,
        Step::Request {
            interrupt: Interrupt::EmitLog {
                address: addr(0xaa),
                data: vec![11, 12, 13, 14],
                topics,
            },
            pending: Pending::LogAck,
        }
    );
    assert_eq!(state.gas_left, 100 - 32);
    assert_eq!(state.stack, vec![word(3)]);
    assert_eq!(resume(&mut state, Pending::LogAck, Resume::Empty), Step::Done);
    assert_eq!(state.gas_left, 68);
}

#[test]
fn log_runs_out_of_gas() {
    let mut state = frame(Revision::London, 31, false, &[1]);
    state.memory = vec![0; 4];
    let step = log_emit(&mut state, 1, Ok(Some(MemoryRegion { offset: 0, size: 4 })));
    assert_eq!(step, out_of_gas());
    assert_eq!(state.stack, vec![word(1)]);
    let mut state = frame(Revision::London, 32, false, &[1]);
    state.memory = vec![0; 4];
    let step = log_emit(&mut state, 0, Ok(Some(MemoryRegion { offset: 0, size: 4 })));
    assert_eq!(
        step,
        Step::Request {
            interrupt: Interrupt::EmitLog {
                address: addr(0xaa),
                data: vec![0; 4],
                topics: ArrayVec::new(),
            },
            pending: Pending::LogAck,
        }
    );
    assert_eq!(state.gas_left, 0);
    let mut state = frame(Revision::London, 1000, false, &[1]);
    assert_eq!(log_emit(&mut state, 1, Err(())), out_of_gas());
    assert_eq!(state, frame(Revision::London, 1000, false, &[1]));
}

#[test]
fn selfdestruct_at_tangerine_always_asks_existence() {
    let mut state = frame(Revision::Tangerine, 30000, false, &[0x42]);
    assert_eq!(
        selfdestruct(&mut state),
        Step::Request {
            interrupt: Interrupt::AccountExists { address: addr(0x42) },
            pending: Pending::SelfdestructExists { beneficiary: addr(0x42) },
        }
    );
    let step = resume(
        &mut state,
        Pending::SelfdestructExists { beneficiary: addr(0x42) },
        Resume::AccountExistsStatus { exists: false },
    );
    let destruct = Step::Request {
        interrupt: Interrupt::Selfdestruct { address: addr(0xaa), beneficiary: addr(0x42) },
        pending: Pending::SelfdestructAck,
    };
    assert_eq!(step, destruct);
    assert_eq!(state.gas_left, 5000);
    let step = resume(
        &mut state,
        Pending::SelfdestructExists { beneficiary: addr(0x42) },
        Resume::AccountExistsStatus { exists: true },
    );
    assert_eq!(step, destruct);
    assert_eq!(state.gas_left, 5000);
    assert_eq!(resume(&mut state, Pending::SelfdestructAck, Resume::Empty), Step::Done);
    let step = resume(
        &mut state,
        Pending::SelfdestructExists { beneficiary: addr(0x42) },
        Resume::AccountExistsStatus { exists: false },
    );
    assert_eq!(step, out_of_gas());
}

#[test]
fn selfdestruct_later_looks_at_the_balance() {
    let destruct = Step::Request {
        interrupt: Interrupt::Selfdestruct { address: addr(0xaa), beneficiary: addr(0x42) },
        pending: Pending::SelfdestructAck,
    };
    for revision in [Revision::Spurious, Revision::Istanbul] {
        let mut state = frame(revision, 30000, false, &[0x42]);
        assert_eq!(
            start(&mut state, Opcode::Selfdestruct),
            Step::Request {
                interrupt: Interrupt::GetBalance { address: addr(0xaa) },
                pending: Pending::SelfdestructBalance { beneficiary: addr(0x42) },
            }
        );
        let step = resume(
            &mut state,
            Pending::SelfdestructBalance { beneficiary: addr(0x42) },
            Resume::Balance { balance: Word::zero() },
        );
        assert_eq!(step, destruct);
        let step = resume(
            &mut state,
            Pending::SelfdestructBalance { beneficiary: addr(0x42) },
            Resume::Balance { balance: Word { l0: 0, l1: 0, l2: 1, l3: 0 } },
        );
        assert_eq!(
            step,
            Step::Request {
                interrupt: Interrupt::AccountExists { address: addr(0x42) },
                pending: Pending::SelfdestructExists { beneficiary: addr(0x42) },
            }
        );
        assert_eq!(state.gas_left, 30000);
    }
    for revision in [Revision::Frontier, Revision::Homestead] {
        let mut state = frame(revision, 30000, false, &[0x42]);
        assert_eq!(selfdestruct(&mut state), destruct);
    }
}

#[test]
fn selfdestruct_from_berlin_charges_the_full_cold_cost() {
    let mut state = frame(Revision::Berlin, 3000, false, &[0x42]);
    assert_eq!(
        selfdestruct(&mut state),
        Step::Request {
            interrupt: Interrupt::AccessAccount { address: addr(0x42) },
            pending: Pending::SelfdestructAccess { beneficiary: addr(0x42) },
        }
    );
    let step = resume(
        &mut state,
        Pending::SelfdestructAccess { beneficiary: addr(0x42) },
        Resume::AccessAccountStatus { status: AccessStatus::Cold },
    );
    assert_eq!(
        step,
        Step::Request {
            interrupt: Interrupt::GetBalance { address: addr(0xaa) },
            pending: Pending::SelfdestructBalance { beneficiary: addr(0x42) },
        }
    );
    assert_eq!(state.gas_left, 400);
    let step = resume(
        &mut state,
        Pending::SelfdestructAccess { beneficiary: addr(0x42) },
        Resume::AccessAccountStatus { status: AccessStatus::Warm },
    );
    assert!(matches!(step, Step::Request { .. }));
    assert_eq!(state.gas_left, 400);
    let step = resume(
        &mut state,
        Pending::SelfdestructAccess { beneficiary: addr(0x42) },
        Resume::AccessAccountStatus { status: AccessStatus::Cold },
    );
    assert_eq!(step, out_of_gas());
}

#[test]
fn can_start_asks_for_operands_and_room() {
    let empty = frame(Revision::London, 10, false, &[]);
    let one = frame(Revision::London, 10, false, &[1]);
    let two = frame(Revision::London, 10, false, &[1, 2]);
    let fixed = frame(Revision::London, 10, true, &[]);
    for op in [Opcode::Balance, Opcode::ExtCodeSize, Opcode::BlockHash, Opcode::Sload] {
        assert!(!can_start(&empty, op));
        assert!(can_start(&one, op));
        assert!(!can_start(&fixed, op));
    }
    for op in [Opcode::Sstore, Opcode::Log { num_topics: 0 }, Opcode::Log { num_topics: 4 }] {
        assert!(!can_start(&one, op));
        assert!(can_start(&two, op));
        assert!(can_start(&fixed, op));
    }
    assert!(!can_start(&empty, Opcode::Selfdestruct));
    assert!(can_start(&one, Opcode::Selfdestruct));
    assert!(can_start(&fixed, Opcode::Selfdestruct));
    assert!(!can_start(&two, Opcode::Log { num_topics: 5 }));
    assert!(!can_start(&fixed, Opcode::Log { num_topics: 5 }));
    let mut full = frame(Revision::London, 10, false, &[]);
    full.stack = vec![word(0); 1023];
    for op in [Opcode::Address, Opcode::Caller, Opcode::CallValue] {
        assert!(can_start(&full, op));
    }
    full.stack.push(word(0));
    for op in [Opcode::Address, Opcode::Caller, Opcode::CallValue] {
        assert!(!can_start(&full, op));
        assert!(can_start(&empty, op));
    }
    assert!(can_start(&empty, Opcode::SelfBalance));
    assert!(can_start(&empty, Opcode::TxContextRead { field: TxField::Number }));
}

#[test]
fn can_resume_asks_for_the_matching_answer() {
    let state = frame(Revision::London, 10, false, &[]);
    assert!(can_resume(&state, &Pending::PushBalance, &Resume::Balance { balance: word(1) }));
    assert!(!can_resume(&state, &Pending::PushBalance, &Resume::CodeSize { code_size: word(1) }));
    assert!(!can_resume(&state, &Pending::PushBalance, &Resume::Empty));
    assert!(can_resume(&state, &Pending::LogAck, &Resume::Empty));
    assert!(can_resume(&state, &Pending::SelfdestructAck, &Resume::Empty));
    assert!(!can_resume(
        &state,
        &Pending::SloadAccess { key: key(1) },
        &Resume::AccessAccountStatus { status: AccessStatus::Warm }
    ));
    assert!(can_resume(
        &state,
        &Pending::SloadAccess { key: key(1) },
        &Resume::AccessStorageStatus { status: AccessStatus::Warm }
    ));
    let spent = frame(Revision::London, -1, false, &[]);
    assert!(!can_resume(&spent, &Pending::LogAck, &Resume::Empty));
    let mut full = frame(Revision::London, 10, false, &[]);
    full.stack = vec![word(0); 1024];
    assert!(!can_resume(&full, &Pending::PushBalance, &Resume::Balance { balance: word(1) }));
    assert!(can_resume(&full, &Pending::LogAck, &Resume::Empty));
    assert!(can_resume(
        &full,
        &Pending::SstoreStatus { cold: true },
        &Resume::StorageStatusInfo { status: StorageStatus::Added }
    ));
}

#[test]
fn can_emit_asks_for_a_region_within_memory() {
    let mut state = frame(Revision::London, 10, false, &[1, 2]);
    state.memory = vec![0; 8];
    assert!(can_emit(&state, 2, &Ok(None)));
    assert!(can_emit(&state, 2, &Err(())));
    assert!(!can_emit(&state, 3, &Ok(None)));
    assert!(!can_emit(&state, 5, &Ok(None)));
    assert!(can_emit(&state, 0, &Ok(Some(MemoryRegion { offset: 0, size: 8 }))));
    assert!(can_emit(&state, 0, &Ok(Some(MemoryRegion { offset: 8, size: 0 }))));
    assert!(!can_emit(&state, 0, &Ok(Some(MemoryRegion { offset: 1, size: 8 }))));
    assert!(!can_emit(&state, 0, &Ok(Some(MemoryRegion { offset: 9, size: 0 }))));
    assert!(!can_emit(&state, 0, &Ok(Some(MemoryRegion { offset: usize::MAX, size: 2 }))));
    state.gas_left = -1;
    assert!(!can_emit(&state, 0, &Ok(None)));
}

#[test]
fn log_data_beyond_the_gas_counter_fails() {
    let mut state = frame(Revision::London, i64::MAX, false, &[]);
    state.memory = vec![0; 16];
    let step = log_emit(&mut state, 0, Ok(Some(MemoryRegion { offset: 0, size: 16 })));
    assert!(matches!(step, Step::Request { .. }));
    assert_eq!(state.gas_left, i64::MAX - 128);
}
