//! The emission of a log, once the memory region of its data is resolved.

use vstd::prelude::*;
use crate::gas::{LOG_DATA_COST, LOG_DATA_LIMIT};
use crate::host::{Interrupt, StatusCode};
use crate::instructions::{charge, pop};
use crate::protocol::{charged, fails, operand, MemoryRegion, Pending, Step};
use crate::state::ExecutionState;
use crate::topics::{topic_bytes, topics_new, topics_push};
use crate::word::u256_to_hash;

verus! {

/// The gas that a log's data costs: eight for each byte of its region.
pub open spec fn log_data_cost(found: Option<MemoryRegion>) -> int {
    match found {
        Some(region) => LOG_DATA_COST * region.size,
        None => 0,
    }
}

/// The bytes of memory that a log carries.
pub open spec fn log_data(s: ExecutionState, found: Option<MemoryRegion>) -> Seq<u8> {
    match found {
        Some(region) => s.memory@.subrange(region.offset as int, region.offset + region.size),
        None => Seq::empty(),
    }
}

/// The topics of a log: operand `i` of the stack is topic `i`.
pub open spec fn log_topics(s: ExecutionState, num_topics: u8) -> Seq<Seq<u8>> {
    Seq::new(num_topics as nat, |i: int| operand(s, i).be_bytes())
}

/// What a LOG does once its memory region is resolved. A region that could
/// not be had fails with `OutOfGas`, and so does a data cost beyond the gas
/// counter's range, with the frame as it was. Else the data cost is
/// deducted; if gas is left, the topics are popped and the log is handed to
/// the host.
pub open spec fn log_emits(
    pre: ExecutionState,
    num_topics: u8,
    region: Result<Option<MemoryRegion>, ()>,
    post: ExecutionState,
    r: Step,
) -> bool {
    match region {
        Err(_) => fails(r, StatusCode::OutOfGas) && post == pre,
        Ok(found) => {
            let cost = log_data_cost(found);
            if cost > i64::MAX {
                fails(r, StatusCode::OutOfGas) && post == pre
            } else if pre.gas_left < cost {
                fails(r, StatusCode::OutOfGas) && charged(pre, post, cost)
            } else {
                &&& post.same_frame(pre)
                &&& post.gas_left == pre.gas_left - cost
                &&& post.stack@ == pre.stack@.take(pre.stack@.len() - num_topics)
                &&& r matches Step::Request {
                    interrupt: Interrupt::EmitLog { address, data, topics },
                    pending: Pending::LogAck,
                } && address == pre.message.destination && data@ == log_data(pre, found)
                    && topic_bytes(topics) == log_topics(pre, num_topics)
            }
        },
    }
}

/// Whether a LOG with `num_topics` topics can go on with `region`: there are
/// at most four topics and the stack holds them, the frame has gas, and the
/// region lies within the memory.
pub open spec fn emittable(
    s: ExecutionState,
    num_topics: u8,
    region: Result<Option<MemoryRegion>, ()>,
) -> bool {
    &&& num_topics <= 4
    &&& s.stack@.len() >= num_topics
    &&& s.gas_left >= 0
    &&& region matches Ok(Some(found)) ==> found.offset + found.size <= s.memory@.len()
}

/// Whether a LOG with `num_topics` topics can go on with `region`.
pub fn can_emit(
    state: &ExecutionState,
    num_topics: u8,
    region: &Result<Option<MemoryRegion>, ()>,
) -> (r: bool)
    ensures
        r == emittable(*state, num_topics, *region),
{
    let within = match region {
        Ok(Some(found)) => found.offset <= state.memory.len() && found.size <= state.memory.len()
            - found.offset,
        _ => true,
    };
    within && num_topics <= 4 && state.stack.len() >= num_topics as usize && state.gas_left >= 0
}

/// The bytes of a region of the frame's memory.
fn read_memory(state: &ExecutionState, found: Option<MemoryRegion>) -> (data: Vec<u8>)
    requires
        found matches Some(region) ==> region.offset + region.size <= state.memory@.len(),
    ensures
        data@ == log_data(*state, found),
{
    let mut data: Vec<u8> = Vec::new();
    match found {
        Some(region) => {
            let mut j: usize = 0;
            while j < region.size
                invariant
                    j <= region.size,
                    region.offset + region.size <= state.memory.len(),
                    data@ == state.memory@.subrange(region.offset as int, region.offset + j),
                decreases region.size - j,
            {
                data.push(state.memory[region.offset + j]);
                j = j + 1;
                assert(data@ =~= state.memory@.subrange(region.offset as int, region.offset + j));
            }
        },
        None => {},
    }
    data
}

/// A LOG with `num_topics` topics, from the point where the memory region of
/// its data is resolved up to its request. `region` is what the memory
/// accessor made of the offset and size that the first step handed out: a
/// fault, no region for an empty one, or a region within the memory.
pub fn log_emit(
    state: &mut ExecutionState,
    num_topics: u8,
    region: Result<Option<MemoryRegion>, ()>,
) -> (r: Step)
    requires
        emittable(*old(state), num_topics, region),
    ensures
        log_emits(*old(state), num_topics, region, *final(state), r),
        r.paired(),
{
    let found = match region {
        Ok(found) => found,
        Err(_) => {
            return Step::Failed { status: StatusCode::OutOfGas };
        },
    };
    match found {
        Some(region) => {
            let n: u64 = region.size as u64;
            if n > LOG_DATA_LIMIT {
                return Step::Failed { status: StatusCode::OutOfGas };
            }
            let cost: i64 = (n * 8) as i64;
            if !charge(state, cost) {
                return Step::Failed { status: StatusCode::OutOfGas };
            }
        },
        None => {},
    }
    let ghost mid = *state;
    let mut topics = topics_new();
    let mut i: u8 = 0;
    while i < num_topics
        invariant
            i <= num_topics <= 4,
            mid.stack@.len() >= num_topics,
            state.same_frame(mid),
            state.gas_left == mid.gas_left,
            state.stack@ == mid.stack@.take(mid.stack@.len() - i),
            topic_bytes(topics) == log_topics(mid, i),
        decreases num_topics - i,
    {
        let ghost before = *state;
        let topic = u256_to_hash(pop(state));
        topics_push(&mut topics, topic);
        proof {
            assert(operand(before, 0) == operand(mid, i as int));
            assert(state.stack@ =~= mid.stack@.take(mid.stack@.len() - (i + 1)));
            assert(log_topics(mid, i).push(topic.bytes@) =~= log_topics(mid, (i + 1) as u8));
        }
        i = i + 1;
    }
    let data = read_memory(state, found);
    proof {
        assert(log_topics(mid, num_topics) =~= log_topics(*old(state), num_topics));
    }
    Step::Request {
        interrupt: Interrupt::EmitLog { address: state.message.destination, data, topics },
        pending: Pending::LogAck,
    }
}

} // verus!
