//! Gas constants of the state-touching instructions and the price of a
//! storage write.

use vstd::prelude::*;
use crate::host::StorageStatus;
use crate::revision::Revision;

verus! {

/// The cost of the first read of a storage slot in a transaction.
pub const COLD_SLOAD_COST: i64 = 2100;

/// The cost of the first access to an account in a transaction.
pub const COLD_ACCOUNT_ACCESS_COST: i64 = 2600;

/// The cost of reading a slot or account that was accessed before.
pub const WARM_STORAGE_READ_COST: i64 = 100;

/// What a cold account access costs beyond the warm cost.
pub const ADDITIONAL_COLD_ACCOUNT_ACCESS_COST: i64 = 2500;

/// What a cold storage read costs beyond the warm cost.
pub const ADDITIONAL_COLD_SLOAD_COST: i64 = 2000;

/// The charge for destructing into an account that does not exist.
pub const SELFDESTRUCT_NEW_ACCOUNT_COST: i64 = 25000;

/// The call stipend: a storage write needs more gas than this.
pub const SSTORE_STIPEND: i64 = 2300;

/// The cost of one byte of log data.
pub const LOG_DATA_COST: i64 = 8;

/// The largest log region whose cost fits the gas counter.
pub const LOG_DATA_LIMIT: u64 = 0x0fff_ffff_ffff_ffff;

/// The price of a storage write with the given outcome. `cold` says that the
/// host found the slot cold; it counts from Berlin on.
pub open spec fn sstore_price(revision: Revision, cold: bool, status: StorageStatus) -> int {
    let berlin = revision.since(Revision::Berlin);
    let surcharge: int = if berlin && cold { COLD_SLOAD_COST as int } else { 0 };
    match status {
        StorageStatus::Unchanged | StorageStatus::ModifiedAgain => {
            if berlin {
                surcharge + WARM_STORAGE_READ_COST
            } else if revision == Revision::Istanbul {
                800
            } else if revision == Revision::Constantinople {
                200
            } else {
                5000
            }
        },
        StorageStatus::Modified | StorageStatus::Deleted => {
            if berlin {
                surcharge + 5000 - COLD_SLOAD_COST
            } else {
                5000
            }
        },
        StorageStatus::Added => surcharge + 20000,
    }
}

/// The price of a storage write with the given outcome.
pub fn sstore_cost(revision: Revision, cold: bool, status: StorageStatus) -> (cost: i64)
    ensures
        cost == sstore_price(revision, cold, status),
        0 < cost <= 22100,
{
    let berlin = revision.at_least(Revision::Berlin);
    let surcharge: i64 = if berlin && cold { COLD_SLOAD_COST } else { 0 };
    match status {
        StorageStatus::Unchanged | StorageStatus::ModifiedAgain => {
            if berlin {
                surcharge + WARM_STORAGE_READ_COST
            } else if revision == Revision::Istanbul {
                800
            } else if revision == Revision::Constantinople {
                200
            } else {
                5000
            }
        },
        StorageStatus::Modified | StorageStatus::Deleted => {
            if berlin {
                surcharge + 5000 - COLD_SLOAD_COST
            } else {
                5000
            }
        },
        StorageStatus::Added => surcharge + 20000,
    }
}

/// The price table of a storage write. Before Berlin an added slot costs
/// 20000, a modified or deleted one 5000, and an unchanged one 5000, but 200
/// at Constantinople and 800 at Istanbul. From Berlin on the three prices are
/// 20000, 2900 and 100, and a cold slot adds 2100 to each.
pub proof fn sstore_price_table(revision: Revision, cold: bool, status: StorageStatus)
    ensures
        !revision.since(Revision::Berlin) ==> sstore_price(revision, cold, status) == (match (
        status) {
            StorageStatus::Added => 20000int,
            StorageStatus::Modified | StorageStatus::Deleted => 5000int,
            StorageStatus::Unchanged | StorageStatus::ModifiedAgain => (match revision {
                Revision::Constantinople => 200int,
                Revision::Istanbul => 800int,
                _ => 5000int,
            }),
        }),
        revision.since(Revision::Berlin) ==> sstore_price(revision, cold, status) == (if cold {
            2100int
        } else {
            0int
        }) + (match status {
            StorageStatus::Added => 20000int,
            StorageStatus::Modified | StorageStatus::Deleted => 2900int,
            StorageStatus::Unchanged | StorageStatus::ModifiedAgain => 100int,
        }),
{
}

} // verus!
