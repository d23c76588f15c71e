use crate::order_type::{ItemPair, ItemPairView};
use crate::timestamp::Timestamp;
use rand::Rng;
use vstd::prelude::*;

verus! {

/// The shortest time, in seconds, that cooking an item takes.
pub const COOK_TIME_MIN: u64 = 5;

/// The longest time, in seconds, that cooking an item takes.
pub const COOK_TIME_MAX: u64 = 15;

/// Work for the kitchen: prepare `item` for the session of `table_id`
/// opened at `created_at`, which takes `cook_time` seconds.
#[derive(Debug)]
pub struct CookTask {
    pub created_at: Timestamp,
    pub table_id: String,
    pub item: ItemPair,
    pub cook_time: u64,
}

/// A cook task as the contracts see it.
pub struct CookTaskView {
    pub created_at: Timestamp,
    pub table_id: Seq<char>,
    pub item: ItemPairView,
    pub cook_time: u64,
}

impl View for CookTask {
    type V = CookTaskView;

    open spec fn view(&self) -> CookTaskView {
        CookTaskView {
            created_at: self.created_at,
            table_id: self.table_id@,
            item: self.item@,
            cook_time: self.cook_time,
        }
    }
}

/// Calls `rand::thread_rng()` and `Rng::gen_range` on the half-open range
/// from `low` to `high`, which panics on an empty range. The contract
/// claims that the number drawn lies in the range, and nothing else of it.
#[verifier::external_body]
pub(crate) fn random_in(low: i64, high: i64) -> (r: i64)
    requires
        low < high,
    ensures
        low <= r < high,
{
    rand::thread_rng().gen_range(low..high)
}

impl CookTask {
    /// True of a task that cooks `item` for the given session and takes a
    /// time within the kitchen's bounds.
    pub open spec fn cooks(self, created_at: Timestamp, table_id: Seq<char>, item: ItemPairView)
        -> bool {
        &&& self@.created_at == created_at
        &&& self@.table_id == table_id
        &&& self@.item == item
        &&& COOK_TIME_MIN <= self.cook_time <= COOK_TIME_MAX
    }

    /// A task with a cook time drawn at random within the kitchen's bounds.
    pub fn draw(created_at: Timestamp, table_id: &String, item: &ItemPair) -> (task: CookTask)
        ensures
            task.cooks(created_at, table_id@, item@),
    {
        let drawn: i64 = random_in(COOK_TIME_MIN as i64, COOK_TIME_MAX as i64 + 1);
        CookTask {
            created_at,
            table_id: table_id.clone(),
            item: item.clone(),
            cook_time: drawn as u64,
        }
    }
}

} // verus!
