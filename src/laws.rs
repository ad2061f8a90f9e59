use vstd::prelude::*;

use crate::ids::IdAllocator;
use crate::model::UpdateCampaignPayload;
use crate::registry::{updated_campaign, Registry};

verus! {

/// Counter values along a run in which every call moves the counter forward
/// never go back: a later value is at least an earlier one.
proof fn lemma_counters_ascend(counters: Seq<nat>, i: int, j: int)
    requires
        forall|k: int| 0 <= k < counters.len() - 1 ==> counters[k] < #[trigger] counters[k + 1],
        0 <= i <= j < counters.len(),
    ensures
        counters[i] <= counters[j],
    decreases j - i,
{
    if i < j {
        let k = j - 1;
        lemma_counters_ascend(counters, i, k);
        assert(counters[k] < counters[k + 1]);
    }
}

/// Identifiers returned by a run of creation calls are pairwise distinct,
/// and increase with the order of the calls. `counters[k]` is the
/// allocator's last issued value before call `k` and `counters[k + 1]` the
/// one after it; each creation call returns an identifier above the first
/// and at most the second.
pub proof fn lemma_issued_ids_distinct(counters: Seq<nat>, ids: Seq<u64>)
    requires
        counters.len() == ids.len() + 1,
        forall|k: int| 0 <= k < ids.len() ==> counters[k] < #[trigger] ids[k] <= counters[k + 1],
    ensures
        forall|i: int, j: int| 0 <= i < j < ids.len() ==> ids[i] < ids[j],
        forall|i: int, j: int|
            0 <= i < ids.len() && 0 <= j < ids.len() && i != j ==> ids[i] != ids[j],
{
    assert forall|k: int| 0 <= k < counters.len() - 1 implies counters[k] < #[trigger] counters[k
        + 1] by {
        assert(counters[k] < ids[k] <= counters[k + 1]);
    }
    assert forall|i: int, j: int| 0 <= i < j < ids.len() implies ids[i] < ids[j] by {
        assert(ids[i] <= counters[i + 1]);
        lemma_counters_ascend(counters, i + 1, j);
        assert(counters[j] < ids[j]);
    }
    assert forall|i: int, j: int|
        0 <= i < ids.len() && 0 <= j < ids.len() && i != j implies ids[i] != ids[j] by {
        if i < j {
            assert(ids[i] < ids[j]);
        } else {
            assert(ids[j] < ids[i]);
        }
    }
}

/// Two successive calls of `IdAllocator::next_id` that both succeed return
/// strictly increasing values: `a0`, `a1`, `a2` are the allocator before,
/// between and after the calls, `r1` and `r2` the values they returned.
pub proof fn lemma_next_id_increases(
    a0: IdAllocator,
    a1: IdAllocator,
    a2: IdAllocator,
    r1: u64,
    r2: u64,
)
    requires
        r1 == a0.last_issued() + 1,
        a1.last_issued() == r1,
        r2 == a1.last_issued() + 1,
        a2.last_issued() == r2,
    ensures
        r1 < r2,
        a0.last_issued() < a1.last_issued() < a2.last_issued(),
{
}

/// An identifier above the allocator's last issued value is held by no
/// record of any store, so a record created under it collides with none.
pub proof fn lemma_next_id_is_fresh(reg: Registry, id: u64)
    requires
        reg.wf(),
        id > reg.ids.last_issued(),
    ensures
        !reg.campaigns.contains_key(id),
        !reg.donations.contains_key(id),
        !reg.expenses.contains_key(id),
        !reg.outreach.contains_key(id),
        !reg.messages.contains_key(id),
        !reg.notifications.contains_key(id),
        !reg.users.contains_key(id),
{
}

/// Updating a campaign with the same payload twice stores the same record
/// both times: `r1` is the registry after the first update of `r0`, `r2`
/// the one after the second.
pub proof fn lemma_update_idempotent(
    r0: Registry,
    r1: Registry,
    r2: Registry,
    p: UpdateCampaignPayload,
)
    requires
        r0.campaigns.record(p.id) is Some,
        r1.campaigns.record(p.id) == Some(updated_campaign(r0.campaigns.record(p.id).unwrap(), p)),
        r2.campaigns.record(p.id) == Some(updated_campaign(r1.campaigns.record(p.id).unwrap(), p)),
    ensures
        r2.campaigns.record(p.id) == r1.campaigns.record(p.id),
{
    let c = r0.campaigns.record(p.id).unwrap();
    let once = updated_campaign(c, p);
    assert(updated_campaign(once, p) == once);
}

} // verus!
