//! Credit tracking: the usage counters of one client session.
//!
//! The tracker is plain data that is changed through `&mut`. A client that
//! serves several requests at once keeps it behind a lock, so that the
//! records of different requests are applied one after the other.

use vstd::prelude::*;
use vstd::seq_lib::{to_multiset_contains, to_multiset_len, to_multiset_remove};

verus! {

/// API account/credit usage info returned with a response.
#[derive(Debug, Clone, Copy, PartialEq, Eq)]
pub struct AccountInfo {
    pub est_credits_used: Option<i64>,
    pub est_remaining_credits: Option<i64>,
}

/// The usage of a session at one point in time.
#[derive(Debug, Clone, Copy, PartialEq, Eq)]
pub struct AccountUsage {
    pub est_session_credits_used: i64,
    pub est_remaining_credits: i64,
}

/// The usage counters of a session.
#[derive(Debug, Clone, Copy, PartialEq, Eq)]
pub struct CreditTracker {
    /// Sum of the credits that the responses of this session reported as used.
    pub session_credits_used: i64,
    /// The remaining credits that the latest response reported.
    pub remaining_credits: i64,
}

/// The 64-bit signed number that `x` wraps around to.
pub open spec fn wrapped(x: int) -> i64 {
    ((x + 0x8000_0000_0000_0000) % 0x1_0000_0000_0000_0000 - 0x8000_0000_0000_0000) as i64
}

/// The credits that a response reports as used: 0 when it reports none.
pub open spec fn credits_used(usage: Option<AccountInfo>) -> int {
    match usage {
        Some(AccountInfo { est_credits_used: Some(used), .. }) => used as int,
        _ => 0,
    }
}

/// The sum of the credits that the responses report as used.
pub open spec fn total_credits_used(usages: Seq<Option<AccountInfo>>) -> int
    decreases usages.len(),
{
    if usages.len() == 0 {
        0
    } else {
        total_credits_used(usages.drop_last()) + credits_used(usages.last())
    }
}

impl CreditTracker {
    /// The counters after a response with usage metadata `usage`: the used
    /// credits are added to the session's sum, wrapping around at the
    /// bounds of 64 bits, and the remaining credits replace the earlier
    /// figure. A part that the response does not report changes nothing.
    pub open spec fn recorded(self, usage: Option<AccountInfo>) -> CreditTracker {
        match usage {
            None => self,
            Some(info) => CreditTracker {
                session_credits_used: match info.est_credits_used {
                    Some(used) => wrapped(self.session_credits_used + used),
                    None => self.session_credits_used,
                },
                remaining_credits: match info.est_remaining_credits {
                    Some(remaining) => remaining,
                    None => self.remaining_credits,
                },
            },
        }
    }

    /// The counters after the responses `usages`, recorded in order.
    pub open spec fn recorded_all(self, usages: Seq<Option<AccountInfo>>) -> CreditTracker
        decreases usages.len(),
    {
        if usages.len() == 0 {
            self
        } else {
            self.recorded_all(usages.drop_last()).recorded(usages.last())
        }
    }

    /// The counters of a new session: nothing used, nothing known to remain.
    pub fn new() -> (tracker: Self)
        ensures
            tracker.session_credits_used == 0,
            tracker.remaining_credits == 0,
    {
        CreditTracker { session_credits_used: 0, remaining_credits: 0 }
    }

    /// Records the usage metadata of one response.
    pub fn record(&mut self, usage: &Option<AccountInfo>)
        ensures
            *final(self) == old(self).recorded(*usage),
    {
        if let Some(info) = usage {
            if let Some(used) = info.est_credits_used {
                self.session_credits_used = self.session_credits_used.wrapping_add(used);
            }
            if let Some(remaining) = info.est_remaining_credits {
                self.remaining_credits = remaining;
            }
        }
    }

    /// Both counters, read together.
    pub fn snapshot(&self) -> (usage: AccountUsage)
        ensures
            usage.est_session_credits_used == self.session_credits_used,
            usage.est_remaining_credits == self.remaining_credits,
    {
        AccountUsage {
            est_session_credits_used: self.session_credits_used,
            est_remaining_credits: self.remaining_credits,
        }
    }

    /// Returns total credits used in this session.
    pub fn session_credits_used(&self) -> (used: i64)
        ensures
            used == self.session_credits_used,
    {
        self.session_credits_used
    }

    /// Returns the last known remaining credits.
    pub fn remaining_credits(&self) -> (remaining: i64)
        ensures
            remaining == self.remaining_credits,
    {
        self.remaining_credits
    }
}

/// Wrapping leaves a number that fits in 64 bits as it is.
pub proof fn lemma_wrapped_in_range(x: int)
    requires
        i64::MIN <= x <= i64::MAX,
    ensures
        wrapped(x) == x,
{
}

/// Wrapping a sum is the same whether or not its first term was wrapped before.
pub proof fn lemma_wrapped_sum(a: int, b: int)
    ensures
        wrapped(wrapped(a) + b) == wrapped(a + b),
{
    let m = 0x1_0000_0000_0000_0000int;
    let h = 0x8000_0000_0000_0000int;
    let r = (a + h) % m;
    assert(wrapped(a) == r - h);
    vstd::arithmetic::div_mod::lemma_add_mod_noop(a + h, b, m);
    vstd::arithmetic::div_mod::lemma_add_mod_noop(r, b, m);
    vstd::arithmetic::div_mod::lemma_mod_twice(a + h, m);
    assert((r - h + b + h) % m == (r + b) % m);
    assert((a + b + h) % m == ((a + h) + b) % m);
}

/// However many responses are recorded, and in whatever order, no update
/// is lost: the session's count of used credits ends as its start plus the
/// sum of all that the responses reported, wrapped around at the bounds of
/// 64 bits. The remaining credits are those of the last response that
/// reported any.
pub proof fn lemma_no_update_is_lost(start: CreditTracker, usages: Seq<Option<AccountInfo>>)
    ensures
        start.recorded_all(usages).session_credits_used == wrapped(
            start.session_credits_used + total_credits_used(usages),
        ),
    decreases usages.len(),
{
    if usages.len() == 0 {
        lemma_wrapped_in_range(start.session_credits_used as int);
    } else {
        let before = usages.drop_last();
        lemma_no_update_is_lost(start, before);
        let sum = start.session_credits_used + total_credits_used(before);
        match usages.last() {
            Some(AccountInfo { est_credits_used: Some(used), .. }) => {
                lemma_wrapped_sum(sum, used as int);
            },
            _ => {},
        }
    }
}

/// Taking one response out of a list takes its credits out of the sum.
proof fn lemma_total_without(usages: Seq<Option<AccountInfo>>, i: int)
    requires
        0 <= i < usages.len(),
    ensures
        total_credits_used(usages) == total_credits_used(usages.remove(i)) + credits_used(usages[i]),
    decreases usages.len(),
{
    if i == usages.len() - 1 {
        assert(usages.remove(i) =~= usages.drop_last());
    } else {
        lemma_total_without(usages.drop_last(), i);
        assert(usages.remove(i).drop_last() =~= usages.drop_last().remove(i));
        assert(usages.remove(i).last() == usages.last());
    }
}

/// The sum of the credits used does not depend on the order of the responses.
proof fn lemma_total_of_rearranged(
    first: Seq<Option<AccountInfo>>,
    second: Seq<Option<AccountInfo>>,
)
    requires
        first.to_multiset() == second.to_multiset(),
    ensures
        total_credits_used(first) == total_credits_used(second),
    decreases first.len(),
{
    to_multiset_len(first);
    to_multiset_len(second);
    if first.len() > 0 {
        let last = first.last();
        let rest = first.drop_last();
        assert(first.contains(last));
        to_multiset_contains(first, last);
        to_multiset_contains(second, last);
        let i = choose|i: int| 0 <= i < second.len() && second[i] == last;
        assert(rest =~= first.remove(first.len() - 1));
        to_multiset_remove(first, first.len() - 1);
        to_multiset_remove(second, i);
        lemma_total_of_rearranged(rest, second.remove(i));
        lemma_total_without(second, i);
    }
}

/// Records that interleave differently but hold the same responses leave
/// the same count of used credits: the count depends on what was recorded,
/// not on the order in which the records were applied.
pub proof fn lemma_order_does_not_matter(
    start: CreditTracker,
    first: Seq<Option<AccountInfo>>,
    second: Seq<Option<AccountInfo>>,
)
    requires
        first.to_multiset() == second.to_multiset(),
    ensures
        start.recorded_all(first).session_credits_used == start.recorded_all(
            second,
        ).session_credits_used,
{
    lemma_total_of_rearranged(first, second);
    lemma_no_update_is_lost(start, first);
    lemma_no_update_is_lost(start, second);
}

} // verus!
