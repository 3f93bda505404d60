//! Laws of the campaign state machine, stated and proved over the
//! transition functions that the operation handlers are specified with.

use crate::state::spec_approve;
use crate::state::spec_complete;
use crate::state::spec_donate;
use crate::state::CampaignView;
use crate::state::Error;
use vstd::prelude::*;

verus! {

/// The sum of a sequence of donation amounts.
pub open spec fn amount_sum(amounts: Seq<int>) -> int
    decreases amounts.len(),
{
    if amounts.len() == 0 {
        0
    } else {
        amount_sum(amounts.drop_last()) + amounts.last()
    }
}

/// The outcome of a sequence of donations, each applied to the outcome
/// of the previous one; the first failure aborts the chain.
pub open spec fn donate_all(d: CampaignView, amounts: Seq<int>) -> Result<CampaignView, Error>
    decreases amounts.len(),
{
    if amounts.len() == 0 {
        Ok(d)
    } else {
        match donate_all(d, amounts.drop_last()) {
            Ok(d1) => spec_donate(d1, amounts.last()),
            Err(e) => Err(e),
        }
    }
}

/// Monotonic funding: on an active campaign every donation in a sequence
/// succeeds, the running total afterwards is the starting total plus the
/// sum of the donated amounts, and no other field has changed.
pub proof fn lemma_monotonic_funding(d: CampaignView, amounts: Seq<int>)
    requires
        d.is_active,
    ensures
        donate_all(d, amounts) is Ok,
        donate_all(d, amounts)->Ok_0 == (CampaignView {
            current_amount: d.current_amount + amount_sum(amounts),
            ..d
        }),
    decreases amounts.len(),
{
    if amounts.len() > 0 {
        lemma_monotonic_funding(d, amounts.drop_last());
    }
}

/// One-way completion: completing a pending milestone succeeds, and
/// completing the same milestone again reports `MilestoneAlreadyCompleted`.
pub proof fn lemma_complete_is_one_way(d: CampaignView, i: int)
    requires
        0 <= i < d.milestones.len(),
        !d.milestones[i].completed,
    ensures
        spec_complete(d, i) is Ok,
        spec_complete(spec_complete(d, i)->Ok_0, i) == Err::<CampaignView, Error>(
            Error::MilestoneAlreadyCompleted,
        ),
{
}

/// Approval waits for completion: approving a milestone that has not
/// been completed reports `MilestoneNotCompleted`.
pub proof fn lemma_approve_needs_completion(d: CampaignView, i: int)
    requires
        0 <= i < d.milestones.len(),
        !d.milestones[i].completed,
    ensures
        spec_approve(d, i) == Err::<CampaignView, Error>(Error::MilestoneNotCompleted),
{
}

/// One-way approval: approving a completed, not yet approved milestone
/// succeeds, and approving the same milestone again reports
/// `MilestoneAlreadyApproved`.
pub proof fn lemma_approve_is_one_way(d: CampaignView, i: int)
    requires
        0 <= i < d.milestones.len(),
        d.milestones[i].completed,
        !d.milestones[i].approved,
    ensures
        spec_approve(d, i) is Ok,
        spec_approve(spec_approve(d, i)->Ok_0, i) == Err::<CampaignView, Error>(
            Error::MilestoneAlreadyApproved,
        ),
{
}

} // verus!
