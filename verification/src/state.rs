//! The campaign aggregate and its five operation handlers.
//!
//! [`CampaignData`] is the persisted aggregate: the two privileged
//! identities, the fundraising target, the running donation total, the
//! ordered milestone list and the activity flag.  [`Campaign`] models the
//! single-key persistence boundary: a store handle holding at most one
//! committed aggregate, which every operation loads, validates, mutates
//! and writes back whole.  All validation failures are reported before any
//! write, so a failed operation leaves the store exactly as it found it.

use crate::auth::AuthProofs;
use crate::auth::Identity;
use vstd::prelude::*;

verus! {

/// The business-rule failures an operation can report.  Authorization
/// failures and out-of-range milestone indices are not among them: the
/// hosting environment aborts such invocations outright, so the handlers
/// require them away instead of returning them.
#[derive(Clone, Copy, Debug, PartialEq, Eq, Structural)]
pub enum Error {
    InvalidMilestonePercentages,
    CampaignInactive,
    MilestoneAlreadyCompleted,
    MilestoneNotCompleted,
    MilestoneAlreadyApproved,
}

/// The keys of the external key-value store.  The whole aggregate lives
/// under the single `CampaignData` key; there are no field-level writes.
#[derive(Clone, Copy, Debug)]
pub enum DataKey {
    CampaignData,
}

/// One percentage-weighted deliverable of the campaign.  `completed` is
/// set exactly once by the creator, `approved` exactly once by the
/// administrator, and approval is only reachable after completion.
#[derive(Clone, Copy, Debug, PartialEq, Eq, Structural)]
pub struct Milestone {
    pub percentage: u32,
    pub completed: bool,
    pub approved: bool,
}

/// The persisted campaign aggregate.
#[derive(Debug)]
pub struct CampaignData {
    pub creator: Identity,
    pub admin: Identity,
    pub target_amount: i128,
    pub current_amount: i128,
    pub milestones: Vec<Milestone>,
    pub is_active: bool,
}

/// The mathematical model of a [`CampaignData`] record.
#[verifier::ext_equal]
pub ghost struct CampaignView {
    pub creator: Identity,
    pub admin: Identity,
    pub target_amount: int,
    pub current_amount: int,
    pub milestones: Seq<Milestone>,
    pub is_active: bool,
}

impl View for CampaignData {
    type V = CampaignView;

    open spec fn view(&self) -> CampaignView {
        CampaignView {
            creator: self.creator,
            admin: self.admin,
            target_amount: self.target_amount as int,
            current_amount: self.current_amount as int,
            milestones: self.milestones@,
            is_active: self.is_active,
        }
    }
}

/// The sum of a sequence of milestone percentages.
pub open spec fn percentage_sum(percentages: Seq<u32>) -> int
    decreases percentages.len(),
{
    if percentages.len() == 0 {
        0
    } else {
        percentage_sum(percentages.drop_last()) + percentages.last()
    }
}

/// A milestone as `initialize` creates it: neither completed nor approved.
pub open spec fn fresh_milestone(percentage: u32) -> Milestone {
    Milestone { percentage, completed: false, approved: false }
}

/// The milestone list `initialize` builds from the given percentages,
/// in input order.
pub open spec fn fresh_milestones(percentages: Seq<u32>) -> Seq<Milestone> {
    Seq::new(percentages.len(), |i: int| fresh_milestone(percentages[i]))
}

/// No milestone is approved without having been completed.
pub open spec fn approval_implies_completion(d: CampaignView) -> bool {
    forall|i: int|
        0 <= i < d.milestones.len() && (#[trigger] d.milestones[i]).approved
            ==> d.milestones[i].completed
}

/// The percentages of a campaign's milestones, in order.
pub open spec fn percentages_of(d: CampaignView) -> Seq<u32> {
    d.milestones.map_values(|m: Milestone| m.percentage)
}

/// The aggregate invariant: the milestone percentages sum to exactly one
/// hundred, and approval implies completion.  `initialize` establishes it
/// and every operation preserves it.
pub open spec fn data_well_formed(d: CampaignView) -> bool {
    &&& percentage_sum(percentages_of(d)) == 100
    &&& approval_implies_completion(d)
}

/// What a successful initialization commits, and when it fails.
pub open spec fn spec_initialize(
    creator: Identity,
    admin: Identity,
    target_amount: int,
    percentages: Seq<u32>,
) -> Result<CampaignView, Error> {
    if percentage_sum(percentages) == 100 {
        Ok(
            CampaignView {
                creator,
                admin,
                target_amount,
                current_amount: 0,
                milestones: fresh_milestones(percentages),
                is_active: true,
            },
        )
    } else {
        Err(Error::InvalidMilestonePercentages)
    }
}

/// The donation transition: add `amount` to the running total of an
/// active campaign and change nothing else.
pub open spec fn spec_donate(d: CampaignView, amount: int) -> Result<CampaignView, Error> {
    if !d.is_active {
        Err(Error::CampaignInactive)
    } else {
        Ok(CampaignView { current_amount: d.current_amount + amount, ..d })
    }
}

/// The completion transition: set `completed` on one pending milestone
/// and change nothing else.
pub open spec fn spec_complete(d: CampaignView, i: int) -> Result<CampaignView, Error>
    recommends
        0 <= i < d.milestones.len(),
{
    let m = d.milestones[i];
    if m.completed {
        Err(Error::MilestoneAlreadyCompleted)
    } else {
        Ok(
            CampaignView {
                milestones: d.milestones.update(i, Milestone { completed: true, ..m }),
                ..d
            },
        )
    }
}

/// The approval transition: set `approved` on one completed, not yet
/// approved milestone and change nothing else.
pub open spec fn spec_approve(d: CampaignView, i: int) -> Result<CampaignView, Error>
    recommends
        0 <= i < d.milestones.len(),
{
    let m = d.milestones[i];
    if !m.completed {
        Err(Error::MilestoneNotCompleted)
    } else if m.approved {
        Err(Error::MilestoneAlreadyApproved)
    } else {
        Ok(
            CampaignView {
                milestones: d.milestones.update(i, Milestone { approved: true, ..m }),
                ..d
            },
        )
    }
}

/// The store handle for the single persisted aggregate.  `None` models a
/// contract instance on which `initialize` has never committed.
pub struct Campaign {
    pub data: Option<CampaignData>,
}

impl View for Campaign {
    type V = Option<CampaignView>;

    open spec fn view(&self) -> Option<CampaignView> {
        match self.data {
            Some(d) => Some(d.view()),
            None => None,
        }
    }
}

/// The sum of the percentages in `percentages`, widened so the addition
/// cannot overflow.  The milestone list is indexed by `u32`, so its
/// length is bounded by `u32::MAX`.
fn percentage_total(percentages: &Vec<u32>) -> (total: u64)
    requires
        percentages@.len() <= u32::MAX,
    ensures
        total == percentage_sum(percentages@),
{
    let mut total: u64 = 0;
    let mut i: usize = 0;
    while i < percentages.len()
        invariant
            i <= percentages@.len(),
            percentages@.len() <= u32::MAX,
            total == percentage_sum(percentages@.take(i as int)),
            total <= (i as int) * (u32::MAX as int),
        decreases percentages@.len() - i,
    {
        proof {
            assert(percentages@.take(i + 1).drop_last() =~= percentages@.take(i as int));
            assert((i as int + 1) * (u32::MAX as int) <= (u32::MAX as int) * (
            u32::MAX as int)) by (nonlinear_arith)
                requires
                    i as int + 1 <= u32::MAX as int,
            ;
            assert(total + percentages@[i as int] <= (i as int + 1) * (
            u32::MAX as int)) by (nonlinear_arith)
                requires
                    total <= (i as int) * (u32::MAX as int),
                    percentages@[i as int] <= u32::MAX as int,
            ;
        }
        total = total + (percentages[i] as u64);
        i = i + 1;
    }
    proof {
        assert(percentages@.take(percentages@.len() as int) =~= percentages@);
    }
    total
}

impl Campaign {
    /// The invariant of every committed aggregate; vacuous while nothing
    /// has been committed.
    pub open spec fn well_formed(&self) -> bool {
        match self@ {
            Some(d) => data_well_formed(d),
            None => true,
        }
    }

    /// A contract instance on which nothing has been committed yet.
    pub fn new() -> (c: Campaign)
        ensures
            c@ is None,
            c.well_formed(),
    {
        Campaign { data: None }
    }

    /// Create the aggregate: requires consent of both `creator` and
    /// `admin`, validates that the percentages sum to exactly one
    /// hundred, and commits a fresh aggregate; on failure nothing is
    /// written.  A repeated call overwrites the previous aggregate
    /// without a guard.
    pub fn initialize(
        &mut self,
        auth: &AuthProofs,
        creator: Identity,
        admin: Identity,
        target_amount: i128,
        milestone_percentages: Vec<u32>,
    ) -> (r: Result<(), Error>)
        requires
            auth.spec_carries(creator),
            auth.spec_carries(admin),
            milestone_percentages@.len() <= u32::MAX,
        ensures
            r is Ok <==> percentage_sum(milestone_percentages@) == 100,
            match spec_initialize(creator, admin, target_amount as int, milestone_percentages@) {
                Ok(d) => r is Ok && final(self)@ == Some(d),
                Err(e) => r == Err::<(), Error>(e) && final(self)@ == old(self)@,
            },
            r is Ok ==> final(self).well_formed(),
            old(self).well_formed() ==> final(self).well_formed(),
    {
        let total: u64 = percentage_total(&milestone_percentages);
        if total != 100 {
            return Err(Error::InvalidMilestonePercentages);
        }

        let n: usize = milestone_percentages.len();
        let mut milestones: Vec<Milestone> = Vec::new();
        let mut i: usize = 0;
        while i < n
            invariant
                i <= n,
                n == milestone_percentages@.len(),
                milestones@.len() == i,
                forall|j: int|
                    0 <= j < i ==> milestones@[j] == fresh_milestone(milestone_percentages@[j]),
            decreases n - i,
        {
            milestones.push(
                Milestone { percentage: milestone_percentages[i], completed: false, approved: false },
            );
            i = i + 1;
        }

        let data = CampaignData {
            creator,
            admin,
            target_amount,
            current_amount: 0,
            milestones,
            is_active: true,
        };
        proof {
            assert(data@.milestones =~= fresh_milestones(milestone_percentages@));
            assert(data@ =~= spec_initialize(
                creator,
                admin,
                target_amount as int,
                milestone_percentages@,
            )->Ok_0);
            lemma_fresh_data_well_formed(data@, milestone_percentages@);
        }
        self.data = Some(data);
        Ok(())
    }

    /// Add `amount` to the running total: requires consent of `donor` and
    /// an aggregate to load, fails on an inactive campaign, and changes
    /// no other field.  The amount is not validated: zero and negative
    /// donations are accepted, and no cap against the target applies.
    pub fn donate(&mut self, auth: &AuthProofs, donor: Identity, amount: i128) -> (r: Result<
        (),
        Error,
    >)
        requires
            old(self)@ is Some,
            auth.spec_carries(donor),
            old(self)@->Some_0.is_active ==> i128::MIN <= old(self)@->Some_0.current_amount
                + amount <= i128::MAX,
        ensures
            r is Ok <==> old(self)@->Some_0.is_active,
            match spec_donate(old(self)@->Some_0, amount as int) {
                Ok(d) => r is Ok && final(self)@ == Some(d),
                Err(e) => r == Err::<(), Error>(e) && final(self)@ == old(self)@,
            },
            old(self).well_formed() ==> final(self).well_formed(),
    {
        let mut data = self.data.take().unwrap();
        if !data.is_active {
            self.data = Some(data);
            return Err(Error::CampaignInactive);
        }

        data.current_amount = data.current_amount + amount;
        proof {
            assert(data@ =~= spec_donate(old(self)@->Some_0, amount as int)->Ok_0);
        }
        self.data = Some(data);
        Ok(())
    }

    /// Mark one milestone completed: requires consent of the stored
    /// creator and an index in range, fails if that milestone is already
    /// completed, and touches nothing else.
    pub fn complete_milestone(&mut self, auth: &AuthProofs, milestone_index: u32) -> (r: Result<
        (),
        Error,
    >)
        requires
            old(self)@ is Some,
            milestone_index < old(self)@->Some_0.milestones.len(),
            auth.spec_carries(old(self)@->Some_0.creator),
        ensures
            r is Ok <==> !old(self)@->Some_0.milestones[milestone_index as int].completed,
            match spec_complete(old(self)@->Some_0, milestone_index as int) {
                Ok(d) => r is Ok && final(self)@ == Some(d),
                Err(e) => r == Err::<(), Error>(e) && final(self)@ == old(self)@,
            },
            old(self).well_formed() ==> final(self).well_formed(),
    {
        let mut data = self.data.take().unwrap();
        let index: usize = milestone_index as usize;
        let milestone = data.milestones[index];
        if milestone.completed {
            self.data = Some(data);
            return Err(Error::MilestoneAlreadyCompleted);
        }

        data.milestones.set(
            index,
            Milestone {
                percentage: milestone.percentage,
                completed: true,
                approved: milestone.approved,
            },
        );
        proof {
            assert(data@ =~= spec_complete(old(self)@->Some_0, milestone_index as int)->Ok_0);
            if old(self).well_formed() {
                lemma_update_keeps_well_formed(old(self)@->Some_0, data@, milestone_index as int);
            }
        }
        self.data = Some(data);
        Ok(())
    }

    /// Mark one milestone approved: requires consent of the stored
    /// administrator and an index in range, fails if that milestone is
    /// not yet completed or is already approved, and touches nothing
    /// else.
    pub fn approve_milestone(&mut self, auth: &AuthProofs, milestone_index: u32) -> (r: Result<
        (),
        Error,
    >)
        requires
            old(self)@ is Some,
            milestone_index < old(self)@->Some_0.milestones.len(),
            auth.spec_carries(old(self)@->Some_0.admin),
        ensures
            r is Ok <==> old(self)@->Some_0.milestones[milestone_index as int].completed && !old(
                self,
            )@->Some_0.milestones[milestone_index as int].approved,
            match spec_approve(old(self)@->Some_0, milestone_index as int) {
                Ok(d) => r is Ok && final(self)@ == Some(d),
                Err(e) => r == Err::<(), Error>(e) && final(self)@ == old(self)@,
            },
            old(self).well_formed() ==> final(self).well_formed(),
    {
        let mut data = self.data.take().unwrap();
        let index: usize = milestone_index as usize;
        let milestone = data.milestones[index];
        if !milestone.completed {
            self.data = Some(data);
            return Err(Error::MilestoneNotCompleted);
        }
        if milestone.approved {
            self.data = Some(data);
            return Err(Error::MilestoneAlreadyApproved);
        }

        data.milestones.set(
            index,
            Milestone {
                percentage: milestone.percentage,
                completed: milestone.completed,
                approved: true,
            },
        );
        proof {
            assert(data@ =~= spec_approve(old(self)@->Some_0, milestone_index as int)->Ok_0);
            if old(self).well_formed() {
                lemma_update_keeps_well_formed(old(self)@->Some_0, data@, milestone_index as int);
            }
        }
        self.data = Some(data);
        Ok(())
    }

    /// Return a copy of the full committed aggregate.  Requires that one
    /// has been committed: before `initialize`, the lookup in the store
    /// would abort the invocation.
    pub fn get_campaign_details(&self) -> (r: CampaignData)
        requires
            self@ is Some,
        ensures
            r@ == self@->Some_0,
    {
        let data = self.data.as_ref().unwrap();
        let n: usize = data.milestones.len();
        let mut milestones: Vec<Milestone> = Vec::new();
        let mut i: usize = 0;
        while i < n
            invariant
                i <= n,
                n == data.milestones@.len(),
                milestones@.len() == i,
                forall|j: int| 0 <= j < i ==> milestones@[j] == data.milestones@[j],
            decreases n - i,
        {
            milestones.push(data.milestones[i]);
            i = i + 1;
        }
        proof {
            assert(milestones@ =~= data.milestones@);
        }
        CampaignData {
            creator: data.creator,
            admin: data.admin,
            target_amount: data.target_amount,
            current_amount: data.current_amount,
            milestones,
            is_active: data.is_active,
        }
    }
}

/// A freshly initialized aggregate satisfies the invariant: its
/// percentages are the validated input percentages and no milestone is
/// completed or approved.
proof fn lemma_fresh_data_well_formed(d: CampaignView, percentages: Seq<u32>)
    requires
        percentage_sum(percentages) == 100,
        d.milestones == fresh_milestones(percentages),
    ensures
        data_well_formed(d),
{
    assert(percentages_of(d) =~= percentages);
}

/// Setting `completed`, or setting `approved` on a completed milestone,
/// keeps the aggregate invariant: percentages are untouched and approval
/// still implies completion.
proof fn lemma_update_keeps_well_formed(d0: CampaignView, d1: CampaignView, i: int)
    requires
        data_well_formed(d0),
        0 <= i < d0.milestones.len(),
        d1.milestones.len() == d0.milestones.len(),
        forall|j: int| 0 <= j < d0.milestones.len() && j != i ==> d1.milestones[j]
            == d0.milestones[j],
        d1.milestones[i].percentage == d0.milestones[i].percentage,
        d1.milestones[i].approved ==> d1.milestones[i].completed,
    ensures
        data_well_formed(d1),
{
    assert(percentages_of(d1) =~= percentages_of(d0));
}

} // verus!
