//! State machine for a milestone-gated crowdfunding campaign.
//!
//! A campaign holds a fundraising target, a running total of donations, and
//! an ordered list of percentage-weighted milestones.  Each milestone is
//! first marked complete by the campaign's creator and then, separately,
//! approved by its administrator; both transitions are one-way.  The sum of
//! the milestone percentages is fixed at exactly one hundred when the
//! campaign is initialized.
//!
//! Caller authentication and the on-ledger key-value store are external
//! collaborators: identities are opaque values compared only for equality,
//! and an invocation carries a set of verified authorization proofs that the
//! operations query.  The persisted aggregate is modelled as a store handle
//! ([`state::Campaign`]) holding at most one [`state::CampaignData`] record,
//! which every operation loads, validates, mutates and writes back whole.

use vstd::prelude::*;

mod auth;
mod laws;
mod state;

verus! {

pub use crate::auth::AuthProofs;
pub use crate::auth::Identity;
pub use crate::state::Campaign;
pub use crate::state::CampaignData;
pub use crate::state::CampaignView;
pub use crate::state::DataKey;
pub use crate::state::Error;
pub use crate::state::Milestone;

} // verus!
