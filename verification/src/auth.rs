//! Opaque caller identities and per-invocation authorization proofs.
//!
//! The hosting environment authenticates callers cryptographically; this
//! library never sees signatures.  It models an identity as an opaque value
//! compared only for equality, and models the authentication capability as
//! the set of identities for which the current invocation carries a
//! verified authorization proof.

use vstd::prelude::*;

verus! {

/// An opaque caller identity.  The state machine only ever compares
/// identities for equality; what an identity physically is (a public key,
/// an account address) is the hosting environment's concern.
#[derive(Clone, Copy, Debug, PartialEq, Eq, Structural, Hash)]
pub struct Identity {
    pub id: u64,
}

/// The set of identities for which the current invocation carries a
/// verified authorization proof.  The hosting environment builds one per
/// invocation, granting exactly the identities whose consent it has
/// checked; the operation handlers require the proofs they need.
pub struct AuthProofs {
    pub granted: Vec<Identity>,
}

impl AuthProofs {
    /// True when this invocation carries a proof for `who`.
    pub open spec fn spec_carries(&self, who: Identity) -> bool {
        self.granted@.contains(who)
    }

    /// An invocation context that carries no proofs at all.
    pub fn new() -> (ctx: AuthProofs)
        ensures
            forall|who: Identity| !ctx.spec_carries(who),
    {
        AuthProofs { granted: Vec::new() }
    }

    /// Record that the environment has verified a proof for `who`.
    pub fn grant(&mut self, who: Identity)
        ensures
            final(self).spec_carries(who),
            forall|other: Identity|
                old(self).spec_carries(other) ==> final(self).spec_carries(other),
            forall|other: Identity|
                final(self).spec_carries(other)
                    ==> other == who || old(self).spec_carries(other),
    {
        self.granted.push(who);
        proof {
            assert(self.granted@.last() == who);
            assert forall|other: Identity|
                old(self).granted@.contains(other) implies self.granted@.contains(
                other,
            ) by {
                let j = choose|j: int|
                    0 <= j < old(self).granted@.len() && old(self).granted@[j] == other;
                assert(self.granted@[j] == other);
            }
            assert forall|other: Identity|
                self.granted@.contains(other) implies other == who
                    || old(self).granted@.contains(other) by {
                let j = choose|j: int|
                    0 <= j < self.granted@.len() && self.granted@[j] == other;
                if j < old(self).granted@.len() {
                    assert(old(self).granted@[j] == other);
                }
            }
        }
    }

    /// Query whether this invocation carries a proof for `who`.
    pub fn carries(&self, who: Identity) -> (b: bool)
        ensures
            b == self.spec_carries(who),
    {
        let mut i: usize = 0;
        while i < self.granted.len()
            invariant
                i <= self.granted@.len(),
                forall|j: int| 0 <= j < i ==> self.granted@[j] != who,
            decreases self.granted@.len() - i,
        {
            if self.granted[i] == who {
                proof {
                    assert(self.granted@[i as int] == who);
                }
                return true;
            }
            i = i + 1;
        }
        false
    }
}

} // verus!
