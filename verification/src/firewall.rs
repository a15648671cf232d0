//! Reference model of the firewall policy applier: the observable rule set
//! it holds, the atomicity of a failed apply, and the idempotence of a
//! repeated one.

use vstd::prelude::*;
use crate::types::FirewallPolicy;
use crate::model::FirewallPolicyV;
use crate::machine::copy_policy;

verus! {

/// What an apply does to the observable rule set: the new policy replaces
/// whatever was held before.
pub open spec fn applier_apply(
    rules: Option<FirewallPolicyV>,
    p: FirewallPolicyV,
) -> Option<FirewallPolicyV> {
    Some(p)
}

/// The observable rule set of a policy applier. `None` means no policy is
/// installed (the pre-existing, unmanaged rules).
pub struct FirewallApplier {
    pub rules: Option<FirewallPolicy>,
}

impl View for FirewallApplier {
    type V = Option<FirewallPolicyV>;

    open spec fn view(&self) -> Option<FirewallPolicyV> {
        match self.rules {
            Some(ref p) => Some(p@),
            None => None,
        }
    }
}

impl FirewallApplier {
    /// An applier over unmanaged rules.
    pub fn new() -> (r: Self)
        ensures
            r@ == None::<FirewallPolicyV>,
    {
        FirewallApplier { rules: None }
    }

    /// Build the rule set for `p` and swap it in as one operation.
    pub fn apply(&mut self, p: &FirewallPolicy)
        ensures
            final(self)@ == applier_apply(old(self)@, p@),
    {
        self.rules = Some(copy_policy(p));
    }

    /// An apply whose swap was refused: the previous rule set is left
    /// fully intact, never partially rewritten.
    pub fn apply_outcome(&mut self, p: &FirewallPolicy, accepted: bool) -> (ok: bool)
        ensures
            ok == accepted,
            final(self)@ == if accepted {
                applier_apply(old(self)@, p@)
            } else {
                old(self)@
            },
    {
        if accepted {
            self.rules = Some(copy_policy(p));
        }
        accepted
    }

    /// Remove the managed rule set.
    pub fn reset(&mut self)
        ensures
            final(self)@ == None::<FirewallPolicyV>,
    {
        self.rules = None;
    }
}

/// Idempotence of apply: applying the same policy twice in a row leaves
/// the same observable rule set as applying it once.
pub proof fn lemma_apply_idempotent(rules: Option<FirewallPolicyV>, p: FirewallPolicyV)
    ensures
        applier_apply(applier_apply(rules, p), p) == applier_apply(rules, p),
{
}

} // verus!
