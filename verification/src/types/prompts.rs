//! Choice lists for interactive prompts.

use vstd::prelude::*;

verus! {

/// A type whose values can all be listed, so that a prompt can offer
/// every one.
pub trait AllItems {
    type Item;

    fn all() -> Vec<Self::Item>;
}

/// How an installer treats an already installed package.
#[derive(Clone, Copy, Debug, PartialEq, Eq, Structural)]
pub enum UpgradeBehavior {
    Install,
    UninstallPrevious,
    Deny,
}

impl AllItems for UpgradeBehavior {
    type Item = UpgradeBehavior;

    /// Every upgrade behaviour, in display order.
    fn all() -> (r: Vec<UpgradeBehavior>)
        ensures
            r@ == seq![
                UpgradeBehavior::Install,
                UpgradeBehavior::UninstallPrevious,
                UpgradeBehavior::Deny,
            ],
    {
        let mut v: Vec<UpgradeBehavior> = Vec::new();
        v.push(UpgradeBehavior::Install);
        v.push(UpgradeBehavior::UninstallPrevious);
        v.push(UpgradeBehavior::Deny);
        proof {
            assert(v@ =~= seq![
                UpgradeBehavior::Install,
                UpgradeBehavior::UninstallPrevious,
                UpgradeBehavior::Deny,
            ]);
        }
        v
    }
}

} // verus!
