//! What a component answers after handling an action: whether the
//! enclosing level may react to the same action too.

use vstd::prelude::*;

verus! {

/// Returned by every `handle_action`.  `Handle` lets propagation continue:
/// the enclosing level may also interpret the action (quit keys, focus
/// navigation).  `Ignore` stops propagation: the component consumed the
/// action and the enclosing level must not re-interpret it.
#[derive(Clone, Copy, Debug, PartialEq, Eq, Structural)]
pub enum HandleActionResponse {
    Ignore,
    Handle,
}

impl Default for HandleActionResponse {
    /// Propagation continues unless a component explicitly stops it.
    fn default() -> (r: Self)
        ensures
            r == HandleActionResponse::Handle,
    {
        HandleActionResponse::Handle
    }
}

} // verus!
