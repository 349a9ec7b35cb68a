//! Which peer's branch a project checkout starts from.

use vstd::prelude::*;

use crate::types::PeerId;

verus! {

/// Why no peer can be chosen for a checkout.
#[derive(Debug, Clone, Copy, PartialEq, Eq, Structural)]
pub enum CheckoutError {
    /// The project has several delegates and none was named.
    ManyDelegates,
    /// The project has no delegate.
    NoDelegates,
}

/// The peer whose branch a checkout starts from: none where a local head of
/// the default branch exists (the local fork is checked out), else the
/// project's only delegate. Several delegates, or none, leave the choice open.
pub fn checkout_peer(has_local_head: bool, delegates: &Vec<PeerId>) -> (r: Result<Option<PeerId>, CheckoutError>)
    ensures
        has_local_head ==> r == Ok::<Option<PeerId>, CheckoutError>(None),
        !has_local_head && delegates@.len() > 1 ==> r == Err::<Option<PeerId>, CheckoutError>(
            CheckoutError::ManyDelegates,
        ),
        !has_local_head && delegates@.len() == 0 ==> r == Err::<Option<PeerId>, CheckoutError>(
            CheckoutError::NoDelegates,
        ),
        !has_local_head && delegates@.len() == 1 ==> (r matches Ok(Some(p)) && p.view() == delegates@[0].view()),
{
    if has_local_head {
        Ok(None)
    } else if delegates.len() > 1 {
        Err(CheckoutError::ManyDelegates)
    } else if delegates.len() == 1 {
        Ok(Some(delegates[0].clone_id()))
    } else {
        Err(CheckoutError::NoDelegates)
    }
}

} // verus!
