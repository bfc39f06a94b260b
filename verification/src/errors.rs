//! The reasons for which the host refuses a request of the guest.

use vstd::prelude::*;
use linera_base::ownership::{ChangeApplicationPermissionsError, CloseChainError};
use crate::host::{
    close_chain_not_permitted, close_chain_refusal, permissions_change_not_permitted,
    permissions_change_refusal,
};
use crate::wire::{WireChangeApplicationPermissionsError, WireCloseChainError};

verus! {

/// Maps each reason to the host's variant of the same name.
pub fn close_chain_error(wire: WireCloseChainError) -> (error: CloseChainError)
    ensures
        close_chain_refusal(error) == wire@,
{
    match wire {
        WireCloseChainError::NotPermitted => close_chain_not_permitted(),
    }
}

/// Maps each reason to the host's variant of the same name.
pub fn change_application_permissions_error(
    wire: WireChangeApplicationPermissionsError,
) -> (error: ChangeApplicationPermissionsError)
    ensures
        permissions_change_refusal(error) == wire@,
{
    match wire {
        WireChangeApplicationPermissionsError::NotPermitted => permissions_change_not_permitted(),
    }
}

} // verus!
