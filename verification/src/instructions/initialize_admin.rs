//! Creating the admin registry.

use vstd::prelude::*;
use crate::errors::JailbreakError;
use crate::state::{AccountId, ProgramAdmin};

verus! {

/// The accounts of the operation that creates the admin registry.
#[derive(Clone, Copy, Debug, PartialEq, Eq)]
pub struct InitializeAdmin {
    /// The registry's place: empty until the registry is created.
    pub program_admin: Option<ProgramAdmin>,
    /// The caller, who becomes the protocol authority.
    pub authority: AccountId,
}

impl InitializeAdmin {
    /// Why the operation is refused, if it is: the registry exists already.
    pub open spec fn rejection(self) -> Option<JailbreakError> {
        if self.program_admin is Some {
            Some(JailbreakError::InvalidAuthority)
        } else {
            None
        }
    }

    /// The context after the operation has applied.
    pub open spec fn applied(self) -> InitializeAdmin {
        InitializeAdmin {
            program_admin: Some(ProgramAdmin { authority: self.authority }),
            authority: self.authority,
        }
    }

    /// What the operation does: on success the context is the applied one,
    /// on failure it is unchanged and the error is the rejection.
    pub open spec fn transition(
        pre: InitializeAdmin,
        post: InitializeAdmin,
        r: Result<(), JailbreakError>,
    ) -> bool {
        match r {
            Ok(_) => pre.rejection() is None && post == pre.applied(),
            Err(e) => pre.rejection() == Some(e) && post == pre,
        }
    }
}

/// Creates the registry with the caller as the protocol authority. The
/// registry is created once: while it exists, every further attempt fails
/// with `InvalidAuthority` and leaves it untouched.
pub fn handler(ctx: &mut InitializeAdmin) -> (r: Result<(), JailbreakError>)
    ensures
        InitializeAdmin::transition(*old(ctx), *final(ctx), r),
{
    if ctx.program_admin.is_some() {
        return Err(JailbreakError::InvalidAuthority);
    }
    ctx.program_admin = Some(ProgramAdmin { authority: ctx.authority });
    Ok(())
}

} // verus!
