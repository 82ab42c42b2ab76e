use vstd::prelude::*;
use crate::config::Config;
use crate::error::DaoError;
use crate::identity::Identity;

verus! {

/// Everything a change of the shared settings works on.
#[derive(Clone, Copy, Debug, PartialEq, Eq)]
pub struct UpdateConfig {
    /// Who asks for the change.
    pub admin: Identity,
    pub config: Config,
}

/// Sets the developer wallet. Only the administrator of the settings may
/// do so; anyone else is refused and the settings stay as they were.
pub fn update_config(ctx: &mut UpdateConfig, new_developer_wallet: Identity) -> (r: Result<
    (),
    DaoError,
>)
    ensures
        old(ctx).admin != old(ctx).config.admin ==> r == Err::<(), DaoError>(
            DaoError::UnauthorizedSigner,
        ) && *final(ctx) == *old(ctx),
        old(ctx).admin == old(ctx).config.admin ==> r == Ok::<(), DaoError>(()) && *final(ctx) == (
        UpdateConfig {
            admin: old(ctx).admin,
            config: Config { admin: old(ctx).config.admin, developer_wallet: new_developer_wallet },
        }),
{
    if ctx.admin != ctx.config.admin {
        return Err(DaoError::UnauthorizedSigner);
    }
    ctx.config.developer_wallet = new_developer_wallet;
    Ok(())
}

} // verus!
