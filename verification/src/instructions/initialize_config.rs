use vstd::prelude::*;
use crate::config::Config;
use crate::identity::Identity;

verus! {

/// Everything the creation of the shared settings works on.
#[derive(Clone, Copy, Debug, PartialEq, Eq)]
pub struct InitializeConfig {
    /// Who creates the settings, and may change them from then on.
    pub admin: Identity,
}

/// Creates the shared settings, with the caller as their administrator.
pub fn initialize_config(ctx: &InitializeConfig, developer_wallet: Identity) -> (r: Config)
    ensures
        r == (Config { admin: ctx.admin, developer_wallet }),
{
    Config { admin: ctx.admin, developer_wallet }
}

} // verus!
