use vstd::prelude::*;
use crate::identity::Identity;

verus! {

/// The fee, in lamports, that a recipient pays to the developer wallet on
/// every claim of a recurring payment.
pub const DEVELOPER_FEE: u64 = 1_000_000;

/// The settings shared by all DAOs.
#[derive(Clone, Copy, Debug, PartialEq, Eq)]
pub struct Config {
    /// Who may change the settings.
    pub admin: Identity,
    /// The wallet that receives the fee of every claim.
    pub developer_wallet: Identity,
}

} // verus!
