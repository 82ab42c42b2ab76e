pub mod claim_payment;
pub mod initialize_config;
pub mod initialize_dao;
pub mod mul_proposal;
pub mod stake;
pub mod staker_proposal;
pub mod update_config;
