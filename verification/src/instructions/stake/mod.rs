pub mod stake;
pub mod unstake;
