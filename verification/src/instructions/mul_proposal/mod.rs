pub mod mul_approve;
pub mod mul_propose;
