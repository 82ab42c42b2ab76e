pub mod create_proposal;
pub mod execute_proposal;
pub mod vote;
