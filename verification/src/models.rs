pub mod thread;
pub mod topic;
