//! Orchestration of restream jobs: the job model, the delayed-stop timer,
//! the encoder start-up policy and the bookkeeping of the job orchestrator.
pub mod laws;
pub mod manager;
pub mod process;
pub mod scheduler;
pub mod table;
pub mod types;
