//! Maintenance-task scheduling: the task model, the next-run evaluator, the
//! due-task selector, completion bookkeeping and the poll-cycle decisions,
//! together with the value types and bookkeeping of the maintenance actions
//! (memory, disk, process priority) and the gaming profiles built on them.

pub mod time;
pub mod text;
pub mod schedule;
pub mod scheduler;
pub mod engine;
pub mod memory;
pub mod disk;
pub mod cpu;
pub mod profiles;
