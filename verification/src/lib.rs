//! A durable task SDK: workers that replay orchestrations over their history
//! and run their activities, and the requests a client sends to the task hub.
pub mod client;
pub mod executor;
pub mod history;
pub mod laws;
pub mod queues;
pub mod registry;
pub mod task;
pub mod text;
pub mod types;
pub mod worker;
pub mod replay_laws;
