//! A process-group supervisor: tracks whether a fixed group of cooperating
//! server processes is believed to be running, plans how to start, stop and
//! restart the group, and rediscovers the group's processes by matching their
//! command lines when no spawn handles were retained.

pub mod config;
pub mod identify;
pub mod launch;
pub mod laws;
pub mod menu;
pub mod supervisor;
pub mod text;
