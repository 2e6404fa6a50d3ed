//! Activation, synchronisation and deadline monitoring for a fixed-priority
//! real-time application: a single-slot mailbox, a bounded request buffer, a
//! per-task deadline monitor with its stopper, the watchdog dispatcher that
//! multiplexes the monitors, and the activation bookkeeping around them.

pub mod mailbox;
pub mod request_buffer;
pub mod deadline;
pub mod dispatcher;
pub mod activation;
pub mod activation_log;
pub mod auxiliary;
pub mod deadline_miss_handler;
pub mod tasks;
