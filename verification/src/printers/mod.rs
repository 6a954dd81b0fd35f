//! Printers: their stored details, counters, accounting and job queues.

pub mod accounting;
pub mod queue;
pub mod snmp;
pub mod update;

