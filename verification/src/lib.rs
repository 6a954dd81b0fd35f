//! Verified core of the AStAPrint print service: page ranges, job options,
//! the printer job language header, accounting and the worker decisions.

pub mod external;
pub mod jobs;
pub mod journal;
pub mod logger;
pub mod manager;
pub mod pagerange;
pub mod printers;
pub mod register;
pub mod text;

