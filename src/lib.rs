//! Routes the events of one input device to one of two virtual devices,
//! selected by the state of a trigger key, and plans the capabilities that
//! make each virtual device a replica of the physical one.

pub mod caps;
pub mod config;
pub mod event;
pub mod flush;
pub mod router;
