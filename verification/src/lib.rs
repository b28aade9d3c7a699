//! Incremental fan-out scheduling for an image mirror.
//!
//! A watched source tree is mirrored into several destination trees. Raw
//! change notifications are translated into root-relative actions, every
//! action is handed to each registered target in dispatch order, and each
//! target turns an action into the file-system step it has to perform.
pub mod action;
pub mod relative;
pub mod scheduler;
pub mod worker;
