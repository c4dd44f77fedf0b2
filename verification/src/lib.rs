//! OpenRollback core: the verified logic of a local file-change
//! snapshot and rollback engine.

pub mod action;
pub mod text;
pub mod paths;
pub mod hash;
pub mod error;
pub mod order;
pub mod records;
pub mod events;
pub mod watch;
pub mod snapshot;
pub mod views;
pub mod places;
pub mod mcp;
