//! Decision logic of the nanocl daemon's virtual machine image handling and
//! the metric requests of its client, with their contracts.

pub mod clone_image;
pub mod create_image;
pub mod create_snapshot;
pub mod delete_image;
pub mod error;
pub mod image;
pub mod metric;
pub mod resize_image;
pub mod text;
pub mod workflow;
