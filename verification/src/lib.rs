//! The control plane of the vynkor kernel: plugin supervision and the REST answers about it.
pub mod api;
pub mod idmap;
pub mod plugins;
pub mod proto;
pub mod text;
pub mod text_laws;
