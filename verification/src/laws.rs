//! What holds of every catalogue and every read, proved against the model of
//! a container.

pub mod catalogue;
pub mod chunks;
pub mod pages;
pub mod survey;
