//! Column decoding for tables kept in a hierarchical container.
//!
//! A table is a group of the container whose members are its fields. Each
//! field is stored under an encoding, named by a tag on its node: strings,
//! integers, or category codes with the table of categories they index. This
//! crate finds out how the fields of a table are stored (`builder`), decodes
//! ranges of rows into text, field by field and aligned by row (`reader`),
//! and lays the text out in lines (`render`).
//!
//! The crate performs no input or output. Whatever it needs from the
//! container it names as a `container::Request` and hands out in an `Ask`
//! step; the caller performs the request and resumes the work with the
//! `container::Reply`. Work that needs nothing more ends in a `Done` step,
//! work that cannot go on in a `Failed` step with an `error::Error`.
//!
//! `model` describes a container as a mathematical value, and `laws` proves,
//! against that description, what the catalogue and the reads come to when
//! every request is answered from the same contents.

pub mod builder;
pub mod container;
pub mod decode;
pub mod error;
pub mod extent;
pub mod field;
pub mod laws;
pub mod listing;
pub mod model;
pub mod reader;
pub mod render;
pub mod text;

pub use builder::{Build, Builder};
pub use container::{NodeKind, Reply, Request};
pub use error::Error;
pub use field::{Column, Encoding, Field};
pub use reader::{ChunkRead, ChunkStep, DataReader, RangeStep};
pub use render::{show_fields, show_head, show_less, show_shapes};
