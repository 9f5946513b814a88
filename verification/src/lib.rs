//! Text rendering of query results ("show string") and catalog table metadata.

pub mod text;
pub mod escape;
pub mod html;
pub mod batch;
pub mod comfy;
pub mod error;
pub mod show_string;
pub mod table;
pub mod node;
