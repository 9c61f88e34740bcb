//! Decoder for NetFlow v9 export packets.
//!
//! The decoder is a stateful protocol engine: template flowsets teach it the
//! layout of later data flowsets, and a per-decoder cache keeps what was
//! learned from one packet to the next.
pub mod wire;
pub mod template;
pub mod dataset;
pub mod parser;
pub mod formatters;
pub mod registry;
pub mod encode;

pub use dataset::{DataFlowset, SenderAddr};
pub use formatters::{fmt_int, fmt_tcp_flags, FmtReturn};
pub use parser::Parser;
pub use registry::{FieldFormat, TemplateFieldType};
pub use wire::DecodeError;
