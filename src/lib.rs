//! A process-wide logging backend: severity filtering with per-component
//! overrides, colored line formatting, and fault report formatting.
pub mod fault;
pub mod format;
pub mod laws;
pub mod level;
pub mod logger;

pub use fault::{
    fault_report, indent_payload, indent_trace, is_blank, location_text,
    split_lines, trim_leading,
};
pub use format::{format_line, Color};
pub use level::{initial_level, parse_level, Level, LevelError};
pub use logger::{component, set_crate_log, set_level, Logger, Settings};
