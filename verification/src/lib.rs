//! Symbolication of mobile crash reports: maps each frame of the faulting
//! stack to a binary on disk, builds the symbol lookups for the disassembly
//! backend and renders the annotated trace.

pub mod aslr;
pub mod crash_log_analyzer;
pub mod frame_annotator;
pub mod image_path;
pub mod r2pipe_cache;
pub mod structs;
pub mod symbol_query;
pub mod text;
