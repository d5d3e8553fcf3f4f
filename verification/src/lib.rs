//! A minimal native build orchestrator: plans parallel compilation of C/C++
//! translation units into object files and the link step that assembles them
//! into an executable, a static or shared library, or a relocatable object.
//!
//! The crate is organised around plain data: a validated configuration, source
//! units tagged with modification times, toolchain descriptor tables, and the
//! command vectors handed to compiler and linker processes. All decisions
//! (staleness, worker counts, command construction, target dispatch) are made
//! here; running processes and touching the filesystem is left to the caller.

pub mod compiler;
pub mod cson;
pub mod cxon;
pub mod error;
pub mod gnu;
pub mod linker;
pub mod llvm;
pub mod msvc;
pub mod output;
pub mod paths;
pub mod pool;
pub mod source;
pub mod staleness;
pub mod strutil;
pub mod toolchain;
pub mod utils;

pub use staleness::need_recompile;
