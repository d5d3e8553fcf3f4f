//! The fatal conditions an orchestration run can hit. Every one of them stops
//! the build; none is retried.

use vstd::prelude::*;

verus! {

/// A fatal build error. The carried strings name the offending input.
#[derive(Debug)]
pub enum BuildError {
    /// The configured target type is not one of `executable`, `static_lib`,
    /// `shared_lib`, `object_lib`.
    UnsupportedTargetType { name: String },
    /// The configuration names no source file.
    NoSources,
    /// The configured toolchain is not one of `gnu`, `llvm`, `msvc`.
    UnsupportedToolchain { name: String },
    /// A source path does not carry a recognized C/C++ extension.
    InvalidSourceExtension { path: String },
    /// A required toolchain executable was not found on the system.
    MissingTool { name: String },
    /// A source path could not be expressed relative to the project root.
    NoRelativePath { path: String },
    /// A compiler invocation exited with a non-zero status.
    CompileFailed { source: String },
    /// A linker invocation exited with a non-zero status.
    LinkFailed { output: String },
    /// A link was requested over an empty object collection.
    NoObjects,
}

} // verus!
