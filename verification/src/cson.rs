//! The earlier, flat project description: a fixed compiler pair instead of a
//! toolchain selection, and no target-type choice. Kept as plain data for
//! callers that still carry such files; the orchestration engine itself works
//! from [`crate::cxon::CxonConfig`].

use vstd::prelude::*;

verus! {

/// The flat project description: project and target names, the two compiler
/// executables, directories, flags and source lists.
pub struct CsonConfig {
    pub project: String,
    pub target_name: String,
    pub cc: String,
    pub cxx: String,
    pub threads: Option<usize>,
    pub build_dir: String,
    pub output_dir: String,
    pub flags: Option<Vec<String>>,
    pub cflags: Option<Vec<String>>,
    pub cxxflags: Option<Vec<String>>,
    pub sources: Option<Vec<String>>,
    pub defines: Option<Vec<String>>,
    pub includes: Option<Vec<String>>,
    pub link: Option<Vec<String>>,
    pub libs: Option<Vec<String>>,
}

/// The build directory assumed when the description names none.
pub fn default_build_dir() -> (r: String)
    ensures
        r@ == "./build"@,
{
    String::from_str("./build")
}

/// The output directory assumed when the description names none.
pub fn default_output_dir() -> (r: String)
    ensures
        r@ == "./output"@,
{
    String::from_str("./output")
}

} // verus!
