//! A source unit: one C or C++ translation unit, resolved by the caller to a
//! canonical path and tagged with its last-modified timestamp. Construction
//! fails unless the path carries one of the recognized C/C++ extensions; the
//! unit is immutable thereafter.

use vstd::prelude::*;

use crate::error::BuildError;
use crate::paths::{extension_of, extension_str};
use crate::strutil::str_eq;

verus! {

/// The extensions a source unit may carry.
pub open spec fn recognized_extension(e: Seq<char>) -> bool {
    ||| e == "c"@
    ||| e == "cpp"@
    ||| e == "cxx"@
    ||| e == "cc"@
    ||| e == "h"@
    ||| e == "hpp"@
    ||| e == "hh"@
    ||| e == "hxx"@
}

/// A path names a source unit when its last component has a recognized
/// extension.
pub open spec fn valid_source_path(p: Seq<char>) -> bool {
    match extension_of(p) {
        Some(e) => recognized_extension(e),
        None => false,
    }
}

/// One translation unit: its path and its modification time (`None` when the
/// filesystem gave no reliable timestamp, which forces a rebuild).
#[derive(Debug)]
pub struct Source {
    pub src_dir: String,
    pub modified: Option<u64>,
}

impl Source {
    /// The unit's path, as a character sequence.
    pub open spec fn path_spec(&self) -> Seq<char> {
        self.src_dir@
    }

    /// Every constructed source unit carries a recognized extension.
    pub open spec fn wf(&self) -> bool {
        valid_source_path(self.path_spec())
    }

    /// Accepts a path as a source unit, or rejects it for carrying no
    /// recognized C/C++ extension. The caller resolves the path and reads
    /// the timestamp beforehand; no filesystem work happens here.
    pub fn new(path: String, modified: Option<u64>) -> (r: Result<Source, BuildError>)
        ensures
            match r {
                Ok(src) => {
                    &&& valid_source_path(path@)
                    &&& src.wf()
                    &&& src.path_spec() == path@
                    &&& src.modified == modified
                },
                Err(e) => {
                    &&& !valid_source_path(path@)
                    &&& match e {
                        BuildError::InvalidSourceExtension { path: p } => p@ == path@,
                        _ => false,
                    }
                },
            },
    {
        let ext = match extension_str(path.as_str()) {
            Some(e) => e,
            None => {
                return Err(BuildError::InvalidSourceExtension { path });
            },
        };
        let e = ext.as_str();
        if str_eq(e, "c") || str_eq(e, "cpp") || str_eq(e, "cxx") || str_eq(e, "cc")
            || str_eq(e, "h") || str_eq(e, "hpp") || str_eq(e, "hh") || str_eq(e, "hxx") {
            Ok(Source { src_dir: path, modified })
        } else {
            Err(BuildError::InvalidSourceExtension { path })
        }
    }

    /// The unit's path.
    pub fn get_path(&self) -> (r: &str)
        ensures
            r@ == self.path_spec(),
    {
        self.src_dir.as_str()
    }
}

} // verus!
